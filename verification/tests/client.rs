use gateway_encoder::chunk_guild_frame;
use gateway_encoder::heartbeat_frame;
use gateway_encoder::identify_frame;
use gateway_encoder::resume_frame;
use gateway_encoder::Body;
use gateway_encoder::ChunkGuildFilter;
use gateway_encoder::FieldName;
use gateway_encoder::FieldValue;
use gateway_encoder::Frame;
use gateway_encoder::FrameLog;
use gateway_encoder::GatewayIntents;
use gateway_encoder::GuildId;
use gateway_encoder::OnlineStatus;
use gateway_encoder::Scalar;
use gateway_encoder::UserId;
use gateway_encoder::WebSocketGatewayClientExt;

const SHARD: [u64; 2] = [0, 1];

fn since_value(frame: &Frame) -> u64 {
    let fields = match &frame.d {
        Body::Obj(fields) => fields,
        Body::Scalar(s) => panic!("expected an object body, found scalar {:?}", s),
    };
    match fields.iter().find(|(k, _)| *k == FieldName::Since) {
        Some((_, FieldValue::Scalar(Scalar::UInt(v)))) => *v,
        other => panic!("expected an integer since field, found {:?}", other),
    }
}

#[test]
fn sends_queue_frames_in_call_order() {
    let mut log = FrameLog::new();
    assert!(log.send_identify(&SHARD, "tok", GatewayIntents { bits: 0 }).is_ok());
    assert!(log.send_resume(&SHARD, "sess-1", 7, "tok").is_ok());
    assert!(log.send_heartbeat(&SHARD, Some(8)).is_ok());
    let frames = log.into_frames();
    assert_eq!(frames.len(), 3);
    assert_eq!(frames[0], identify_frame("tok"));
    assert_eq!(frames[1], resume_frame("sess-1", 7, "tok"));
    assert_eq!(frames[2], heartbeat_frame(Some(8)));
}

#[test]
fn send_chunk_guild_matches_builder() {
    let mut log = FrameLog::new();
    let filter = ChunkGuildFilter::UserIds(vec![UserId(1), UserId(2), UserId(3)]);
    assert!(log
        .send_chunk_guild(GuildId(99), &SHARD, None, filter.clone(), Some("n"))
        .is_ok());
    assert_eq!(
        log.frames()[0],
        chunk_guild_frame(GuildId(99), None, filter, Some("n"))
    );
}

#[test]
fn send_heartbeat_without_sequence_sends_null() {
    let mut log = FrameLog::new();
    assert!(log.send_heartbeat(&SHARD, None).is_ok());
    assert_eq!(log.frames()[0].d, Body::Scalar(Scalar::Null));
}

#[test]
fn consecutive_presence_updates_sample_fresh_timestamps() {
    let mut log = FrameLog::new();
    let presence = (None, OnlineStatus::Online);
    assert!(log.send_presence_update(&SHARD, &presence).is_ok());
    assert!(log.send_presence_update(&SHARD, &presence).is_ok());
    let frames = log.frames();
    assert_ne!(since_value(&frames[0]), since_value(&frames[1]));
}

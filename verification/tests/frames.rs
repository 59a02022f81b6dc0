use gateway_encoder::chunk_guild_frame;
use gateway_encoder::heartbeat_frame;
use gateway_encoder::identify_frame;
use gateway_encoder::presence_update_frame;
use gateway_encoder::resume_frame;
use gateway_encoder::u64_to_dec_string;
use gateway_encoder::Activity;
use gateway_encoder::ActivityKind;
use gateway_encoder::Body;
use gateway_encoder::ChunkGuildFilter;
use gateway_encoder::FieldName;
use gateway_encoder::FieldValue;
use gateway_encoder::Frame;
use gateway_encoder::GuildId;
use gateway_encoder::OnlineStatus;
use gateway_encoder::OpCode;
use gateway_encoder::Scalar;
use gateway_encoder::UserId;

fn body_fields(frame: &Frame) -> &Vec<(FieldName, FieldValue)> {
    match &frame.d {
        Body::Obj(fields) => fields,
        Body::Scalar(s) => panic!("expected an object body, found scalar {:?}", s),
    }
}

fn get_field<'a>(frame: &'a Frame, name: FieldName) -> Option<&'a FieldValue> {
    body_fields(frame)
        .iter()
        .find(|(k, _)| *k == name)
        .map(|(_, v)| v)
}

#[test]
fn chunk_request_with_user_ids_scenario() {
    let frame = chunk_guild_frame(
        GuildId(123456789012345678),
        None,
        ChunkGuildFilter::UserIds(vec![UserId(1), UserId(2)]),
        Some("n1"),
    );
    assert_eq!(frame.op, OpCode::GetGuildMembers);
    assert_eq!(frame.op.num(), 8);
    let expected = vec![
        (
            FieldName::GuildId,
            FieldValue::Scalar(Scalar::Str(String::from("123456789012345678"))),
        ),
        (FieldName::Limit, FieldValue::Scalar(Scalar::UInt(0))),
        (FieldName::Nonce, FieldValue::Scalar(Scalar::Str(String::from("n1")))),
        (FieldName::UserIds, FieldValue::UIntArr(vec![1, 2])),
    ];
    assert_eq!(body_fields(&frame), &expected);
}

#[test]
fn chunk_request_defaults_limit_to_zero() {
    let frame = chunk_guild_frame(GuildId(7), None, ChunkGuildFilter::NoFilter, Some("x"));
    assert_eq!(
        get_field(&frame, FieldName::Limit),
        Some(&FieldValue::Scalar(Scalar::UInt(0)))
    );
}

#[test]
fn chunk_request_keeps_explicit_limit() {
    let frame = chunk_guild_frame(GuildId(7), Some(250), ChunkGuildFilter::NoFilter, None);
    assert_eq!(
        get_field(&frame, FieldName::Limit),
        Some(&FieldValue::Scalar(Scalar::UInt(250)))
    );
}

#[test]
fn chunk_request_defaults_nonce_to_empty() {
    let frame = chunk_guild_frame(GuildId(7), Some(1), ChunkGuildFilter::NoFilter, None);
    assert_eq!(
        get_field(&frame, FieldName::Nonce),
        Some(&FieldValue::Scalar(Scalar::Str(String::new())))
    );
}

#[test]
fn chunk_request_no_filter_sends_empty_query() {
    let frame = chunk_guild_frame(GuildId(7), None, ChunkGuildFilter::NoFilter, None);
    assert_eq!(
        get_field(&frame, FieldName::Query),
        Some(&FieldValue::Scalar(Scalar::Str(String::new())))
    );
    assert_eq!(get_field(&frame, FieldName::UserIds), None);
}

#[test]
fn chunk_request_query_filter_is_verbatim() {
    let frame = chunk_guild_frame(
        GuildId(7),
        None,
        ChunkGuildFilter::Query(String::from("abc")),
        None,
    );
    assert_eq!(
        get_field(&frame, FieldName::Query),
        Some(&FieldValue::Scalar(Scalar::Str(String::from("abc"))))
    );
    assert_eq!(get_field(&frame, FieldName::UserIds), None);
}

#[test]
fn chunk_request_user_ids_keep_supplied_order() {
    let frame = chunk_guild_frame(
        GuildId(7),
        None,
        ChunkGuildFilter::UserIds(vec![UserId(3), UserId(1), UserId(2), UserId(1)]),
        None,
    );
    assert_eq!(
        get_field(&frame, FieldName::UserIds),
        Some(&FieldValue::UIntArr(vec![3, 1, 2, 1]))
    );
    assert_eq!(get_field(&frame, FieldName::Query), None);
}

#[test]
fn guild_id_is_rendered_as_decimal_string() {
    let frame = chunk_guild_frame(
        GuildId(u64::MAX),
        None,
        ChunkGuildFilter::NoFilter,
        None,
    );
    assert_eq!(
        get_field(&frame, FieldName::GuildId),
        Some(&FieldValue::Scalar(Scalar::Str(String::from(
            "18446744073709551615"
        ))))
    );
}

#[test]
fn heartbeat_without_sequence_sends_null_body() {
    let frame = heartbeat_frame(None);
    assert_eq!(frame.op, OpCode::Heartbeat);
    assert_eq!(frame.op.num(), 1);
    assert_eq!(frame.d, Body::Scalar(Scalar::Null));
    assert_ne!(frame.d, Body::Scalar(Scalar::UInt(0)));
}

#[test]
fn heartbeat_with_sequence_sends_it_bare() {
    let frame = heartbeat_frame(Some(42));
    assert_eq!(frame.d, Body::Scalar(Scalar::UInt(42)));
}

#[test]
fn resume_scenario() {
    let frame = resume_frame("sess-1", 7, "tok");
    assert_eq!(frame.op, OpCode::Resume);
    assert_eq!(frame.op.num(), 6);
    let expected = vec![
        (FieldName::SessionId, FieldValue::Scalar(Scalar::Str(String::from("sess-1")))),
        (FieldName::SeqNum, FieldValue::Scalar(Scalar::UInt(7))),
        (FieldName::Token, FieldValue::Scalar(Scalar::Str(String::from("tok")))),
    ];
    assert_eq!(body_fields(&frame), &expected);
}

#[test]
fn resume_keeps_empty_values_unvalidated() {
    let frame = resume_frame("", 0, "");
    let expected = vec![
        (FieldName::SessionId, FieldValue::Scalar(Scalar::Str(String::new()))),
        (FieldName::SeqNum, FieldValue::Scalar(Scalar::UInt(0))),
        (FieldName::Token, FieldValue::Scalar(Scalar::Str(String::new()))),
    ];
    assert_eq!(body_fields(&frame), &expected);
}

#[test]
fn identify_carries_token_and_static_block() {
    let frame = identify_frame("my-token");
    assert_eq!(frame.op, OpCode::Identify);
    assert_eq!(frame.op.num(), 2);
    let props = vec![
        (FieldName::Os, Scalar::Str(String::from("Windows"))),
        (FieldName::Browser, Scalar::Str(String::from("Chrome"))),
        (FieldName::Device, Scalar::Str(String::new())),
        (FieldName::SystemLocale, Scalar::Str(String::from("en-US"))),
        (
            FieldName::BrowserUserAgent,
            Scalar::Str(String::from(
                "Mozilla/5.0 (Windows NT 10.0; Win64; x64) AppleWebKit/537.36 (KHTML, like Gecko) Chrome/112.0.0.0 Safari/537.36",
            )),
        ),
        (FieldName::BrowserVersion, Scalar::Str(String::from("112.0.0.0"))),
        (FieldName::OsVersion, Scalar::Str(String::from("10"))),
        (FieldName::Referrer, Scalar::Str(String::new())),
        (FieldName::ReferringDomain, Scalar::Str(String::new())),
        (FieldName::ReleaseChannel, Scalar::Str(String::from("stable"))),
    ];
    let expected = vec![
        (FieldName::Token, FieldValue::Scalar(Scalar::Str(String::from("my-token")))),
        (FieldName::Capabilities, FieldValue::Scalar(Scalar::UInt(8189))),
        (FieldName::Properties, FieldValue::Obj(props)),
        (FieldName::Compress, FieldValue::Scalar(Scalar::Bool(true))),
        (FieldName::LargeThreshold, FieldValue::Scalar(Scalar::UInt(250))),
    ];
    assert_eq!(body_fields(&frame), &expected);
}

#[test]
fn identify_static_block_is_identical_across_calls() {
    let a = identify_frame("t");
    let b = identify_frame("t");
    assert_eq!(a, b);
}

#[test]
fn presence_update_with_activity() {
    let activity = Activity {
        name: String::from("with fire"),
        kind: ActivityKind::Playing,
        url: None,
    };
    let frame = presence_update_frame(987, &(Some(activity), OnlineStatus::Idle));
    assert_eq!(frame.op, OpCode::StatusUpdate);
    assert_eq!(frame.op.num(), 3);
    let game = vec![
        (FieldName::Name, Scalar::Str(String::from("with fire"))),
        (FieldName::Kind, Scalar::UInt(0)),
        (FieldName::Url, Scalar::Null),
    ];
    let expected = vec![
        (FieldName::Afk, FieldValue::Scalar(Scalar::Bool(false))),
        (FieldName::Since, FieldValue::Scalar(Scalar::UInt(987))),
        (FieldName::Status, FieldValue::Scalar(Scalar::Str(String::from("idle")))),
        (FieldName::Game, FieldValue::Obj(game)),
    ];
    assert_eq!(body_fields(&frame), &expected);
}

#[test]
fn presence_update_without_activity_omits_game() {
    let frame = presence_update_frame(5, &(None, OnlineStatus::Online));
    let expected = vec![
        (FieldName::Afk, FieldValue::Scalar(Scalar::Bool(false))),
        (FieldName::Since, FieldValue::Scalar(Scalar::UInt(5))),
        (FieldName::Status, FieldValue::Scalar(Scalar::Str(String::from("online")))),
    ];
    assert_eq!(body_fields(&frame), &expected);
}

#[test]
fn presence_update_keeps_streaming_url() {
    let activity = Activity {
        name: String::from("live"),
        kind: ActivityKind::Streaming,
        url: Some(String::from("https://example.invalid/live")),
    };
    let frame = presence_update_frame(1, &(Some(activity), OnlineStatus::DoNotDisturb));
    match get_field(&frame, FieldName::Game) {
        Some(FieldValue::Obj(game)) => {
            assert_eq!(game[1], (FieldName::Kind, Scalar::UInt(1)));
            assert_eq!(
                game[2],
                (
                    FieldName::Url,
                    Scalar::Str(String::from("https://example.invalid/live"))
                )
            );
        }
        other => panic!("expected a game block, found {:?}", other),
    }
    assert_eq!(
        get_field(&frame, FieldName::Status),
        Some(&FieldValue::Scalar(Scalar::Str(String::from("dnd"))))
    );
}

#[test]
fn status_renderings_are_stable() {
    assert_eq!(OnlineStatus::Online.name(), "online");
    assert_eq!(OnlineStatus::Idle.name(), "idle");
    assert_eq!(OnlineStatus::DoNotDisturb.name(), "dnd");
    assert_eq!(OnlineStatus::Invisible.name(), "invisible");
    assert_eq!(OnlineStatus::Offline.name(), "offline");
}

#[test]
fn activity_kind_wire_values() {
    assert_eq!(ActivityKind::Playing.num(), 0);
    assert_eq!(ActivityKind::Streaming.num(), 1);
    assert_eq!(ActivityKind::Listening.num(), 2);
    assert_eq!(ActivityKind::Watching.num(), 3);
    assert_eq!(ActivityKind::Custom.num(), 4);
    assert_eq!(ActivityKind::Competing.num(), 5);
}

#[test]
fn opcode_wire_values() {
    assert_eq!(OpCode::Event.num(), 0);
    assert_eq!(OpCode::Heartbeat.num(), 1);
    assert_eq!(OpCode::Identify.num(), 2);
    assert_eq!(OpCode::StatusUpdate.num(), 3);
    assert_eq!(OpCode::VoiceStateUpdate.num(), 4);
    assert_eq!(OpCode::VoiceServerPing.num(), 5);
    assert_eq!(OpCode::Resume.num(), 6);
    assert_eq!(OpCode::Reconnect.num(), 7);
    assert_eq!(OpCode::GetGuildMembers.num(), 8);
    assert_eq!(OpCode::InvalidSession.num(), 9);
    assert_eq!(OpCode::Hello.num(), 10);
    assert_eq!(OpCode::HeartbeatAck.num(), 11);
}

#[test]
fn field_name_wire_renderings() {
    assert_eq!(FieldName::GuildId.as_str(), "guild_id");
    assert_eq!(FieldName::Limit.as_str(), "limit");
    assert_eq!(FieldName::Nonce.as_str(), "nonce");
    assert_eq!(FieldName::Query.as_str(), "query");
    assert_eq!(FieldName::UserIds.as_str(), "user_ids");
    assert_eq!(FieldName::Token.as_str(), "token");
    assert_eq!(FieldName::Capabilities.as_str(), "capabilities");
    assert_eq!(FieldName::Properties.as_str(), "properties");
    assert_eq!(FieldName::SystemLocale.as_str(), "system_locale");
    assert_eq!(FieldName::BrowserUserAgent.as_str(), "browser_user_agent");
    assert_eq!(FieldName::LargeThreshold.as_str(), "large_threshold");
    assert_eq!(FieldName::Afk.as_str(), "afk");
    assert_eq!(FieldName::Since.as_str(), "since");
    assert_eq!(FieldName::Status.as_str(), "status");
    assert_eq!(FieldName::Game.as_str(), "game");
    assert_eq!(FieldName::Kind.as_str(), "type");
    assert_eq!(FieldName::SessionId.as_str(), "session_id");
    assert_eq!(FieldName::SeqNum.as_str(), "seq");
}

#[test]
fn decimal_rendering_exact_values() {
    assert_eq!(u64_to_dec_string(0), "0");
    assert_eq!(u64_to_dec_string(9), "9");
    assert_eq!(u64_to_dec_string(10), "10");
    assert_eq!(u64_to_dec_string(105), "105");
    assert_eq!(u64_to_dec_string(123456789012345678), "123456789012345678");
    assert_eq!(u64_to_dec_string(u64::MAX), "18446744073709551615");
}

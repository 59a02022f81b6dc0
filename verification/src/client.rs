//! The send surface of the encoder: one method per outbound command, each
//! building exactly one frame and handing it to the implementor's transport.
//! [`FrameLog`] implements it over an in-memory queue; an orchestrator drains
//! that queue into a real connection, which it holds as a single-writer
//! resource.

use vstd::prelude::*;

use crate::builder::chunk_guild_frame;
use crate::builder::chunk_guild_frame_spec;
use crate::builder::heartbeat_frame;
use crate::builder::heartbeat_frame_spec;
use crate::builder::identify_frame;
use crate::builder::identify_frame_spec;
use crate::builder::opt_str_view;
use crate::builder::presence_frame_spec;
use crate::builder::presence_update_frame;
use crate::builder::resume_frame;
use crate::builder::resume_frame_spec;
use crate::frame::Frame;
use crate::frame::FrameV;
use crate::model::opt_activity_view;
use crate::model::ChunkGuildFilter;
use crate::model::CurrentPresence;
use crate::model::GatewayIntents;
use crate::model::GuildId;
use crate::model::TransportError;

verus! {

/// Relies on std::time::SystemTime::now for a reading of the wall clock: the
/// nanoseconds since the Unix epoch, 0 for a clock set before it. Nothing is
/// promised of the value; the clock is outside this library.
#[verifier::external_body]
fn now_unix_nanos() -> u64 {
    match std::time::SystemTime::now().duration_since(std::time::UNIX_EPOCH) {
        Ok(d) => d.as_nanos() as u64,
        Err(_) => 0,
    }
}

/// Encoding-and-send surface of a gateway connection. Each method encodes
/// one command and performs exactly one send: on success the frame stated by
/// the builder specs is appended to what the connection has sent, and on a
/// transport failure nothing is. A presence update samples the wall clock
/// for its `since` field at call time, so its frame is pinned only up to
/// that reading.
pub trait WebSocketGatewayClientExt {
    /// Everything sent over this connection so far, oldest first.
    spec fn sent(&self) -> Seq<FrameV>;

    /// Requests member chunks for one guild. `shard_info` identifies the
    /// calling shard for observability only and does not reach the frame.
    fn send_chunk_guild(
        &mut self,
        guild_id: GuildId,
        shard_info: &[u64; 2],
        limit: Option<u16>,
        filter: ChunkGuildFilter,
        nonce: Option<&str>,
    ) -> (r: Result<(), TransportError>)
        ensures
            r is Ok ==> final(self).sent() == old(self).sent().push(
                chunk_guild_frame_spec(guild_id, limit, filter@, opt_str_view(nonce)),
            ),
            r is Err ==> final(self).sent() == old(self).sent(),
    ;

    /// Sends a heartbeat carrying the last-seen sequence number, bare.
    fn send_heartbeat(&mut self, shard_info: &[u64; 2], seq_num: Option<u64>) -> (r: Result<
        (),
        TransportError,
    >)
        ensures
            r is Ok ==> final(self).sent() == old(self).sent().push(heartbeat_frame_spec(seq_num)),
            r is Err ==> final(self).sent() == old(self).sent(),
    ;

    /// Identifies a new session. `intents` is accepted but not embedded in
    /// the frame; whether the peer now expects it is a protocol-compatibility
    /// question outside this encoder.
    fn send_identify(
        &mut self,
        shard_info: &[u64; 2],
        token: &str,
        intents: GatewayIntents,
    ) -> (r: Result<(), TransportError>)
        ensures
            r is Ok ==> final(self).sent() == old(self).sent().push(identify_frame_spec(token@)),
            r is Err ==> final(self).sent() == old(self).sent(),
    ;

    /// Sends a presence update, sampling the wall clock for the `since`
    /// field at call time — never cached, so every call carries its own
    /// reading.
    fn send_presence_update(
        &mut self,
        shard_info: &[u64; 2],
        current_presence: &CurrentPresence,
    ) -> (r: Result<(), TransportError>)
        ensures
            r is Ok ==> exists|since: u64|
                final(self).sent() == old(self).sent().push(
                    presence_frame_spec(
                        since,
                        opt_activity_view(current_presence.0),
                        current_presence.1,
                    ),
                ),
            r is Err ==> final(self).sent() == old(self).sent(),
    ;

    /// Resumes an interrupted session from the state the caller observed.
    fn send_resume(
        &mut self,
        shard_info: &[u64; 2],
        session_id: &str,
        seq_num: u64,
        token: &str,
    ) -> (r: Result<(), TransportError>)
        ensures
            r is Ok ==> final(self).sent() == old(self).sent().push(
                resume_frame_spec(session_id@, seq_num, token@),
            ),
            r is Err ==> final(self).sent() == old(self).sent(),
    ;
}

/// An in-memory, always-open transport: frames queue up in call order and a
/// caller (one writer at a time) drains them into the real connection.
/// Queueing cannot fail, so every send method also promises success.
pub struct FrameLog {
    frames: Vec<Frame>,
}

impl FrameLog {
    /// An empty queue: nothing sent yet.
    pub fn new() -> (r: FrameLog)
        ensures
            r.sent() == Seq::<FrameV>::empty(),
    {
        let r = FrameLog { frames: Vec::new() };
        proof {
            assert(r.sent() =~= Seq::<FrameV>::empty());
        }
        r
    }

    /// The queued frames, in the order the sends were made.
    pub fn frames(&self) -> (r: &Vec<Frame>)
        ensures
            r@.map_values(|f: Frame| f@) == self.sent(),
    {
        &self.frames
    }

    /// Hands the queued frames over for transmission.
    pub fn into_frames(self) -> (r: Vec<Frame>)
        ensures
            r@.map_values(|f: Frame| f@) == self.sent(),
    {
        self.frames
    }

    fn push_frame(&mut self, frame: Frame)
        ensures
            final(self).sent() == old(self).sent().push(frame@),
    {
        self.frames.push(frame);
        proof {
            assert(final(self).sent() =~= old(self).sent().push(frame@));
        }
    }
}

impl WebSocketGatewayClientExt for FrameLog {
    closed spec fn sent(&self) -> Seq<FrameV> {
        self.frames@.map_values(|f: Frame| f@)
    }

    #[allow(unused_variables)]
    fn send_chunk_guild(
        &mut self,
        guild_id: GuildId,
        shard_info: &[u64; 2],
        limit: Option<u16>,
        filter: ChunkGuildFilter,
        nonce: Option<&str>,
    ) -> (r: Result<(), TransportError>)
        ensures
            r is Ok,
    {
        self.push_frame(chunk_guild_frame(guild_id, limit, filter, nonce));
        Ok(())
    }

    #[allow(unused_variables)]
    fn send_heartbeat(&mut self, shard_info: &[u64; 2], seq_num: Option<u64>) -> (r: Result<
        (),
        TransportError,
    >)
        ensures
            r is Ok,
    {
        self.push_frame(heartbeat_frame(seq_num));
        Ok(())
    }

    #[allow(unused_variables)]
    fn send_identify(
        &mut self,
        shard_info: &[u64; 2],
        token: &str,
        intents: GatewayIntents,
    ) -> (r: Result<(), TransportError>)
        ensures
            r is Ok,
    {
        self.push_frame(identify_frame(token));
        Ok(())
    }

    #[allow(unused_variables)]
    fn send_presence_update(
        &mut self,
        shard_info: &[u64; 2],
        current_presence: &CurrentPresence,
    ) -> (r: Result<(), TransportError>)
        ensures
            r is Ok,
    {
        let since = now_unix_nanos();
        self.push_frame(presence_update_frame(since, current_presence));
        proof {
            assert(final(self).sent() == old(self).sent().push(
                presence_frame_spec(
                    since,
                    opt_activity_view(current_presence.0),
                    current_presence.1,
                ),
            ));
        }
        Ok(())
    }

    #[allow(unused_variables)]
    fn send_resume(
        &mut self,
        shard_info: &[u64; 2],
        session_id: &str,
        seq_num: u64,
        token: &str,
    ) -> (r: Result<(), TransportError>)
        ensures
            r is Ok,
    {
        self.push_frame(resume_frame(session_id, seq_num, token));
        Ok(())
    }
}

} // verus!

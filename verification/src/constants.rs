//! Protocol-wide constants: the op-code table shared with the inbound
//! dispatcher, and the fixed values of the identify fingerprint block.

use vstd::prelude::*;

verus! {

/// Numeric tag identifying the semantic type of a gateway frame. The table is
/// a fixed, process-wide constant shared with the inbound dispatcher; this
/// encoder uses `Heartbeat`, `Identify`, `StatusUpdate`, `Resume` and
/// `GetGuildMembers`.
#[derive(Clone, Copy, Debug, PartialEq, Eq, Structural)]
pub enum OpCode {
    Event,
    Heartbeat,
    Identify,
    StatusUpdate,
    VoiceStateUpdate,
    VoiceServerPing,
    Resume,
    Reconnect,
    GetGuildMembers,
    InvalidSession,
    Hello,
    HeartbeatAck,
}

/// The wire value of each op-code.
pub open spec fn op_num(op: OpCode) -> u64 {
    match op {
        OpCode::Event => 0,
        OpCode::Heartbeat => 1,
        OpCode::Identify => 2,
        OpCode::StatusUpdate => 3,
        OpCode::VoiceStateUpdate => 4,
        OpCode::VoiceServerPing => 5,
        OpCode::Resume => 6,
        OpCode::Reconnect => 7,
        OpCode::GetGuildMembers => 8,
        OpCode::InvalidSession => 9,
        OpCode::Hello => 10,
        OpCode::HeartbeatAck => 11,
    }
}

impl OpCode {
    /// The integer carried in a frame's `op` field for this command.
    pub fn num(&self) -> (n: u64)
        ensures
            n == op_num(*self),
    {
        match self {
            OpCode::Event => 0,
            OpCode::Heartbeat => 1,
            OpCode::Identify => 2,
            OpCode::StatusUpdate => 3,
            OpCode::VoiceStateUpdate => 4,
            OpCode::VoiceServerPing => 5,
            OpCode::Resume => 6,
            OpCode::Reconnect => 7,
            OpCode::GetGuildMembers => 8,
            OpCode::InvalidSession => 9,
            OpCode::Hello => 10,
            OpCode::HeartbeatAck => 11,
        }
    }
}

/// Fixed `capabilities` value carried in every identify frame.
pub const CAPABILITIES: u64 = 8189;

/// Fixed `large_threshold` value carried in every identify frame.
pub const LARGE_THRESHOLD: u64 = 250;

/// The browser user-agent string of the identify fingerprint block. The peer
/// fingerprints clients by this block, so it must be byte-identical on every
/// call.
pub open spec fn user_agent_spec() -> Seq<char> {
    "Mozilla/5.0 (Windows NT 10.0; Win64; x64) AppleWebKit/537.36 (KHTML, like Gecko) Chrome/112.0.0.0 Safari/537.36"@
}

/// The configured user-agent constant.
pub fn user_agent() -> (r: &'static str)
    ensures
        r@ == user_agent_spec(),
{
    "Mozilla/5.0 (Windows NT 10.0; Win64; x64) AppleWebKit/537.36 (KHTML, like Gecko) Chrome/112.0.0.0 Safari/537.36"
}

/// The browser version string of the identify fingerprint block.
pub open spec fn browser_version_spec() -> Seq<char> {
    "112.0.0.0"@
}

/// The configured browser-version constant.
pub fn browser_version() -> (r: &'static str)
    ensures
        r@ == browser_version_spec(),
{
    "112.0.0.0"
}

} // verus!

//! Per-call value objects handed to the builders: identifiers, the
//! member-chunk filter, presence data, and the transport failure type.

use vstd::prelude::*;

verus! {

/// Identifier of a guild (a large collection of members). Rendered on the
/// wire as a decimal string, because the value exceeds safe-integer precision
/// in some peer-side parsers.
#[derive(Clone, Copy, Debug, PartialEq, Eq, Hash, Structural)]
pub struct GuildId(pub u64);

/// Identifier of one user.
#[derive(Clone, Copy, Debug, PartialEq, Eq, Hash, Structural)]
pub struct UserId(pub u64);

/// Selector for a member-chunk request: who the peer should include. Exactly
/// one variant is active per call, and the variants are mutually exclusive on
/// the wire: the resolved body carries either a `query` field or a `user_ids`
/// field, never both. The match over this type is exhaustive on purpose, so
/// that a new variant is a compile-time-visible break.
#[derive(Clone, Debug, PartialEq, Eq)]
pub enum ChunkGuildFilter {
    /// No filtering: sent as an explicit empty `query`, not an absent field.
    NoFilter,
    /// Prefix filter on display name, passed verbatim.
    Query(String),
    /// Exact membership list, in caller-supplied order.
    UserIds(Vec<UserId>),
}

/// Mathematical model of a [`ChunkGuildFilter`].
#[verifier::ext_equal]
pub enum FilterV {
    NoFilter,
    Query(Seq<char>),
    UserIds(Seq<u64>),
}

impl View for ChunkGuildFilter {
    type V = FilterV;

    open spec fn view(&self) -> FilterV {
        match self {
            ChunkGuildFilter::NoFilter => FilterV::NoFilter,
            ChunkGuildFilter::Query(q) => FilterV::Query(q@),
            ChunkGuildFilter::UserIds(ids) => FilterV::UserIds(
                ids@.map_values(|u: UserId| u.0),
            ),
        }
    }
}

/// The caller's online status, with its stable wire rendering.
#[derive(Clone, Copy, Debug, PartialEq, Eq, Structural)]
pub enum OnlineStatus {
    Online,
    Idle,
    DoNotDisturb,
    Invisible,
    Offline,
}

/// The wire rendering of a status.
pub open spec fn status_text(s: OnlineStatus) -> Seq<char> {
    match s {
        OnlineStatus::Online => "online"@,
        OnlineStatus::Idle => "idle"@,
        OnlineStatus::DoNotDisturb => "dnd"@,
        OnlineStatus::Invisible => "invisible"@,
        OnlineStatus::Offline => "offline"@,
    }
}

impl OnlineStatus {
    /// The string sent in the `status` field for this value.
    pub fn name(&self) -> (r: &'static str)
        ensures
            r@ == status_text(*self),
    {
        match self {
            OnlineStatus::Online => "online",
            OnlineStatus::Idle => "idle",
            OnlineStatus::DoNotDisturb => "dnd",
            OnlineStatus::Invisible => "invisible",
            OnlineStatus::Offline => "offline",
        }
    }
}

/// The kind of an activity, carried as the numeric `type` field of the
/// presence `game` block.
#[derive(Clone, Copy, Debug, PartialEq, Eq, Structural)]
pub enum ActivityKind {
    Playing,
    Streaming,
    Listening,
    Watching,
    Custom,
    Competing,
}

/// The wire value of an activity kind.
pub open spec fn kind_num(k: ActivityKind) -> u64 {
    match k {
        ActivityKind::Playing => 0,
        ActivityKind::Streaming => 1,
        ActivityKind::Listening => 2,
        ActivityKind::Watching => 3,
        ActivityKind::Custom => 4,
        ActivityKind::Competing => 5,
    }
}

impl ActivityKind {
    /// The integer sent in the `type` field for this kind.
    pub fn num(&self) -> (n: u64)
        ensures
            n == kind_num(*self),
    {
        match self {
            ActivityKind::Playing => 0,
            ActivityKind::Streaming => 1,
            ActivityKind::Listening => 2,
            ActivityKind::Watching => 3,
            ActivityKind::Custom => 4,
            ActivityKind::Competing => 5,
        }
    }
}

/// An activity shown in a presence update.
#[derive(Clone, Debug, PartialEq, Eq)]
pub struct Activity {
    pub name: String,
    pub kind: ActivityKind,
    pub url: Option<String>,
}

/// Mathematical model of an [`Activity`].
#[verifier::ext_equal]
pub struct ActivityV {
    pub name: Seq<char>,
    pub kind: ActivityKind,
    pub url: Option<Seq<char>>,
}

/// The view of an optional owned string.
pub open spec fn opt_string_view(o: Option<String>) -> Option<Seq<char>> {
    match o {
        Option::Some(s) => Option::Some(s@),
        Option::None => Option::None,
    }
}

impl View for Activity {
    type V = ActivityV;

    open spec fn view(&self) -> ActivityV {
        ActivityV { name: self.name@, kind: self.kind, url: opt_string_view(self.url) }
    }
}

/// The caller's current presence: an optional activity and a status.
pub type CurrentPresence = (Option<Activity>, OnlineStatus);

/// The view of the optional activity of a presence.
pub open spec fn opt_activity_view(o: Option<Activity>) -> Option<ActivityV> {
    match o {
        Option::Some(a) => Option::Some(a@),
        Option::None => Option::None,
    }
}

/// An opaque bitmask of gateway intents, threaded through from the caller
/// verbatim; this encoder does not interpret its bits.
#[derive(Clone, Copy, Debug, PartialEq, Eq, Structural)]
pub struct GatewayIntents {
    pub bits: u64,
}

/// The single failure this encoder surfaces: the underlying send could not
/// complete. It wraps whatever the transport reported, unchanged.
#[derive(Clone, Debug, PartialEq, Eq)]
pub struct TransportError {
    pub message: String,
}

} // verus!

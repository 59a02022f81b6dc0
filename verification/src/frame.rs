//! The shape of an outbound gateway frame: the envelope `{op, d}`, the body
//! forms the protocol allows, and the closed set of field names that can
//! appear in a body. Every frame this encoder produces is a value of these
//! types; a transport serializes them outside this crate.

use vstd::prelude::*;

verus! {

/// A field name that can appear in a frame body. The set is closed: the peer
/// protocol recognizes exactly these keys, rendered by [`FieldName::as_str`].
#[derive(Clone, Copy, Debug, PartialEq, Eq, Hash, Structural)]
pub enum FieldName {
    GuildId,
    Limit,
    Nonce,
    Query,
    UserIds,
    Token,
    Capabilities,
    Properties,
    Os,
    Browser,
    Device,
    SystemLocale,
    BrowserUserAgent,
    BrowserVersion,
    OsVersion,
    Referrer,
    ReferringDomain,
    ReleaseChannel,
    Compress,
    LargeThreshold,
    Afk,
    Since,
    Status,
    Game,
    Name,
    Kind,
    Url,
    SessionId,
    SeqNum,
}

/// The key under which a field is sent on the wire.
pub open spec fn field_text(f: FieldName) -> Seq<char> {
    match f {
        FieldName::GuildId => "guild_id"@,
        FieldName::Limit => "limit"@,
        FieldName::Nonce => "nonce"@,
        FieldName::Query => "query"@,
        FieldName::UserIds => "user_ids"@,
        FieldName::Token => "token"@,
        FieldName::Capabilities => "capabilities"@,
        FieldName::Properties => "properties"@,
        FieldName::Os => "os"@,
        FieldName::Browser => "browser"@,
        FieldName::Device => "device"@,
        FieldName::SystemLocale => "system_locale"@,
        FieldName::BrowserUserAgent => "browser_user_agent"@,
        FieldName::BrowserVersion => "browser_version"@,
        FieldName::OsVersion => "os_version"@,
        FieldName::Referrer => "referrer"@,
        FieldName::ReferringDomain => "referring_domain"@,
        FieldName::ReleaseChannel => "release_channel"@,
        FieldName::Compress => "compress"@,
        FieldName::LargeThreshold => "large_threshold"@,
        FieldName::Afk => "afk"@,
        FieldName::Since => "since"@,
        FieldName::Status => "status"@,
        FieldName::Game => "game"@,
        FieldName::Name => "name"@,
        FieldName::Kind => "type"@,
        FieldName::Url => "url"@,
        FieldName::SessionId => "session_id"@,
        FieldName::SeqNum => "seq"@,
    }
}

impl FieldName {
    /// The wire rendering of this field name.
    pub fn as_str(&self) -> (r: &'static str)
        ensures
            r@ == field_text(*self),
    {
        match self {
            FieldName::GuildId => "guild_id",
            FieldName::Limit => "limit",
            FieldName::Nonce => "nonce",
            FieldName::Query => "query",
            FieldName::UserIds => "user_ids",
            FieldName::Token => "token",
            FieldName::Capabilities => "capabilities",
            FieldName::Properties => "properties",
            FieldName::Os => "os",
            FieldName::Browser => "browser",
            FieldName::Device => "device",
            FieldName::SystemLocale => "system_locale",
            FieldName::BrowserUserAgent => "browser_user_agent",
            FieldName::BrowserVersion => "browser_version",
            FieldName::OsVersion => "os_version",
            FieldName::Referrer => "referrer",
            FieldName::ReferringDomain => "referring_domain",
            FieldName::ReleaseChannel => "release_channel",
            FieldName::Compress => "compress",
            FieldName::LargeThreshold => "large_threshold",
            FieldName::Afk => "afk",
            FieldName::Since => "since",
            FieldName::Status => "status",
            FieldName::Game => "game",
            FieldName::Name => "name",
            FieldName::Kind => "type",
            FieldName::Url => "url",
            FieldName::SessionId => "session_id",
            FieldName::SeqNum => "seq",
        }
    }
}

/// An atomic field value: the protocol's explicit absent-value marker, a
/// boolean, a non-negative integer, or a string.
#[derive(Clone, Debug, PartialEq, Eq)]
pub enum Scalar {
    Null,
    Bool(bool),
    UInt(u64),
    Str(String),
}

/// Mathematical model of a [`Scalar`].
#[verifier::ext_equal]
pub enum ScalarV {
    Null,
    Bool(bool),
    UInt(u64),
    Str(Seq<char>),
}

impl View for Scalar {
    type V = ScalarV;

    open spec fn view(&self) -> ScalarV {
        match self {
            Scalar::Null => ScalarV::Null,
            Scalar::Bool(b) => ScalarV::Bool(*b),
            Scalar::UInt(n) => ScalarV::UInt(*n),
            Scalar::Str(s) => ScalarV::Str(s@),
        }
    }
}

/// A value of a body field: a scalar, an array of integers (the `user_ids`
/// list), or a flat object of scalars (the identify `properties` block and
/// the presence `game` block).
#[derive(Clone, Debug, PartialEq, Eq)]
pub enum FieldValue {
    Scalar(Scalar),
    UIntArr(Vec<u64>),
    Obj(Vec<(FieldName, Scalar)>),
}

/// Mathematical model of a [`FieldValue`].
#[verifier::ext_equal]
pub enum FieldValueV {
    Scalar(ScalarV),
    UIntArr(Seq<u64>),
    Obj(Seq<(FieldName, ScalarV)>),
}

impl View for FieldValue {
    type V = FieldValueV;

    open spec fn view(&self) -> FieldValueV {
        match self {
            FieldValue::Scalar(s) => FieldValueV::Scalar(s@),
            FieldValue::UIntArr(v) => FieldValueV::UIntArr(v@),
            FieldValue::Obj(ps) => FieldValueV::Obj(
                ps@.map_values(|p: (FieldName, Scalar)| (p.0, p.1@)),
            ),
        }
    }
}

/// The `d` part of a frame: an object of named fields for every command but
/// heartbeat, whose body is a bare scalar.
#[derive(Clone, Debug, PartialEq, Eq)]
pub enum Body {
    Scalar(Scalar),
    Obj(Vec<(FieldName, FieldValue)>),
}

/// Mathematical model of a [`Body`].
#[verifier::ext_equal]
pub enum BodyV {
    Scalar(ScalarV),
    Obj(Seq<(FieldName, FieldValueV)>),
}

impl View for Body {
    type V = BodyV;

    open spec fn view(&self) -> BodyV {
        match self {
            Body::Scalar(s) => BodyV::Scalar(s@),
            Body::Obj(fs) => BodyV::Obj(fs@.map_values(|p: (FieldName, FieldValue)| (p.0, p.1@))),
        }
    }
}

/// One complete outbound frame: the envelope `{op, d}`.
#[derive(Clone, Debug, PartialEq, Eq)]
pub struct Frame {
    pub op: crate::constants::OpCode,
    pub d: Body,
}

/// Mathematical model of a [`Frame`].
#[verifier::ext_equal]
pub struct FrameV {
    pub op: crate::constants::OpCode,
    pub d: BodyV,
}

impl View for Frame {
    type V = FrameV;

    open spec fn view(&self) -> FrameV {
        FrameV { op: self.op, d: self.d@ }
    }
}

/// The value of the first field named `k` at or after position `i`, if any.
pub open spec fn fields_get_from<V>(fields: Seq<(FieldName, V)>, k: FieldName, i: int) -> Option<
    V,
>
    decreases fields.len() - i,
{
    if i < 0 || i >= fields.len() {
        Option::None
    } else if fields[i].0 == k {
        Option::Some(fields[i].1)
    } else {
        fields_get_from(fields, k, i + 1)
    }
}

/// The value of the first field named `k` in an object body, if any.
pub open spec fn fields_get<V>(fields: Seq<(FieldName, V)>, k: FieldName) -> Option<V> {
    fields_get_from(fields, k, 0)
}

/// Whether an object body carries a field named `k` at all.
pub open spec fn fields_has<V>(fields: Seq<(FieldName, V)>, k: FieldName) -> bool {
    fields_get(fields, k) is Some
}

} // verus!

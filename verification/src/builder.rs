//! The payload builders: one pure function per outbound command, each proved
//! to produce exactly the frame the peer protocol expects, and the resolver
//! that turns a member-chunk filter into the body fields it implies.

use vstd::prelude::*;

use crate::constants::browser_version;
use crate::constants::browser_version_spec;
use crate::constants::op_num;
use crate::constants::user_agent;
use crate::constants::user_agent_spec;
use crate::constants::OpCode;
use crate::constants::CAPABILITIES;
use crate::constants::LARGE_THRESHOLD;
use crate::decimal::dec_rep;
use crate::decimal::u64_to_dec_string;
use crate::frame::Body;
use crate::frame::BodyV;
use crate::frame::FieldName;
use crate::frame::FieldValue;
use crate::frame::FieldValueV;
use crate::frame::Frame;
use crate::frame::FrameV;
use crate::frame::Scalar;
use crate::frame::ScalarV;
use crate::model::kind_num;
use crate::model::opt_activity_view;
use crate::model::status_text;
use crate::model::ActivityV;
use crate::model::ChunkGuildFilter;
use crate::model::CurrentPresence;
use crate::model::FilterV;
use crate::model::GuildId;
use crate::model::OnlineStatus;
use crate::model::UserId;

verus! {

/// The view of an optional borrowed string.
pub open spec fn opt_str_view(o: Option<&str>) -> Option<Seq<char>> {
    match o {
        Option::Some(s) => Option::Some(s@),
        Option::None => Option::None,
    }
}

/// The view of a body under construction.
pub open spec fn body_fields_view(fs: Seq<(FieldName, FieldValue)>) -> Seq<(
    FieldName,
    FieldValueV,
)> {
    fs.map_values(|p: (FieldName, FieldValue)| (p.0, p.1@))
}

/// The body fields a member-chunk filter resolves to: an explicit empty
/// `query` for no filter, the query text verbatim, or the user identifiers
/// in caller-supplied order. Never both a `query` and a `user_ids` field.
pub open spec fn filter_fields_spec(f: FilterV) -> Seq<(FieldName, FieldValueV)> {
    match f {
        FilterV::NoFilter => seq![
            (FieldName::Query, FieldValueV::Scalar(ScalarV::Str(Seq::empty()))),
        ],
        FilterV::Query(q) => seq![(FieldName::Query, FieldValueV::Scalar(ScalarV::Str(q)))],
        FilterV::UserIds(ids) => seq![(FieldName::UserIds, FieldValueV::UIntArr(ids))],
    }
}

/// Resolves a member-chunk filter into the fields it implies. The match is
/// exhaustive with no default arm, so a future variant fails to compile
/// rather than silently resolving to no filter.
pub fn resolve_filter(filter: ChunkGuildFilter) -> (r: Vec<(FieldName, FieldValue)>)
    ensures
        body_fields_view(r@) == filter_fields_spec(filter@),
{
    let mut fields: Vec<(FieldName, FieldValue)> = Vec::new();
    match filter {
        ChunkGuildFilter::NoFilter => {
            fields.push((FieldName::Query, FieldValue::Scalar(Scalar::Str(String::new()))));
        },
        ChunkGuildFilter::Query(query) => {
            fields.push((FieldName::Query, FieldValue::Scalar(Scalar::Str(query))));
        },
        ChunkGuildFilter::UserIds(user_ids) => {
            let ghost ids_model = user_ids@.map_values(|u: UserId| u.0);
            let mut ids: Vec<u64> = Vec::new();
            let mut i: usize = 0;
            while i < user_ids.len()
                invariant
                    i <= user_ids@.len(),
                    ids_model == user_ids@.map_values(|u: UserId| u.0),
                    ids@ == ids_model.take(i as int),
                decreases user_ids@.len() - i,
            {
                ids.push(user_ids[i].0);
                i = i + 1;
                proof {
                    assert(ids@ =~= ids_model.take(i as int));
                }
            }
            proof {
                assert(ids@ =~= ids_model);
            }
            fields.push((FieldName::UserIds, FieldValue::UIntArr(ids)));
        },
    }
    proof {
        assert(body_fields_view(fields@) =~= filter_fields_spec(filter@));
    }
    fields
}

/// The body of a member-chunk request: the guild rendered in decimal, the
/// limit (0, meaning no cap, when absent), the nonce (empty when absent),
/// then the fields of the resolved filter.
pub open spec fn chunk_guild_body_spec(
    guild_id: GuildId,
    limit: Option<u16>,
    filter: FilterV,
    nonce: Option<Seq<char>>,
) -> Seq<(FieldName, FieldValueV)> {
    seq![
        (FieldName::GuildId, FieldValueV::Scalar(ScalarV::Str(dec_rep(guild_id.0 as nat)))),
        (
            FieldName::Limit,
            FieldValueV::Scalar(
                ScalarV::UInt(
                    match limit {
                        Option::Some(l) => l as u64,
                        Option::None => 0,
                    },
                ),
            ),
        ),
        (
            FieldName::Nonce,
            FieldValueV::Scalar(
                ScalarV::Str(
                    match nonce {
                        Option::Some(s) => s,
                        Option::None => Seq::empty(),
                    },
                ),
            ),
        ),
    ] + filter_fields_spec(filter)
}

/// A complete member-chunk request frame.
pub open spec fn chunk_guild_frame_spec(
    guild_id: GuildId,
    limit: Option<u16>,
    filter: FilterV,
    nonce: Option<Seq<char>>,
) -> FrameV {
    FrameV {
        op: OpCode::GetGuildMembers,
        d: BodyV::Obj(chunk_guild_body_spec(guild_id, limit, filter, nonce)),
    }
}

/// Builds the frame requesting member chunks for one guild.
pub fn chunk_guild_frame(
    guild_id: GuildId,
    limit: Option<u16>,
    filter: ChunkGuildFilter,
    nonce: Option<&str>,
) -> (r: Frame)
    ensures
        r@ == chunk_guild_frame_spec(guild_id, limit, filter@, opt_str_view(nonce)),
{
    let mut fields: Vec<(FieldName, FieldValue)> = Vec::new();
    fields.push(
        (FieldName::GuildId, FieldValue::Scalar(Scalar::Str(u64_to_dec_string(guild_id.0)))),
    );
    let lim: u64 = match limit {
        Option::Some(l) => l as u64,
        Option::None => 0,
    };
    fields.push((FieldName::Limit, FieldValue::Scalar(Scalar::UInt(lim))));
    let nonce_text: String = match nonce {
        Option::Some(s) => s.to_owned(),
        Option::None => String::new(),
    };
    fields.push((FieldName::Nonce, FieldValue::Scalar(Scalar::Str(nonce_text))));
    let ghost filter_model = filter@;
    let mut filter_fields = resolve_filter(filter);
    fields.append(&mut filter_fields);
    proof {
        assert(body_fields_view(fields@) =~= chunk_guild_body_spec(
            guild_id,
            limit,
            filter_model,
            opt_str_view(nonce),
        ));
    }
    Frame { op: OpCode::GetGuildMembers, d: Body::Obj(fields) }
}

/// The heartbeat frame: `d` is the bare last-seen sequence number, or the
/// protocol's explicit absent-value marker when none has been seen. This
/// bare body is a deliberate asymmetry against every other command.
pub open spec fn heartbeat_frame_spec(seq_num: Option<u64>) -> FrameV {
    FrameV {
        op: OpCode::Heartbeat,
        d: BodyV::Scalar(
            match seq_num {
                Option::Some(n) => ScalarV::UInt(n),
                Option::None => ScalarV::Null,
            },
        ),
    }
}

/// Builds a heartbeat frame.
pub fn heartbeat_frame(seq_num: Option<u64>) -> (r: Frame)
    ensures
        r@ == heartbeat_frame_spec(seq_num),
{
    let d = match seq_num {
        Option::Some(n) => Scalar::UInt(n),
        Option::None => Scalar::Null,
    };
    Frame { op: OpCode::Heartbeat, d: Body::Scalar(d) }
}

/// The static fingerprint block of an identify frame. Every field is a fixed
/// configuration constant; the peer fingerprints clients by this block, so it
/// is byte-identical on every call.
pub open spec fn identify_properties_spec() -> Seq<(FieldName, ScalarV)> {
    seq![
        (FieldName::Os, ScalarV::Str("Windows"@)),
        (FieldName::Browser, ScalarV::Str("Chrome"@)),
        (FieldName::Device, ScalarV::Str(Seq::empty())),
        (FieldName::SystemLocale, ScalarV::Str("en-US"@)),
        (FieldName::BrowserUserAgent, ScalarV::Str(user_agent_spec())),
        (FieldName::BrowserVersion, ScalarV::Str(browser_version_spec())),
        (FieldName::OsVersion, ScalarV::Str("10"@)),
        (FieldName::Referrer, ScalarV::Str(Seq::empty())),
        (FieldName::ReferringDomain, ScalarV::Str(Seq::empty())),
        (FieldName::ReleaseChannel, ScalarV::Str("stable"@)),
    ]
}

/// The body of an identify frame: the token, then the fixed capabilities,
/// fingerprint block, compression flag and large threshold.
pub open spec fn identify_body_spec(token: Seq<char>) -> Seq<(FieldName, FieldValueV)> {
    seq![
        (FieldName::Token, FieldValueV::Scalar(ScalarV::Str(token))),
        (FieldName::Capabilities, FieldValueV::Scalar(ScalarV::UInt(CAPABILITIES))),
        (FieldName::Properties, FieldValueV::Obj(identify_properties_spec())),
        (FieldName::Compress, FieldValueV::Scalar(ScalarV::Bool(true))),
        (FieldName::LargeThreshold, FieldValueV::Scalar(ScalarV::UInt(LARGE_THRESHOLD))),
    ]
}

/// A complete identify frame.
pub open spec fn identify_frame_spec(token: Seq<char>) -> FrameV {
    FrameV { op: OpCode::Identify, d: BodyV::Obj(identify_body_spec(token)) }
}

/// Builds the identify frame for a new session. Only the token varies
/// between calls; everything else is the fixed fingerprint block.
pub fn identify_frame(token: &str) -> (r: Frame)
    ensures
        r@ == identify_frame_spec(token@),
{
    let mut props: Vec<(FieldName, Scalar)> = Vec::new();
    props.push((FieldName::Os, Scalar::Str("Windows".to_owned())));
    props.push((FieldName::Browser, Scalar::Str("Chrome".to_owned())));
    props.push((FieldName::Device, Scalar::Str(String::new())));
    props.push((FieldName::SystemLocale, Scalar::Str("en-US".to_owned())));
    props.push((FieldName::BrowserUserAgent, Scalar::Str(user_agent().to_owned())));
    props.push((FieldName::BrowserVersion, Scalar::Str(browser_version().to_owned())));
    props.push((FieldName::OsVersion, Scalar::Str("10".to_owned())));
    props.push((FieldName::Referrer, Scalar::Str(String::new())));
    props.push((FieldName::ReferringDomain, Scalar::Str(String::new())));
    props.push((FieldName::ReleaseChannel, Scalar::Str("stable".to_owned())));
    proof {
        assert(props@.map_values(|p: (FieldName, Scalar)| (p.0, p.1@))
            =~= identify_properties_spec());
    }
    let mut fields: Vec<(FieldName, FieldValue)> = Vec::new();
    fields.push((FieldName::Token, FieldValue::Scalar(Scalar::Str(token.to_owned()))));
    fields.push((FieldName::Capabilities, FieldValue::Scalar(Scalar::UInt(CAPABILITIES))));
    fields.push((FieldName::Properties, FieldValue::Obj(props)));
    fields.push((FieldName::Compress, FieldValue::Scalar(Scalar::Bool(true))));
    fields.push((FieldName::LargeThreshold, FieldValue::Scalar(Scalar::UInt(LARGE_THRESHOLD))));
    proof {
        assert(body_fields_view(fields@) =~= identify_body_spec(token@));
    }
    Frame { op: OpCode::Identify, d: Body::Obj(fields) }
}

/// The `game` block of a presence update, when an activity is set.
pub open spec fn game_block_spec(a: ActivityV) -> FieldValueV {
    FieldValueV::Obj(
        seq![
            (FieldName::Name, ScalarV::Str(a.name)),
            (FieldName::Kind, ScalarV::UInt(kind_num(a.kind))),
            (
                FieldName::Url,
                match a.url {
                    Option::Some(u) => ScalarV::Str(u),
                    Option::None => ScalarV::Null,
                },
            ),
        ],
    )
}

/// The body of a presence update: never away, the wall-clock instant the
/// caller sampled, the rendered status, and the rendered activity when one
/// is set (the `game` field is absent otherwise).
pub open spec fn presence_body_spec(
    since: u64,
    activity: Option<ActivityV>,
    status: OnlineStatus,
) -> Seq<(FieldName, FieldValueV)> {
    let base = seq![
        (FieldName::Afk, FieldValueV::Scalar(ScalarV::Bool(false))),
        (FieldName::Since, FieldValueV::Scalar(ScalarV::UInt(since))),
        (FieldName::Status, FieldValueV::Scalar(ScalarV::Str(status_text(status)))),
    ];
    match activity {
        Option::Some(a) => base.push((FieldName::Game, game_block_spec(a))),
        Option::None => base,
    }
}

/// A complete presence-update frame.
pub open spec fn presence_frame_spec(
    since: u64,
    activity: Option<ActivityV>,
    status: OnlineStatus,
) -> FrameV {
    FrameV { op: OpCode::StatusUpdate, d: BodyV::Obj(presence_body_spec(since, activity, status)) }
}

/// Builds a presence-update frame from a presence and the wall-clock
/// reading, in nanoseconds since the Unix epoch, sampled for this call.
pub fn presence_update_frame(since: u64, current_presence: &CurrentPresence) -> (r: Frame)
    ensures
        r@ == presence_frame_spec(since, opt_activity_view(current_presence.0), current_presence.1),
{
    let mut fields: Vec<(FieldName, FieldValue)> = Vec::new();
    fields.push((FieldName::Afk, FieldValue::Scalar(Scalar::Bool(false))));
    fields.push((FieldName::Since, FieldValue::Scalar(Scalar::UInt(since))));
    fields.push((FieldName::Status, FieldValue::Scalar(Scalar::Str(
        current_presence.1.name().to_owned(),
    ))));
    match &current_presence.0 {
        Option::Some(activity) => {
            let mut game: Vec<(FieldName, Scalar)> = Vec::new();
            game.push((FieldName::Name, Scalar::Str(activity.name.clone())));
            game.push((FieldName::Kind, Scalar::UInt(activity.kind.num())));
            let url_scalar = match &activity.url {
                Option::Some(u) => Scalar::Str(u.clone()),
                Option::None => Scalar::Null,
            };
            game.push((FieldName::Url, url_scalar));
            proof {
                assert(game@.map_values(|p: (FieldName, Scalar)| (p.0, p.1@))
                    =~= match game_block_spec(activity@) {
                    FieldValueV::Obj(ps) => ps,
                    _ => Seq::empty(),
                });
            }
            fields.push((FieldName::Game, FieldValue::Obj(game)));
        },
        Option::None => {},
    }
    proof {
        assert(body_fields_view(fields@) =~= presence_body_spec(
            since,
            opt_activity_view(current_presence.0),
            current_presence.1,
        ));
    }
    Frame { op: OpCode::StatusUpdate, d: Body::Obj(fields) }
}

/// The body of a resume frame: all three of the session identifier, the
/// last-seen sequence number and the token, required whatever their values.
pub open spec fn resume_body_spec(session_id: Seq<char>, seq_num: u64, token: Seq<char>) -> Seq<
    (FieldName, FieldValueV),
> {
    seq![
        (FieldName::SessionId, FieldValueV::Scalar(ScalarV::Str(session_id))),
        (FieldName::SeqNum, FieldValueV::Scalar(ScalarV::UInt(seq_num))),
        (FieldName::Token, FieldValueV::Scalar(ScalarV::Str(token))),
    ]
}

/// A complete resume frame.
pub open spec fn resume_frame_spec(session_id: Seq<char>, seq_num: u64, token: Seq<char>) -> FrameV {
    FrameV { op: OpCode::Resume, d: BodyV::Obj(resume_body_spec(session_id, seq_num, token)) }
}

/// Builds the frame resuming an interrupted session.
pub fn resume_frame(session_id: &str, seq_num: u64, token: &str) -> (r: Frame)
    ensures
        r@ == resume_frame_spec(session_id@, seq_num, token@),
{
    let mut fields: Vec<(FieldName, FieldValue)> = Vec::new();
    fields.push((FieldName::SessionId, FieldValue::Scalar(Scalar::Str(session_id.to_owned()))));
    fields.push((FieldName::SeqNum, FieldValue::Scalar(Scalar::UInt(seq_num))));
    fields.push((FieldName::Token, FieldValue::Scalar(Scalar::Str(token.to_owned()))));
    proof {
        assert(body_fields_view(fields@) =~= resume_body_spec(session_id@, seq_num, token@));
    }
    Frame { op: OpCode::Resume, d: Body::Obj(fields) }
}

} // verus!

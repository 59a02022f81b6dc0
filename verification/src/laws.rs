//! The defaulting and shape rules each command obeys, stated over the frame
//! models and proved once for all inputs.

use vstd::prelude::*;

use crate::builder::chunk_guild_body_spec;
use crate::builder::filter_fields_spec;
use crate::builder::heartbeat_frame_spec;
use crate::builder::presence_body_spec;
use crate::builder::presence_frame_spec;
use crate::builder::resume_body_spec;
use crate::frame::fields_get;
use crate::frame::fields_get_from;
use crate::frame::fields_has;
use crate::frame::BodyV;
use crate::frame::FieldName;
use crate::frame::FieldValueV;
use crate::frame::ScalarV;
use crate::model::ActivityV;
use crate::model::FilterV;
use crate::model::GuildId;
use crate::model::OnlineStatus;

verus! {

/// A member-chunk request built without a limit carries the explicit field
/// `limit: 0` (no cap, per protocol convention), whatever the other inputs.
pub proof fn lemma_chunk_limit_defaults_to_zero(
    guild_id: GuildId,
    filter: FilterV,
    nonce: Option<Seq<char>>,
)
    ensures
        fields_get(chunk_guild_body_spec(guild_id, Option::None, filter, nonce), FieldName::Limit)
            == Option::Some(FieldValueV::Scalar(ScalarV::UInt(0))),
{
    reveal_with_fuel(fields_get_from, 3);
}

/// A member-chunk request built without a nonce carries the explicit field
/// `nonce: ""`, whatever the other inputs.
pub proof fn lemma_chunk_nonce_defaults_to_empty(
    guild_id: GuildId,
    limit: Option<u16>,
    filter: FilterV,
)
    ensures
        fields_get(chunk_guild_body_spec(guild_id, limit, filter, Option::None), FieldName::Nonce)
            == Option::Some(FieldValueV::Scalar(ScalarV::Str(Seq::empty()))),
{
    reveal_with_fuel(fields_get_from, 4);
}

/// With no filter, a member-chunk body carries `query: ""` — present but
/// empty, which the peer distinguishes from an absent field — and no
/// `user_ids` field.
pub proof fn lemma_chunk_no_filter(
    guild_id: GuildId,
    limit: Option<u16>,
    nonce: Option<Seq<char>>,
)
    ensures
        fields_get(
            chunk_guild_body_spec(guild_id, limit, FilterV::NoFilter, nonce),
            FieldName::Query,
        ) == Option::Some(FieldValueV::Scalar(ScalarV::Str(Seq::empty()))),
        !fields_has(chunk_guild_body_spec(guild_id, limit, FilterV::NoFilter, nonce),
            FieldName::UserIds,
        ),
{
    reveal_with_fuel(fields_get_from, 6);
}

/// With a query filter, a member-chunk body carries the query text verbatim
/// and no `user_ids` field.
pub proof fn lemma_chunk_query_filter(
    guild_id: GuildId,
    limit: Option<u16>,
    query: Seq<char>,
    nonce: Option<Seq<char>>,
)
    ensures
        fields_get(
            chunk_guild_body_spec(guild_id, limit, FilterV::Query(query), nonce),
            FieldName::Query,
        ) == Option::Some(FieldValueV::Scalar(ScalarV::Str(query))),
        !fields_has(chunk_guild_body_spec(guild_id, limit, FilterV::Query(query), nonce),
            FieldName::UserIds,
        ),
{
    reveal_with_fuel(fields_get_from, 6);
}

/// With a user-identifier filter, a member-chunk body carries exactly the
/// supplied identifiers, in the supplied order, and no `query` field.
pub proof fn lemma_chunk_user_ids_filter(
    guild_id: GuildId,
    limit: Option<u16>,
    ids: Seq<u64>,
    nonce: Option<Seq<char>>,
)
    ensures
        fields_get(
            chunk_guild_body_spec(guild_id, limit, FilterV::UserIds(ids), nonce),
            FieldName::UserIds,
        ) == Option::Some(FieldValueV::UIntArr(ids)),
        !fields_has(chunk_guild_body_spec(guild_id, limit, FilterV::UserIds(ids), nonce),
            FieldName::Query,
        ),
{
    reveal_with_fuel(fields_get_from, 6);
}

/// A heartbeat with no last-seen sequence number carries the protocol's
/// explicit absent-value marker as its whole body: not an omitted key, and
/// not zero.
pub proof fn lemma_heartbeat_absent_sequence()
    ensures
        heartbeat_frame_spec(Option::None).d == BodyV::Scalar(ScalarV::Null),
        heartbeat_frame_spec(Option::None).d != BodyV::Scalar(ScalarV::UInt(0)),
{
}

/// A heartbeat with a last-seen sequence number carries it bare as its whole
/// body.
pub proof fn lemma_heartbeat_sequence(seq_num: u64)
    ensures
        heartbeat_frame_spec(Option::Some(seq_num)).d == BodyV::Scalar(ScalarV::UInt(seq_num)),
{
}

/// A resume body always carries all three of the session identifier, the
/// sequence number and the token, whatever their values — an empty token
/// included; nothing is validated.
pub proof fn lemma_resume_always_complete(session_id: Seq<char>, seq_num: u64, token: Seq<char>)
    ensures
        fields_get(resume_body_spec(session_id, seq_num, token), FieldName::SessionId)
            == Option::Some(FieldValueV::Scalar(ScalarV::Str(session_id))),
        fields_get(resume_body_spec(session_id, seq_num, token), FieldName::SeqNum)
            == Option::Some(FieldValueV::Scalar(ScalarV::UInt(seq_num))),
        fields_get(resume_body_spec(session_id, seq_num, token), FieldName::Token)
            == Option::Some(FieldValueV::Scalar(ScalarV::Str(token))),
{
    reveal_with_fuel(fields_get_from, 4);
}

/// A presence body carries the wall-clock reading sampled for that call: two
/// frames built from different readings differ in their `since` field, even
/// on otherwise identical input.
pub proof fn lemma_presence_since_is_fresh(
    since1: u64,
    since2: u64,
    activity: Option<ActivityV>,
    status: OnlineStatus,
)
    requires
        since1 != since2,
    ensures
        fields_get(presence_body_spec(since1, activity, status), FieldName::Since)
            == Option::Some(FieldValueV::Scalar(ScalarV::UInt(since1))),
        presence_frame_spec(since1, activity, status) != presence_frame_spec(
            since2,
            activity,
            status,
        ),
{
    reveal_with_fuel(fields_get_from, 3);
    let b1 = presence_body_spec(since1, activity, status);
    let b2 = presence_body_spec(since2, activity, status);
    assert(b1[1] != b2[1]);
}

/// The filter resolution is exclusive: no filter value ever yields both a
/// `query` field and a `user_ids` field.
pub proof fn lemma_filter_fields_exclusive(filter: FilterV)
    ensures
        !(fields_has(filter_fields_spec(filter), FieldName::Query) && fields_has(
            filter_fields_spec(filter),
            FieldName::UserIds,
        )),
{
    reveal_with_fuel(fields_get_from, 3);
}

} // verus!

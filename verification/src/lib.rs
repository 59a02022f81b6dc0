//! Client-side command encoder for a sharded, bidirectional gateway
//! connection: builds the five outbound command frames (identify, resume,
//! heartbeat, presence update, member-chunk request) exactly as the peer
//! protocol expects them, and hands them to a transport.

pub mod builder;
pub mod client;
pub mod constants;
pub mod decimal;
pub mod frame;
pub mod laws;
pub mod model;

pub use builder::chunk_guild_frame;
pub use builder::heartbeat_frame;
pub use builder::identify_frame;
pub use builder::presence_update_frame;
pub use builder::resolve_filter;
pub use builder::resume_frame;
pub use client::FrameLog;
pub use client::WebSocketGatewayClientExt;
pub use constants::OpCode;
pub use constants::CAPABILITIES;
pub use constants::LARGE_THRESHOLD;
pub use decimal::u64_to_dec_string;
pub use frame::Body;
pub use frame::FieldName;
pub use frame::FieldValue;
pub use frame::Frame;
pub use frame::Scalar;
pub use model::Activity;
pub use model::ActivityKind;
pub use model::ChunkGuildFilter;
pub use model::CurrentPresence;
pub use model::GatewayIntents;
pub use model::GuildId;
pub use model::OnlineStatus;
pub use model::TransportError;
pub use model::UserId;

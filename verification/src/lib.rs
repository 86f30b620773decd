//! Typed requests and replies for the Redis stream commands.
//!
//! Two halves, independent of each other:
//!
//! * [`args`] turns option values into the ordered argument tokens that the
//!   stream commands take;
//! * [`types`], [`pending`] and [`info`] turn the loosely typed replies of
//!   those commands into fixed structures.
//!
//! [`commands`] puts a command's name and its arguments together. [`fields`]
//! holds the map type for the fields of an entry, [`decimal`] numbers as
//! text, [`error`] the errors. [`wire`] is the boundary to the `redis` crate:
//! what is stated there is taken on trust, everything else is proved from it.
pub mod args;
pub mod commands;
pub mod decimal;
pub mod error;
pub mod fields;
pub mod info;
pub mod pending;
pub mod types;
pub mod wire;

pub use crate::args::{StreamClaimOptions, StreamMaxlen, StreamReadOptions};
pub use crate::error::StreamError;
pub use crate::fields::FieldMap;
pub use crate::info::{
    StreamInfoConsumer, StreamInfoConsumersReply, StreamInfoGroup, StreamInfoGroupsReply,
    StreamInfoStreamReply,
};
pub use crate::pending::{
    StreamPendingCountReply, StreamPendingData, StreamPendingId, StreamPendingReply,
};
pub use crate::types::{StreamClaimReply, StreamId, StreamKey, StreamRangeReply, StreamReadReply};

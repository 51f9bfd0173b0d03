//! An in-chat link expander: scans each inbound chat message for a link to
//! another message on the same platform, resolves the referenced message and
//! its author — snapshot store first, remote fetch as the fallback — and
//! builds the summary posted back into the originating channel.
//!
//! The crate holds the decision logic only: the link matcher, the resolution
//! pipeline as a state machine whose caller performs the lookups and the
//! post, the summary builder, and the id-to-creation-time decoding. Every
//! function carries a contract; the laws the pipeline obeys stand as proof
//! functions beside it.

pub mod digits;
pub mod matcher;
pub mod pipeline;
pub mod snowflake;
pub mod summary;

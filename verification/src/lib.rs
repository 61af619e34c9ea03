//! Generation of 64-bit, roughly time-ordered unique identifiers.
//!
//! Each identifier packs four fields into one signed 64-bit integer:
//! a 41-bit millisecond timestamp (relative to a caller-chosen epoch
//! offset), a 5-bit datacenter id, a 5-bit worker id, and a 12-bit
//! per-millisecond sequence counter.  Identifiers issued by one
//! generator instance are strictly increasing in call order.
//!
//! A generator instance is not safe for concurrent use from several
//! threads of control: callers must either serialize calls to
//! [`worker::IdWorker::next_id`] with an external lock or give each
//! thread its own instance with a distinct worker id.

pub mod layout;
pub mod worker;
mod clock;

pub use worker::IdWorker;
pub use worker::SnowflakeError;

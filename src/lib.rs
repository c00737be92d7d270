//! The verified core of a clock display kept in step with reference time
//! servers.
//!
//! - `time`: instants and intervals, as integer counts from the POSIX epoch.
//! - `ticker`: the tick scheduler, which aligns display updates to a fixed grid
//!   of periods and corrects them by the latest clock offset.
//! - `sync`: the decisions of the offset-acquisition loop (when to query a
//!   reference host, how often to retry, when to publish) and the weak random
//!   source that spreads queries over the configured hosts.

pub mod sync;
pub mod ticker;
pub mod time;

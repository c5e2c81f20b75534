//! The database: its statements, what its rows hold, and which backend serves it.

use vstd::prelude::*;

pub mod chat_cleanup;
pub mod chat_history;
pub mod codec;
pub mod connect;
pub mod feature_flags;
pub mod feedback;
pub mod feedback_laws;
pub mod migration;
pub mod models;
pub mod recap_logs;
pub mod recap_options;
pub mod row_laws;
pub mod sent_messages;
pub mod settings_laws;
pub mod statement;
pub mod subscribers;
pub mod usage_metrics;

pub use self::connect::Database;

verus! {

/// The backends that can serve.
#[derive(Debug, Clone, Copy, PartialEq, Eq, Structural)]
pub enum DbBackend {
    Postgres,
    Sqlite,
}

} // verus!

//! A transparent observability layer for asynchronous database connections.
//!
//! The wrapper owns an inner connection and forwards every operation to it,
//! timing the two operations that execute a structured query and classifying
//! each elapsed duration into a leveled log record. Query semantics, results
//! and transaction behaviour are never altered: every outcome is handed back
//! to the caller unchanged.

pub mod connection;
pub mod record;
pub mod render;
pub mod timing;

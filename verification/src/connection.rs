//! The connection wrapper and its stateless transaction-manager delegate.
//!
//! The wrapper owns exactly one inner connection and never holds connection
//! state of its own: constructing it stores the inner connection unchanged,
//! and extracting it hands the very same connection back, so wrapping and
//! unwrapping is a round trip. The transaction-manager delegate carries no
//! runtime state at all; it only ties the managed connection type to the
//! wrapper, and every transaction operation routes through the inner
//! connection's own manager.

use core::marker::PhantomData;
use vstd::prelude::*;

verus! {

/// A stateless delegate standing in for the inner connection's transaction
/// manager: it stores no transaction status of its own, so the inner manager
/// remains the single source of truth for the transaction state machine.
pub struct LoggingTransactionManager<C> {
    marker: PhantomData<C>,
}

impl<C> LoggingTransactionManager<C> {
    /// Create the delegate. It holds no data.
    pub fn new() -> (m: Self) {
        LoggingTransactionManager { marker: PhantomData }
    }
}

/// A connection wrapper that owns one inner connection and forwards every
/// operation to it, timing and logging the query-executing ones.
pub struct LoggingConnection<C> {
    connection: C,
    transaction_manager: LoggingTransactionManager<C>,
}

impl<C> LoggingConnection<C> {
    /// The inner connection held by the wrapper.
    pub closed spec fn inner_spec(self) -> C {
        self.connection
    }

    /// Wrap a connection. The wrapper stores it unchanged and adds nothing
    /// but the stateless transaction-manager delegate.
    pub fn new(connection: C) -> (w: Self)
        ensures
            w.inner_spec() == connection,
    {
        LoggingConnection { connection, transaction_manager: LoggingTransactionManager::new() }
    }

    /// Borrow the inner connection.
    pub fn inner_ref(&self) -> (c: &C)
        ensures
            *c == self.inner_spec(),
    {
        &self.connection
    }

    /// Borrow the inner connection mutably, to delegate an operation to it.
    pub fn inner_mut(&mut self) -> (c: &mut C)
        ensures
            *c == old(self).inner_spec(),
            final(self).inner_spec() == *final(c),
    {
        &mut self.connection
    }

    /// Unwrap: hand the inner connection back, exactly as it was stored, so
    /// its observable behaviour is as if it had never been wrapped.
    pub fn into_inner(self) -> (c: C)
        ensures
            c == self.inner_spec(),
    {
        self.connection
    }

    /// Borrow the owned transaction-manager delegate. The inner connection
    /// is untouched.
    pub fn transaction_state(&mut self) -> (m: &mut LoggingTransactionManager<C>)
        ensures
            final(self).inner_spec() == old(self).inner_spec(),
    {
        &mut self.transaction_manager
    }
}

} // verus!

//! An in-process message-routing core separating commands, queries and
//! events.
//!
//! Callers describe their messages through the [`Command`](command::Command),
//! [`Query`](query::Query) and [`Event`](event::Event) traits, register a
//! handler for each message type in a registry, and freeze the registry into
//! a bus. A bus resolves a message's type key, erases the message into the
//! application's opaque value universe, drives the stored handler (or, for
//! events, every stored handler in registration order) and recovers the
//! typed result.
//!
//! The storage layer is homogeneous: each registry maps a type key to one
//! wrapper object — or, for events, to an ordered list of wrapper objects —
//! of a single, application-chosen wrapper type. A wrapper already knows the
//! concrete message type it was built for, so no unchecked cast is ever
//! needed: the contracts on the wrapper traits prove that a message routed
//! under its own type key is always recovered as the exact value that was
//! erased.

use std::sync::Arc;
use vstd::prelude::*;

pub mod command;
pub mod event;
pub mod query;
pub mod registry;

verus! {

/// Relies on `Arc::clone`: a cloned handle refers to the same shared value.
#[verifier::external_body]
pub(crate) fn share_arc<T>(a: &Arc<T>) -> (r: Arc<T>)
    ensures
        r == *a,
{
    Arc::clone(a)
}

} // verus!

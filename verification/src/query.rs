//! Queries: messages that ask the system for data without changing state.
//!
//! A [`Query`] is structurally the same contract as a command — one
//! response type, one error type, one handler per concrete type — but
//! denotes a side-effect-free read. The [`QueryBus`] dispatches each query
//! to the one handler registered for its type.

use std::sync::Arc;
use vstd::prelude::*;

use crate::registry::{
    lemma_erased_query_handler_exact, lemma_erased_query_handler_routes, ErasedQueryHandler,
    QueryHandlerRegistry, QueryHandlerWrapper,
};
use crate::share_arc;

verus! {

/// A message requesting a side-effect-free read.
///
/// Exactly one handler may be registered per concrete query type at any
/// time. Like a command, a query type supplies its routing identity: a
/// stable type key, and the embedding of queries and query results into the
/// application's opaque value universe [`Query::Erased`].
pub trait Query: Sized + Send + Sync {
    /// The response returned when the query succeeds.
    type Response;

    /// The error returned when the query fails.
    type Error;

    /// The opaque value universe this query type is erased into.
    type Erased;

    /// The stable identity of this query type: the key under which its
    /// handler is registered and looked up. Distinct message types of one
    /// application must use distinct keys.
    spec fn key_spec() -> u64;

    /// The erased form of a query.
    spec fn erase_spec(self) -> Self::Erased;

    /// Which queries, if any, an erased value recovers to.
    spec fn recover_spec(m: Self::Erased) -> Option<Self>;

    /// The erased form of a query result.
    spec fn erase_result_spec(r: Result<Self::Response, Self::Error>) -> Self::Erased;

    /// Which query results, if any, an erased value recovers to.
    spec fn recover_result_spec(m: Self::Erased) -> Option<Result<Self::Response, Self::Error>>;

    /// Returns this query type's key.
    fn type_key() -> (k: u64)
        ensures
            k == Self::key_spec(),
    ;

    /// Erases a query into the opaque value universe.
    fn erase(self) -> (m: Self::Erased)
        ensures
            m == self.erase_spec(),
    ;

    /// Recovers a query from an erased value, or `None` when the value does
    /// not hold a query of this type.
    fn recover(m: Self::Erased) -> (q: Option<Self>)
        ensures
            q == Self::recover_spec(m),
    ;

    /// Erases a query result into the opaque value universe.
    fn erase_result(r: Result<Self::Response, Self::Error>) -> (m: Self::Erased)
        ensures
            m == Self::erase_result_spec(r),
    ;

    /// Recovers a query result from an erased value, or `None` when the
    /// value does not hold a result of this query type.
    fn recover_result(m: Self::Erased) -> (r: Option<Result<Self::Response, Self::Error>>)
        ensures
            r == Self::recover_result_spec(m),
    ;

    /// Law: erasing a query and recovering it yields the query back.
    proof fn lemma_recover_erase(q: Self)
        ensures
            Self::recover_spec(q.erase_spec()) == Some(q),
    ;

    /// Law: erasing a query result and recovering it yields the result
    /// back.
    proof fn lemma_recover_erase_result(r: Result<Self::Response, Self::Error>)
        ensures
            Self::recover_result_spec(Self::erase_result_spec(r)) == Some(r),
    ;
}

/// A handler that processes one query type.
///
/// `post` is the relation every result returned by `handle` satisfies; it
/// is the handler's own contract, chosen by the implementor.
pub trait QueryHandler<Q: Query>: Sized + Send + Sync {
    /// The relation between a query and the results `handle` may return for
    /// it.
    spec fn post(&self, query: Q, result: Result<Q::Response, Q::Error>) -> bool;

    /// Processes the query and returns its result.
    fn handle(&self, query: Q) -> (r: Result<Q::Response, Q::Error>)
        ensures
            self.post(query, r),
    ;
}

/// Drives the erased handler `wrapper` on a typed query: the un-erasure
/// direction of the wrapper layer. The query is erased, the wrapper runs
/// its handler to completion, and the erased outcome is recovered as the
/// typed result. An erased outcome that recovers to no typed result would
/// mean the wrapper was built for another type — a routing fault this
/// contract excludes.
pub fn handle_query<Q, W>(wrapper: &W, query: Q) -> (r: Result<Q::Response, Q::Error>) where
    Q: Query<Erased = W::Message>,
    W: QueryHandlerWrapper,

    requires
        wrapper.accepts(query.erase_spec()),
        forall|o: W::Message|
            #[trigger] wrapper.post(query.erase_spec(), o) ==> Q::recover_result_spec(o) is Some,
    ensures
        exists|o: W::Message|
            {
                &&& #[trigger] wrapper.post(query.erase_spec(), o)
                &&& Q::recover_result_spec(o) == Some(r)
            },
{
    let m = query.erase();
    let o = wrapper.execute(m);
    Q::recover_result(o).unwrap()
}

/// The shareable dispatch facade over a frozen query handler registry.
///
/// Building a bus consumes the registry, so its content can never change
/// afterwards; cloning a bus only creates another handle to the same
/// frozen registry.
#[derive(Debug)]
pub struct QueryBus<W> {
    registry: Arc<QueryHandlerRegistry<W>>,
}

impl<W: QueryHandlerWrapper> QueryBus<W> {
    /// The frozen mapping from query type keys to handlers.
    pub closed spec fn handlers(self) -> Map<u64, W> {
        self.registry@
    }

    /// True when the handler standing under `Q`'s key routes `Q`: it
    /// accepts every erased query of that type, and every erased result it
    /// may return recovers to a typed result. Dispatching a query whose
    /// type no registered handler routes is a fatal configuration error,
    /// not a recoverable one.
    pub open spec fn handles<Q>(self) -> bool where Q: Query<Erased = W::Message> {
        &&& self.handlers().contains_key(Q::key_spec())
        &&& forall|q: Q| #[trigger] self.handlers()[Q::key_spec()].accepts(q.erase_spec())
        &&& forall|q: Q, o: W::Message|
            #[trigger] self.handlers()[Q::key_spec()].post(q.erase_spec(), o)
                ==> Q::recover_result_spec(o) is Some
    }

    /// Freezes `registry` into a shareable bus.
    pub fn new(registry: QueryHandlerRegistry<W>) -> (bus: Self)
        ensures
            bus.handlers() == registry@,
    {
        QueryBus { registry: Arc::new(registry) }
    }

    /// Dispatches `query` to the handler registered for its type and
    /// returns that handler's result, untouched: the result recovers from
    /// an erased outcome that the registered handler's own contract allows
    /// for this very query. Dispatching a query type with no registered
    /// handler aborts the call; `handles` excludes that misconfiguration.
    pub fn dispatch<Q>(&self, query: Q) -> (r: Result<Q::Response, Q::Error>) where
        Q: Query<Erased = W::Message>

        requires
            self.handles::<Q>(),
        ensures
            exists|o: W::Message|
                {
                    &&& #[trigger] self.handlers()[Q::key_spec()].post(query.erase_spec(), o)
                    &&& Q::recover_result_spec(o) == Some(r)
                },
    {
        let handler = self.registry.get_handler::<Q>().unwrap();
        handle_query(handler, query)
    }
}

/// Law: a bus whose registry stores erased query handlers routes every
/// query type a handler stands registered for — registering a handler for
/// `Q` is all it takes to dispatch queries of type `Q`.
pub proof fn lemma_registered_bus_handles<Q: Query, H: QueryHandler<Q>>(
    bus: QueryBus<ErasedQueryHandler<Q, H>>,
)
    requires
        bus.handlers().contains_key(Q::key_spec()),
    ensures
        bus.handles::<Q>(),
{
    lemma_erased_query_handler_routes::<Q, H>(bus.handlers()[Q::key_spec()]);
}

/// Law: registering a handler for `Q` and dispatching a query of type `Q`
/// returns that handler's result unchanged — any result `dispatch`'s
/// contract admits for the query satisfies the registered handler's own
/// contract on it.
pub proof fn lemma_dispatch_returns_handler_result<Q: Query, H: QueryHandler<Q>>(
    bus: QueryBus<ErasedQueryHandler<Q, H>>,
    query: Q,
    r: Result<Q::Response, Q::Error>,
)
    requires
        bus.handlers().contains_key(Q::key_spec()),
        exists|o: Q::Erased|
            {
                &&& #[trigger] bus.handlers()[Q::key_spec()].post(query.erase_spec(), o)
                &&& Q::recover_result_spec(o) == Some(r)
            },
    ensures
        bus.handlers()[Q::key_spec()].handler().post(query, r),
{
    let o = choose|o: Q::Erased|
        {
            &&& #[trigger] bus.handlers()[Q::key_spec()].post(query.erase_spec(), o)
            &&& Q::recover_result_spec(o) == Some(r)
        };
    lemma_erased_query_handler_exact(bus.handlers()[Q::key_spec()], query, o, r);
}

impl<W: QueryHandlerWrapper> Clone for QueryBus<W> {
    /// Returns another handle to the same frozen registry.
    fn clone(&self) -> (bus: Self)
        ensures
            bus == *self,
    {
        QueryBus { registry: share_arc(&self.registry) }
    }
}

} // verus!

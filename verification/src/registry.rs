//! Storage and lookup for command, query and event handlers.
//!
//! The registries own handler objects behind the uniform wrapper traits
//! [`CommandHandlerWrapper`], [`QueryHandlerWrapper`] and
//! [`EventHandlerWrapper`], keyed by message type key. An application
//! chooses one wrapper type per registry — typically a small enum whose
//! variants hold the [`ErasedCommandHandler`], [`ErasedQueryHandler`] and
//! [`ErasedEventHandler`] adapters for its concrete handler types — and the
//! registries and buses move only values of that type.
//!
//! Command and query registries hold at most one handler per type key, and
//! the most recent registration wins. The event registry holds an ordered
//! list per type key that only ever grows, in registration order.

use std::collections::HashMap;
use vstd::prelude::*;

use crate::command::{Command, CommandHandler};
use crate::event::{Event, EventHandler};
use crate::query::{Query, QueryHandler};

verus! {

broadcast use vstd::std_specs::hash::group_hash_axioms;

/// The uniform, type-erased interface command handlers are stored behind.
///
/// A wrapper accepts an erased command, drives its handler, and returns the
/// erased result. It already knows the concrete command type it was built
/// for: `accepts` names the erased values it can take back to that type,
/// and `execute` demands one of them, so a wrapper can never be made to
/// coerce a value of the wrong type.
pub trait CommandHandlerWrapper: Sized + Send + Sync {
    /// The opaque value universe the wrapper moves.
    type Message;

    /// The type key of the command type this wrapper handles.
    spec fn key(&self) -> u64;

    /// The erased values this wrapper can recover to its command type.
    spec fn accepts(&self, m: Self::Message) -> bool;

    /// The relation between an accepted erased command and the erased
    /// results `execute` may return for it.
    spec fn post(&self, m: Self::Message, o: Self::Message) -> bool;

    /// Recovers the command, drives the wrapped handler to completion and
    /// returns the erased result.
    fn execute(&self, m: Self::Message) -> (o: Self::Message)
        requires
            self.accepts(m),
        ensures
            self.post(m, o),
    ;
}

/// The uniform, type-erased interface query handlers are stored behind.
pub trait QueryHandlerWrapper: Sized + Send + Sync {
    /// The opaque value universe the wrapper moves.
    type Message;

    /// The type key of the query type this wrapper handles.
    spec fn key(&self) -> u64;

    /// The erased values this wrapper can recover to its query type.
    spec fn accepts(&self, m: Self::Message) -> bool;

    /// The relation between an accepted erased query and the erased results
    /// `execute` may return for it.
    spec fn post(&self, m: Self::Message, o: Self::Message) -> bool;

    /// Recovers the query, drives the wrapped handler to completion and
    /// returns the erased result.
    fn execute(&self, m: Self::Message) -> (o: Self::Message)
        requires
            self.accepts(m),
        ensures
            self.post(m, o),
    ;
}

/// The uniform, type-erased interface event handlers are stored behind.
///
/// Events carry no response, so `execute` returns the handler's
/// `Result<(), Error>` directly; the error type is uniform across every
/// wrapper stored in one registry.
pub trait EventHandlerWrapper: Sized + Send + Sync {
    /// The opaque value universe the wrapper moves.
    type Message;

    /// The uniform error type of the event handlers.
    type Error;

    /// The type key of the event type this wrapper handles.
    spec fn key(&self) -> u64;

    /// The erased values this wrapper can recover to its event type.
    spec fn accepts(&self, m: Self::Message) -> bool;

    /// The relation between an accepted erased event and the results
    /// `execute` may return for it.
    spec fn post(&self, m: Self::Message, r: Result<(), Self::Error>) -> bool;

    /// Recovers the event, drives the wrapped handler to completion and
    /// returns its result.
    fn execute(&self, m: Self::Message) -> (r: Result<(), Self::Error>)
        requires
            self.accepts(m),
        ensures
            self.post(m, r),
    ;
}

/// A concrete command handler behind the erased wrapper interface.
///
/// This is the erasure step: it hides the handler's concrete types behind
/// [`CommandHandlerWrapper`], and its contract proves the un-erasure exact —
/// every erased result it returns recovers to a result the wrapped
/// handler's own contract allows for the command that was erased.
#[derive(Debug)]
pub struct ErasedCommandHandler<C: Command, H: CommandHandler<C>> {
    handler: H,
    command: core::marker::PhantomData<C>,
}

impl<C: Command, H: CommandHandler<C>> ErasedCommandHandler<C, H> {
    /// Wraps `handler` for storage in a registry.
    pub fn new(handler: H) -> (w: Self)
        ensures
            w.handler() == handler,
    {
        ErasedCommandHandler { handler, command: core::marker::PhantomData }
    }

    /// The wrapped handler.
    pub closed spec fn handler(self) -> H {
        self.handler
    }
}

impl<C: Command, H: CommandHandler<C>> CommandHandlerWrapper for ErasedCommandHandler<C, H> {
    type Message = C::Erased;

    open spec fn key(&self) -> u64 {
        C::key_spec()
    }

    open spec fn accepts(&self, m: C::Erased) -> bool {
        C::recover_spec(m) is Some
    }

    open spec fn post(&self, m: C::Erased, o: C::Erased) -> bool {
        exists|c: C, r: Result<C::Response, C::Error>|
            {
                &&& C::recover_spec(m) == Some(c)
                &&& #[trigger] self.handler().post(c, r)
                &&& o == C::erase_result_spec(r)
            }
    }

    fn execute(&self, m: C::Erased) -> (o: C::Erased) {
        let c = C::recover(m).unwrap();
        let r = self.handler.handle(c);
        let o = C::erase_result(r);
        proof {
            assert(C::recover_spec(m) == Some(c) && self.handler().post(c, r) && o
                == C::erase_result_spec(r));
        }
        o
    }
}

/// A concrete query handler behind the erased wrapper interface.
#[derive(Debug)]
pub struct ErasedQueryHandler<Q: Query, H: QueryHandler<Q>> {
    handler: H,
    query: core::marker::PhantomData<Q>,
}

impl<Q: Query, H: QueryHandler<Q>> ErasedQueryHandler<Q, H> {
    /// Wraps `handler` for storage in a registry.
    pub fn new(handler: H) -> (w: Self)
        ensures
            w.handler() == handler,
    {
        ErasedQueryHandler { handler, query: core::marker::PhantomData }
    }

    /// The wrapped handler.
    pub closed spec fn handler(self) -> H {
        self.handler
    }
}

impl<Q: Query, H: QueryHandler<Q>> QueryHandlerWrapper for ErasedQueryHandler<Q, H> {
    type Message = Q::Erased;

    open spec fn key(&self) -> u64 {
        Q::key_spec()
    }

    open spec fn accepts(&self, m: Q::Erased) -> bool {
        Q::recover_spec(m) is Some
    }

    open spec fn post(&self, m: Q::Erased, o: Q::Erased) -> bool {
        exists|q: Q, r: Result<Q::Response, Q::Error>|
            {
                &&& Q::recover_spec(m) == Some(q)
                &&& #[trigger] self.handler().post(q, r)
                &&& o == Q::erase_result_spec(r)
            }
    }

    fn execute(&self, m: Q::Erased) -> (o: Q::Erased) {
        let q = Q::recover(m).unwrap();
        let r = self.handler.handle(q);
        let o = Q::erase_result(r);
        proof {
            assert(Q::recover_spec(m) == Some(q) && self.handler().post(q, r) && o
                == Q::erase_result_spec(r));
        }
        o
    }
}

/// A concrete event handler behind the erased wrapper interface.
#[derive(Debug)]
pub struct ErasedEventHandler<E: Event, H: EventHandler<E>> {
    handler: H,
    event: core::marker::PhantomData<E>,
}

impl<E: Event, H: EventHandler<E>> ErasedEventHandler<E, H> {
    /// Wraps `handler` for storage in a registry.
    pub fn new(handler: H) -> (w: Self)
        ensures
            w.handler() == handler,
    {
        ErasedEventHandler { handler, event: core::marker::PhantomData }
    }

    /// The wrapped handler.
    pub closed spec fn handler(self) -> H {
        self.handler
    }
}

impl<E: Event, H: EventHandler<E>> EventHandlerWrapper for ErasedEventHandler<E, H> {
    type Message = E::Erased;

    type Error = H::Error;

    open spec fn key(&self) -> u64 {
        E::key_spec()
    }

    open spec fn accepts(&self, m: E::Erased) -> bool {
        E::recover_spec(m) is Some
    }

    open spec fn post(&self, m: E::Erased, r: Result<(), H::Error>) -> bool {
        exists|e: E|
            {
                &&& E::recover_spec(m) == Some(e)
                &&& #[trigger] self.handler().post(e, r)
            }
    }

    fn execute(&self, m: E::Erased) -> (r: Result<(), H::Error>) {
        let e = E::recover(m).unwrap();
        let r = self.handler.handle(e);
        proof {
            assert(E::recover_spec(m) == Some(e) && self.handler().post(e, r));
        }
        r
    }
}

/// The mapping from command type keys to their handlers.
///
/// At most one handler stands under each key; registering a second handler
/// for the same command type silently replaces the first. A registry is
/// mutable only while the application sets it up; freezing it into a
/// [`CommandBus`](crate::command::CommandBus) consumes it.
#[derive(Debug)]
pub struct CommandHandlerRegistry<W> {
    pub(crate) handlers: HashMap<u64, W>,
}

impl<W> View for CommandHandlerRegistry<W> {
    type V = Map<u64, W>;

    closed spec fn view(&self) -> Map<u64, W> {
        self.handlers@
    }
}

impl<W: CommandHandlerWrapper> CommandHandlerRegistry<W> {
    /// Creates an empty registry.
    pub fn new() -> (r: Self)
        ensures
            r@ == Map::<u64, W>::empty(),
    {
        CommandHandlerRegistry { handlers: HashMap::new() }
    }

    /// Stores `wrapper` under the key of the command type it handles,
    /// replacing any handler previously registered for that type.
    pub fn register<C>(&mut self, wrapper: W) where C: Command<Erased = W::Message>
        requires
            wrapper.key() == C::key_spec(),
        ensures
            final(self)@ == old(self)@.insert(C::key_spec(), wrapper),
    {
        let key = C::type_key();
        self.handlers.insert(key, wrapper);
    }

    /// Returns the handler registered for `C`, or `None` when no handler is
    /// registered for that command type.
    pub fn get_handler<C>(&self) -> (h: Option<&W>) where C: Command<Erased = W::Message>
        ensures
            match h {
                Some(w) => self@.contains_key(C::key_spec()) && *w == self@[C::key_spec()],
                None => !self@.contains_key(C::key_spec()),
            },
    {
        let key = C::type_key();
        self.handlers.get(&key)
    }
}

/// The mapping from query type keys to their handlers.
///
/// At most one handler stands under each key; registering a second handler
/// for the same query type silently replaces the first.
#[derive(Debug)]
pub struct QueryHandlerRegistry<W> {
    pub(crate) handlers: HashMap<u64, W>,
}

impl<W> View for QueryHandlerRegistry<W> {
    type V = Map<u64, W>;

    closed spec fn view(&self) -> Map<u64, W> {
        self.handlers@
    }
}

impl<W: QueryHandlerWrapper> QueryHandlerRegistry<W> {
    /// Creates an empty registry.
    pub fn new() -> (r: Self)
        ensures
            r@ == Map::<u64, W>::empty(),
    {
        QueryHandlerRegistry { handlers: HashMap::new() }
    }

    /// Stores `wrapper` under the key of the query type it handles,
    /// replacing any handler previously registered for that type.
    pub fn register<Q>(&mut self, wrapper: W) where Q: Query<Erased = W::Message>
        requires
            wrapper.key() == Q::key_spec(),
        ensures
            final(self)@ == old(self)@.insert(Q::key_spec(), wrapper),
    {
        let key = Q::type_key();
        self.handlers.insert(key, wrapper);
    }

    /// Returns the handler registered for `Q`, or `None` when no handler is
    /// registered for that query type.
    pub fn get_handler<Q>(&self) -> (h: Option<&W>) where Q: Query<Erased = W::Message>
        ensures
            match h {
                Some(w) => self@.contains_key(Q::key_spec()) && *w == self@[Q::key_spec()],
                None => !self@.contains_key(Q::key_spec()),
            },
    {
        let key = Q::type_key();
        self.handlers.get(&key)
    }
}

/// The mapping from event type keys to their ordered handler lists.
///
/// Unlike the command and query registries, any number of handlers may
/// stand under one key: registration appends, never replaces, and the list
/// keeps registration order. Having no handlers under a key is a normal
/// state, indistinguishable from an empty list.
#[derive(Debug)]
pub struct EventHandlerRegistry<W> {
    pub(crate) handlers: HashMap<u64, Vec<W>>,
}

impl<W: EventHandlerWrapper> EventHandlerRegistry<W> {
    /// The ordered list of handlers registered for key `k`; empty when none
    /// are.
    pub closed spec fn handlers_for(self, k: u64) -> Seq<W> {
        if self.handlers@.contains_key(k) {
            self.handlers@[k]@
        } else {
            Seq::<W>::empty()
        }
    }

    /// Creates an empty registry.
    pub fn new() -> (r: Self)
        ensures
            forall|k: u64| #[trigger] r.handlers_for(k) == Seq::<W>::empty(),
    {
        EventHandlerRegistry { handlers: HashMap::new() }
    }

    /// Appends `wrapper` to the ordered list for the event type it handles,
    /// creating the list if absent. Lists for other event types are
    /// untouched.
    pub fn register<E>(&mut self, wrapper: W) where E: Event<Erased = W::Message>
        requires
            wrapper.key() == E::key_spec(),
        ensures
            final(self).handlers_for(E::key_spec()) == old(self).handlers_for(
                E::key_spec(),
            ).push(wrapper),
            forall|k: u64|
                k != E::key_spec() ==> #[trigger] final(self).handlers_for(k) == old(
                    self,
                ).handlers_for(k),
    {
        let key = E::type_key();
        let mut list = match self.handlers.remove(&key) {
            Some(list) => list,
            None => Vec::new(),
        };
        list.push(wrapper);
        self.handlers.insert(key, list);
    }

    /// Returns the ordered list of handlers registered for `E`; `None`
    /// stands for the empty list, the normal state of an event type
    /// nobody listens to.
    pub fn get_handlers<E>(&self) -> (hs: Option<&Vec<W>>) where E: Event<Erased = W::Message>
        ensures
            match hs {
                Some(list) => list@ == self.handlers_for(E::key_spec()),
                None => self.handlers_for(E::key_spec()) == Seq::<W>::empty(),
            },
    {
        let key = E::type_key();
        self.handlers.get(&key)
    }
}

impl<W: CommandHandlerWrapper> Default for CommandHandlerRegistry<W> {
    /// An empty registry.
    fn default() -> (r: Self)
        ensures
            r@ == Map::<u64, W>::empty(),
    {
        CommandHandlerRegistry::new()
    }
}

impl<W: QueryHandlerWrapper> Default for QueryHandlerRegistry<W> {
    /// An empty registry.
    fn default() -> (r: Self)
        ensures
            r@ == Map::<u64, W>::empty(),
    {
        QueryHandlerRegistry::new()
    }
}

impl<W: EventHandlerWrapper> Default for EventHandlerRegistry<W> {
    /// An empty registry.
    fn default() -> (r: Self)
        ensures
            forall|k: u64| #[trigger] r.handlers_for(k) == Seq::<W>::empty(),
    {
        EventHandlerRegistry::new()
    }
}

/// Law: registering a second handler under a key fully replaces the first
/// — a registry that saw both registrations is the very registry that saw
/// only the later one.
pub proof fn lemma_reregistration_replaces<W>(m: Map<u64, W>, k: u64, w1: W, w2: W)
    ensures
        m.insert(k, w1).insert(k, w2) == m.insert(k, w2),
{
    assert(m.insert(k, w1).insert(k, w2) =~= m.insert(k, w2));
}

/// Law: an erased command handler routes its whole command type — it
/// accepts every erased command of that type, and every erased outcome its
/// contract allows recovers to a typed result. Together with the map facts
/// a registration leaves behind, this establishes
/// [`CommandBus::handles`](crate::command::CommandBus::handles).
pub proof fn lemma_erased_command_handler_routes<C: Command, H: CommandHandler<C>>(
    w: ErasedCommandHandler<C, H>,
)
    ensures
        w.key() == C::key_spec(),
        forall|c: C| #[trigger] w.accepts(c.erase_spec()),
        forall|c: C, o: C::Erased|
            #[trigger] w.post(c.erase_spec(), o) ==> C::recover_result_spec(o) is Some,
{
    assert forall|c: C| #[trigger] w.accepts(c.erase_spec()) by {
        C::lemma_recover_erase(c);
    }
    assert forall|c: C, o: C::Erased|
        #[trigger] w.post(c.erase_spec(), o) implies C::recover_result_spec(o) is Some by {
        let (c2, r2) = choose|c2: C, r2: Result<C::Response, C::Error>|
            {
                &&& C::recover_spec(c.erase_spec()) == Some(c2)
                &&& #[trigger] w.handler().post(c2, r2)
                &&& o == C::erase_result_spec(r2)
            };
        C::lemma_recover_erase_result(r2);
    }
}

/// Law: a dispatched command's result is the registered handler's result,
/// unchanged — whenever an erased outcome of the wrapper recovers to a
/// typed result, that result satisfies the wrapped handler's own contract
/// for the very command that was erased.
pub proof fn lemma_erased_command_handler_exact<C: Command, H: CommandHandler<C>>(
    w: ErasedCommandHandler<C, H>,
    c: C,
    o: C::Erased,
    r: Result<C::Response, C::Error>,
)
    requires
        w.post(c.erase_spec(), o),
        C::recover_result_spec(o) == Some(r),
    ensures
        w.handler().post(c, r),
{
    C::lemma_recover_erase(c);
    let (c2, r2) = choose|c2: C, r2: Result<C::Response, C::Error>|
        {
            &&& C::recover_spec(c.erase_spec()) == Some(c2)
            &&& #[trigger] w.handler().post(c2, r2)
            &&& o == C::erase_result_spec(r2)
        };
    C::lemma_recover_erase_result(r2);
}

/// Law: an erased query handler routes its whole query type; the mirror of
/// [`lemma_erased_command_handler_routes`].
pub proof fn lemma_erased_query_handler_routes<Q: Query, H: QueryHandler<Q>>(
    w: ErasedQueryHandler<Q, H>,
)
    ensures
        w.key() == Q::key_spec(),
        forall|q: Q| #[trigger] w.accepts(q.erase_spec()),
        forall|q: Q, o: Q::Erased|
            #[trigger] w.post(q.erase_spec(), o) ==> Q::recover_result_spec(o) is Some,
{
    assert forall|q: Q| #[trigger] w.accepts(q.erase_spec()) by {
        Q::lemma_recover_erase(q);
    }
    assert forall|q: Q, o: Q::Erased|
        #[trigger] w.post(q.erase_spec(), o) implies Q::recover_result_spec(o) is Some by {
        let (q2, r2) = choose|q2: Q, r2: Result<Q::Response, Q::Error>|
            {
                &&& Q::recover_spec(q.erase_spec()) == Some(q2)
                &&& #[trigger] w.handler().post(q2, r2)
                &&& o == Q::erase_result_spec(r2)
            };
        Q::lemma_recover_erase_result(r2);
    }
}

/// Law: a dispatched query's result is the registered handler's result,
/// unchanged; the mirror of [`lemma_erased_command_handler_exact`].
pub proof fn lemma_erased_query_handler_exact<Q: Query, H: QueryHandler<Q>>(
    w: ErasedQueryHandler<Q, H>,
    q: Q,
    o: Q::Erased,
    r: Result<Q::Response, Q::Error>,
)
    requires
        w.post(q.erase_spec(), o),
        Q::recover_result_spec(o) == Some(r),
    ensures
        w.handler().post(q, r),
{
    Q::lemma_recover_erase(q);
    let (q2, r2) = choose|q2: Q, r2: Result<Q::Response, Q::Error>|
        {
            &&& Q::recover_spec(q.erase_spec()) == Some(q2)
            &&& #[trigger] w.handler().post(q2, r2)
            &&& o == Q::erase_result_spec(r2)
        };
    Q::lemma_recover_erase_result(r2);
}

/// Law: an erased event handler accepts every erased event of its type.
/// Together with the facts a registration leaves behind, this establishes
/// [`EventBus::delivers`](crate::event::EventBus::delivers).
pub proof fn lemma_erased_event_handler_routes<E: Event, H: EventHandler<E>>(
    w: ErasedEventHandler<E, H>,
)
    ensures
        w.key() == E::key_spec(),
        forall|e: E| #[trigger] w.accepts(e.erase_spec()),
{
    assert forall|e: E| #[trigger] w.accepts(e.erase_spec()) by {
        E::lemma_recover_erase(e);
    }
}

/// Law: what an event fan-out observes of a handler is that handler's own
/// contract on the very event that was dispatched — a wrapper outcome for
/// an erased event is an outcome of the wrapped handler on that event.
pub proof fn lemma_erased_event_handler_exact<E: Event, H: EventHandler<E>>(
    w: ErasedEventHandler<E, H>,
    e: E,
    r: Result<(), H::Error>,
)
    requires
        w.post(e.erase_spec(), r),
    ensures
        w.handler().post(e, r),
{
    E::lemma_recover_erase(e);
}

} // verus!

//! Events: duplicable facts fanned out to zero or more handlers.
//!
//! An [`Event`] has no response type, only a uniform error channel. Any
//! number of handlers may be registered per concrete event type; they are
//! invoked strictly in registration order, each on its own duplicate of the
//! event value, and the first handler error stops the fan-out.

use std::sync::Arc;
use vstd::prelude::*;

use crate::registry::{
    lemma_erased_event_handler_exact, lemma_erased_event_handler_routes, ErasedEventHandler,
    EventHandlerRegistry, EventHandlerWrapper,
};
use crate::share_arc;

verus! {

/// A fact that has already happened, broadcast to every handler registered
/// for its type.
///
/// An event must be duplicable: the bus hands each handler an independent
/// copy of the event value, so no handler can observe another handler's
/// mutation of its copy. Like a command, an event type supplies its routing
/// identity: a stable type key and the embedding of events into the
/// application's opaque value universe [`Event::Erased`]. Events carry no
/// response, so no result embedding is needed.
pub trait Event: Sized + Send + Sync {
    /// The opaque value universe this event type is erased into.
    type Erased;

    /// The stable identity of this event type: the key under which its
    /// handlers are registered and looked up. Distinct message types of one
    /// application must use distinct keys.
    spec fn key_spec() -> u64;

    /// The erased form of an event.
    spec fn erase_spec(self) -> Self::Erased;

    /// Which events, if any, an erased value recovers to.
    spec fn recover_spec(m: Self::Erased) -> Option<Self>;

    /// Returns this event type's key.
    fn type_key() -> (k: u64)
        ensures
            k == Self::key_spec(),
    ;

    /// Erases an event into the opaque value universe.
    fn erase(self) -> (m: Self::Erased)
        ensures
            m == self.erase_spec(),
    ;

    /// Recovers an event from an erased value, or `None` when the value
    /// does not hold an event of this type.
    fn recover(m: Self::Erased) -> (e: Option<Self>)
        ensures
            e == Self::recover_spec(m),
    ;

    /// Returns an independent copy of the event carrying the same value.
    fn duplicate(&self) -> (d: Self)
        ensures
            d == *self,
    ;

    /// Law: erasing an event and recovering it yields the event back.
    proof fn lemma_recover_erase(e: Self)
        ensures
            Self::recover_spec(e.erase_spec()) == Some(e),
    ;
}

/// A handler that reacts to one event type.
///
/// Event handlers return no value; they either succeed or report an error
/// of the uniform error type `Self::Error`. `post` is the relation every
/// result returned by `handle` satisfies; it is the handler's own contract,
/// chosen by the implementor.
pub trait EventHandler<E: Event>: Sized + Send + Sync {
    /// The uniform error type this handler reports failures with.
    type Error;

    /// The relation between an event and the results `handle` may return
    /// for it.
    spec fn post(&self, event: E, result: Result<(), Self::Error>) -> bool;

    /// Reacts to the event. Returning an error makes the bus stop the
    /// fan-out and propagate the error.
    fn handle(&self, event: E) -> (r: Result<(), Self::Error>)
        ensures
            self.post(event, r),
    ;
}

/// Drives the erased handler `wrapper` on a typed event: the un-erasure
/// direction of the wrapper layer. The event is erased and the wrapper
/// runs its handler to completion; events carry no response, so the
/// handler's result comes back directly.
pub fn handle_event<E, W>(wrapper: &W, event: E) -> (r: Result<(), W::Error>) where
    E: Event<Erased = W::Message>,
    W: EventHandlerWrapper,

    requires
        wrapper.accepts(event.erase_spec()),
    ensures
        wrapper.post(event.erase_spec(), r),
{
    let m = event.erase();
    wrapper.execute(m)
}

/// The shareable publish/subscribe facade over a frozen event handler
/// registry.
///
/// Building a bus consumes the registry, so its content can never change
/// afterwards; cloning a bus only creates another handle to the same
/// frozen registry.
#[derive(Debug)]
pub struct EventBus<W> {
    registry: Arc<EventHandlerRegistry<W>>,
}

impl<W: EventHandlerWrapper> EventBus<W> {
    /// The ordered list of handlers frozen in for key `k`; empty when none
    /// were registered.
    pub closed spec fn handlers_for(self, k: u64) -> Seq<W> {
        self.registry.handlers_for(k)
    }

    /// True when every handler standing under `E`'s key accepts the erased
    /// form of `event`. An event type with no handlers delivers vacuously.
    pub open spec fn delivers<E>(self, event: E) -> bool where E: Event<Erased = W::Message> {
        forall|i: int|
            0 <= i < self.handlers_for(E::key_spec()).len()
                ==> #[trigger] self.handlers_for(E::key_spec())[i].accepts(event.erase_spec())
    }

    /// Freezes `registry` into a shareable bus.
    pub fn new(registry: EventHandlerRegistry<W>) -> (bus: Self)
        ensures
            forall|k: u64| #[trigger] bus.handlers_for(k) == registry.handlers_for(k),
    {
        EventBus { registry: Arc::new(registry) }
    }

    /// Dispatches `event` to every handler registered for its type,
    /// strictly in registration order, handing each an independent
    /// duplicate of the original event value. The first handler error
    /// stops the fan-out at once and is returned untouched; when every
    /// handler succeeds — in particular when none is registered — the
    /// dispatch succeeds.
    pub fn dispatch<E>(&self, event: E) -> (r: Result<(), W::Error>) where
        E: Event<Erased = W::Message>

        requires
            self.delivers(event),
        ensures
            r is Ok ==> forall|i: int|
                0 <= i < self.handlers_for(E::key_spec()).len()
                    ==> #[trigger] self.handlers_for(E::key_spec())[i].post(
                    event.erase_spec(),
                    Ok(()),
                ),
            r matches Err(err) ==> exists|i: int|
                {
                    &&& 0 <= i < self.handlers_for(E::key_spec()).len()
                    &&& #[trigger] self.handlers_for(E::key_spec())[i].post(
                        event.erase_spec(),
                        Err(err),
                    )
                    &&& forall|j: int|
                        0 <= j < i ==> #[trigger] self.handlers_for(E::key_spec())[j].post(
                            event.erase_spec(),
                            Ok(()),
                        )
                },
            self.handlers_for(E::key_spec()).len() == 0 ==> r is Ok,
    {
        match self.registry.get_handlers::<E>() {
            None => Ok(()),
            Some(list) => {
                let ghost ws = self.handlers_for(E::key_spec());
                let n = list.len();
                let mut i: usize = 0;
                while i < n
                    invariant
                        i <= n,
                        n == ws.len(),
                        list@ == ws,
                        ws == self.handlers_for(E::key_spec()),
                        forall|j: int|
                            0 <= j < ws.len() ==> #[trigger] ws[j].accepts(event.erase_spec()),
                        forall|j: int|
                            0 <= j < i ==> #[trigger] ws[j].post(event.erase_spec(), Ok(())),
                    decreases n - i,
                {
                    let duplicate = event.duplicate();
                    match handle_event(&list[i], duplicate) {
                        Ok(_done) => {},
                        Err(err) => {
                            return Err(err);
                        },
                    }
                    i += 1;
                }
                Ok(())
            },
        }
    }
}

/// Law: a bus whose registry stores erased event handlers delivers every
/// event a handler list stands registered for — and, vacuously, every
/// event type nobody listens to.
pub proof fn lemma_registered_bus_delivers<E: Event, H: EventHandler<E>>(
    bus: EventBus<ErasedEventHandler<E, H>>,
    event: E,
)
    ensures
        bus.delivers(event),
{
    assert forall|i: int|
        0 <= i < bus.handlers_for(E::key_spec()).len() implies #[trigger] bus.handlers_for(
        E::key_spec(),
    )[i].accepts(event.erase_spec()) by {
        lemma_erased_event_handler_routes::<E, H>(bus.handlers_for(E::key_spec())[i]);
    }
}

/// Law: when a fan-out succeeds, every handler registered for the event's
/// type was driven on the dispatched event and its own contract holds with
/// success — in registration order, each on its own duplicate of the
/// original event value, so no handler can have observed another's copy.
pub proof fn lemma_fanout_reaches_every_handler<E: Event, H: EventHandler<E>>(
    ws: Seq<ErasedEventHandler<E, H>>,
    e: E,
)
    requires
        forall|i: int| 0 <= i < ws.len() ==> #[trigger] ws[i].post(e.erase_spec(), Ok(())),
    ensures
        forall|i: int| 0 <= i < ws.len() ==> #[trigger] ws[i].handler().post(e, Ok(())),
{
    assert forall|i: int| 0 <= i < ws.len() implies #[trigger] ws[i].handler().post(
        e,
        Ok(()),
    ) by {
        lemma_erased_event_handler_exact(ws[i], e, Ok(()));
    }
}

/// Law: when a fan-out fails at position `i`, the returned error is the
/// error that handler's own contract allows for the dispatched event, and
/// every handler before it succeeded on its own duplicate; the bus stopped
/// there, so no later handler was driven.
pub proof fn lemma_fanout_short_circuits<E: Event, H: EventHandler<E>>(
    ws: Seq<ErasedEventHandler<E, H>>,
    e: E,
    i: int,
    err: H::Error,
)
    requires
        0 <= i < ws.len(),
        ws[i].post(e.erase_spec(), Err(err)),
        forall|j: int| 0 <= j < i ==> #[trigger] ws[j].post(e.erase_spec(), Ok(())),
    ensures
        ws[i].handler().post(e, Err(err)),
        forall|j: int| 0 <= j < i ==> #[trigger] ws[j].handler().post(e, Ok(())),
{
    lemma_erased_event_handler_exact(ws[i], e, Err(err));
    assert forall|j: int| 0 <= j < i implies #[trigger] ws[j].handler().post(e, Ok(())) by {
        lemma_erased_event_handler_exact(ws[j], e, Ok(()));
    }
}

impl<W: EventHandlerWrapper> Clone for EventBus<W> {
    /// Returns another handle to the same frozen registry.
    fn clone(&self) -> (bus: Self)
        ensures
            bus == *self,
    {
        EventBus { registry: share_arc(&self.registry) }
    }
}

} // verus!

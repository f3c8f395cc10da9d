//! Commands: messages that ask the system to change state.
//!
//! A [`Command`] names a response and an error type and carries the erasure
//! capability that lets the storage layer treat all commands of one
//! application uniformly. A [`CommandHandler`] holds the logic that
//! processes one command type, and the [`CommandBus`] dispatches each
//! command to the one handler registered for its type.

use std::sync::Arc;
use vstd::prelude::*;

use crate::registry::{
    lemma_erased_command_handler_exact, lemma_erased_command_handler_routes,
    CommandHandlerRegistry, CommandHandlerWrapper, ErasedCommandHandler,
};
use crate::share_arc;

verus! {

/// A message carrying intent to change system state.
///
/// Exactly one handler may be registered per concrete command type at any
/// time. Beyond naming its response and error types, a command type supplies
/// its routing identity: a stable type key, and the embedding of commands
/// and command results into the application's opaque value universe
/// [`Command::Erased`]. The registries and buses only ever move values of
/// that universe; the embedding is what lets them recover the exact typed
/// value that was erased.
pub trait Command: Sized + Send + Sync {
    /// The response returned when the command succeeds.
    type Response;

    /// The error returned when the command fails.
    type Error;

    /// The opaque value universe this command type is erased into.
    type Erased;

    /// The stable identity of this command type: the key under which its
    /// handler is registered and looked up. Distinct message types of one
    /// application must use distinct keys.
    spec fn key_spec() -> u64;

    /// The erased form of a command.
    spec fn erase_spec(self) -> Self::Erased;

    /// Which commands, if any, an erased value recovers to.
    spec fn recover_spec(m: Self::Erased) -> Option<Self>;

    /// The erased form of a command result.
    spec fn erase_result_spec(r: Result<Self::Response, Self::Error>) -> Self::Erased;

    /// Which command results, if any, an erased value recovers to.
    spec fn recover_result_spec(m: Self::Erased) -> Option<Result<Self::Response, Self::Error>>;

    /// Returns this command type's key.
    fn type_key() -> (k: u64)
        ensures
            k == Self::key_spec(),
    ;

    /// Erases a command into the opaque value universe.
    fn erase(self) -> (m: Self::Erased)
        ensures
            m == self.erase_spec(),
    ;

    /// Recovers a command from an erased value, or `None` when the value
    /// does not hold a command of this type.
    fn recover(m: Self::Erased) -> (c: Option<Self>)
        ensures
            c == Self::recover_spec(m),
    ;

    /// Erases a command result into the opaque value universe.
    fn erase_result(r: Result<Self::Response, Self::Error>) -> (m: Self::Erased)
        ensures
            m == Self::erase_result_spec(r),
    ;

    /// Recovers a command result from an erased value, or `None` when the
    /// value does not hold a result of this command type.
    fn recover_result(m: Self::Erased) -> (r: Option<Result<Self::Response, Self::Error>>)
        ensures
            r == Self::recover_result_spec(m),
    ;

    /// Law: erasing a command and recovering it yields the command back.
    proof fn lemma_recover_erase(c: Self)
        ensures
            Self::recover_spec(c.erase_spec()) == Some(c),
    ;

    /// Law: erasing a command result and recovering it yields the result
    /// back.
    proof fn lemma_recover_erase_result(r: Result<Self::Response, Self::Error>)
        ensures
            Self::recover_result_spec(Self::erase_result_spec(r)) == Some(r),
    ;
}

/// A handler that processes one command type.
///
/// `post` is the relation every result returned by `handle` satisfies; it is
/// the handler's own contract, chosen by the implementor. A handler whose
/// results the application does not care to pin down may use `true`.
pub trait CommandHandler<C: Command>: Sized + Send + Sync {
    /// The relation between a command and the results `handle` may return
    /// for it.
    spec fn post(&self, command: C, result: Result<C::Response, C::Error>) -> bool;

    /// Processes the command and returns its result.
    fn handle(&self, command: C) -> (r: Result<C::Response, C::Error>)
        ensures
            self.post(command, r),
    ;
}

/// Drives the erased handler `wrapper` on a typed command: the un-erasure
/// direction of the wrapper layer. The command is erased, the wrapper runs
/// its handler to completion, and the erased outcome is recovered as the
/// typed result. An erased outcome that recovers to no typed result would
/// mean the wrapper was built for another type — a routing fault this
/// contract excludes.
pub fn handle_command<C, W>(wrapper: &W, command: C) -> (r: Result<C::Response, C::Error>) where
    C: Command<Erased = W::Message>,
    W: CommandHandlerWrapper,

    requires
        wrapper.accepts(command.erase_spec()),
        forall|o: W::Message|
            #[trigger] wrapper.post(command.erase_spec(), o) ==> C::recover_result_spec(o)
                is Some,
    ensures
        exists|o: W::Message|
            {
                &&& #[trigger] wrapper.post(command.erase_spec(), o)
                &&& C::recover_result_spec(o) == Some(r)
            },
{
    let m = command.erase();
    let o = wrapper.execute(m);
    C::recover_result(o).unwrap()
}

/// The shareable dispatch facade over a frozen command handler registry.
///
/// Building a bus consumes the registry, so its content can never change
/// afterwards; cloning a bus only creates another handle to the same
/// frozen registry.
#[derive(Debug)]
pub struct CommandBus<W> {
    registry: Arc<CommandHandlerRegistry<W>>,
}

impl<W: CommandHandlerWrapper> CommandBus<W> {
    /// The frozen mapping from command type keys to handlers.
    pub closed spec fn handlers(self) -> Map<u64, W> {
        self.registry@
    }

    /// True when the handler standing under `C`'s key routes `C`: it
    /// accepts every erased command of that type, and every erased result
    /// it may return recovers to a typed result. Dispatching a command
    /// whose type no registered handler routes is a fatal configuration
    /// error, not a recoverable one.
    pub open spec fn handles<C>(self) -> bool where C: Command<Erased = W::Message> {
        &&& self.handlers().contains_key(C::key_spec())
        &&& forall|c: C| #[trigger] self.handlers()[C::key_spec()].accepts(c.erase_spec())
        &&& forall|c: C, o: W::Message|
            #[trigger] self.handlers()[C::key_spec()].post(c.erase_spec(), o)
                ==> C::recover_result_spec(o) is Some
    }

    /// Freezes `registry` into a shareable bus.
    pub fn new(registry: CommandHandlerRegistry<W>) -> (bus: Self)
        ensures
            bus.handlers() == registry@,
    {
        CommandBus { registry: Arc::new(registry) }
    }

    /// Dispatches `command` to the handler registered for its type and
    /// returns that handler's result, untouched: the result recovers from
    /// an erased outcome that the registered handler's own contract allows
    /// for this very command. Dispatching a command type with no registered
    /// handler aborts the call; `handles` excludes that misconfiguration.
    pub fn dispatch<C>(&self, command: C) -> (r: Result<C::Response, C::Error>) where
        C: Command<Erased = W::Message>

        requires
            self.handles::<C>(),
        ensures
            exists|o: W::Message|
                {
                    &&& #[trigger] self.handlers()[C::key_spec()].post(command.erase_spec(), o)
                    &&& C::recover_result_spec(o) == Some(r)
                },
    {
        let handler = self.registry.get_handler::<C>().unwrap();
        handle_command(handler, command)
    }
}

/// Law: a bus whose registry stores erased command handlers routes every
/// command type a handler stands registered for — registering a handler
/// for `C` is all it takes to dispatch commands of type `C`.
pub proof fn lemma_registered_bus_handles<C: Command, H: CommandHandler<C>>(
    bus: CommandBus<ErasedCommandHandler<C, H>>,
)
    requires
        bus.handlers().contains_key(C::key_spec()),
    ensures
        bus.handles::<C>(),
{
    lemma_erased_command_handler_routes::<C, H>(bus.handlers()[C::key_spec()]);
}

/// Law: registering a handler for `C` and dispatching a command of type
/// `C` returns that handler's result unchanged — any result `dispatch`'s
/// contract admits for the command satisfies the registered handler's own
/// contract on it.
pub proof fn lemma_dispatch_returns_handler_result<C: Command, H: CommandHandler<C>>(
    bus: CommandBus<ErasedCommandHandler<C, H>>,
    command: C,
    r: Result<C::Response, C::Error>,
)
    requires
        bus.handlers().contains_key(C::key_spec()),
        exists|o: C::Erased|
            {
                &&& #[trigger] bus.handlers()[C::key_spec()].post(command.erase_spec(), o)
                &&& C::recover_result_spec(o) == Some(r)
            },
    ensures
        bus.handlers()[C::key_spec()].handler().post(command, r),
{
    let o = choose|o: C::Erased|
        {
            &&& #[trigger] bus.handlers()[C::key_spec()].post(command.erase_spec(), o)
            &&& C::recover_result_spec(o) == Some(r)
        };
    lemma_erased_command_handler_exact(bus.handlers()[C::key_spec()], command, o, r);
}

impl<W: CommandHandlerWrapper> Clone for CommandBus<W> {
    /// Returns another handle to the same frozen registry.
    fn clone(&self) -> (bus: Self)
        ensures
            bus == *self,
    {
        CommandBus { registry: share_arc(&self.registry) }
    }
}

} // verus!

//! The bridge instance: handler registration, dispatch admission, and the
//! disposal state machine that drains in-flight dispatches on shutdown.

use vstd::prelude::*;
use crate::dispatch::{Dispatch, DispatchState, wf as dispatch_wf};
use crate::errors::{AppError, ErrorKind};
use crate::message::Message;
use crate::outcome::Mode;

verus! {

/// A shared, immutable handle to a foreign callable, fixed at registration
/// time and valid for the lifetime of the owning bridge instance.
#[derive(Clone, Copy, Debug, PartialEq, Eq, Structural)]
pub struct HandlerRef {
    pub id: u64,
}

/// A cloneable capability value identifying the execution context where the
/// foreign handler must run. Carried alongside the handler reference, never
/// recovered from ambient thread-local state.
#[derive(Clone, Copy, Debug, PartialEq, Eq, Structural)]
pub struct ContextToken {
    pub id: u64,
}

/// A foreign callable captured together with its context token and the
/// timeouts that bound its dispatches, at the moment a consumer is
/// registered.
#[derive(Debug)]
pub struct HandlerRegistration {
    /// The exchange subscribed to; request/response registrations bind a
    /// routing key only.
    pub exchange_name: Option<String>,
    pub routing_key: String,
    pub mode: Mode,
    pub handler: HandlerRef,
    pub context: ContextToken,
    /// Bounds the foreign handler's own execution, in whole seconds.
    pub process_timeout: Option<u64>,
    /// Bounds engine-level operations around the handler call, in whole
    /// seconds; the bridge forwards it unchanged.
    pub command_timeout: Option<u64>,
}

/// The mathematical value of a [`HandlerRegistration`].
pub struct RegistrationView {
    pub exchange_name: Option<Seq<char>>,
    pub routing_key: Seq<char>,
    pub mode: Mode,
    pub handler: HandlerRef,
    pub context: ContextToken,
    pub process_timeout: Option<u64>,
    pub command_timeout: Option<u64>,
}

impl View for HandlerRegistration {
    type V = RegistrationView;

    open spec fn view(&self) -> RegistrationView {
        RegistrationView {
            exchange_name: match self.exchange_name {
                Some(e) => Some(e@),
                None => None,
            },
            routing_key: self.routing_key@,
            mode: self.mode,
            handler: self.handler,
            context: self.context,
            process_timeout: self.process_timeout,
            command_timeout: self.command_timeout,
        }
    }
}

/// Where a bridge instance stands in its life. Disposed is terminal.
#[derive(Clone, Copy, Debug, PartialEq, Eq, Structural)]
pub enum LifecycleState {
    /// Registrations and dispatches are admitted.
    Active,
    /// Shutdown has begun: nothing new is admitted, in-flight dispatches
    /// are being drained.
    Draining,
    /// Shutdown is complete; all handler references and context tokens
    /// have been released.
    Disposed,
}

/// One bridge instance: its lifecycle state, the number of admitted but
/// unresolved dispatches, and the handlers registered with it.
#[derive(Debug)]
pub struct Bridge {
    pub state: LifecycleState,
    pub pending: u64,
    pub registrations: Vec<HandlerRegistration>,
}

/// The mathematical value of a [`Bridge`].
pub struct BridgeView {
    pub state: LifecycleState,
    pub pending: nat,
    pub registrations: Seq<RegistrationView>,
}

impl View for Bridge {
    type V = BridgeView;

    open spec fn view(&self) -> BridgeView {
        BridgeView {
            state: self.state,
            pending: self.pending as nat,
            registrations: self.registrations@.map_values(|r: HandlerRegistration| r@),
        }
    }
}

/// Well-formedness of a bridge: draining means something is still pending,
/// and a disposed bridge holds nothing — no pending dispatches, no handler
/// references, no context tokens.
pub open spec fn bridge_wf(b: BridgeView) -> bool {
    match b.state {
        LifecycleState::Active => true,
        LifecycleState::Draining => b.pending > 0,
        LifecycleState::Disposed => b.pending == 0 && b.registrations.len() == 0,
    }
}

/// Registrations and dispatches are admitted exactly while the bridge is
/// active.
pub open spec fn spec_admitted(b: BridgeView) -> bool {
    b.state is Active
}

/// The bridge after `dispose`: an idle active bridge is disposed outright;
/// one with in-flight dispatches starts draining; draining and disposed
/// bridges are left as they are. `dispose` itself always succeeds.
pub open spec fn spec_dispose(b: BridgeView) -> BridgeView {
    match b.state {
        LifecycleState::Active => if b.pending == 0 {
            BridgeView { state: LifecycleState::Disposed, registrations: Seq::empty(), ..b }
        } else {
            BridgeView { state: LifecycleState::Draining, ..b }
        },
        _ => b,
    }
}

/// The bridge after one in-flight dispatch resolved: the pending count
/// drops, and a draining bridge whose last dispatch resolved is disposed,
/// releasing what it held.
pub open spec fn spec_resolve_one(b: BridgeView) -> BridgeView
    recommends
        b.pending > 0,
{
    if b.state is Draining && b.pending == 1 {
        BridgeView {
            state: LifecycleState::Disposed,
            pending: 0,
            registrations: Seq::empty(),
        }
    } else {
        BridgeView { pending: (b.pending - 1) as nat, ..b }
    }
}

impl Bridge {
    /// A fresh, active bridge with nothing registered and nothing pending.
    pub fn new() -> (b: Bridge)
        ensures
            bridge_wf(b@),
            b@.state == LifecycleState::Active,
            b@.pending == 0,
            b@.registrations == Seq::<RegistrationView>::empty(),
    {
        let b = Bridge { state: LifecycleState::Active, pending: 0, registrations: Vec::new() };
        proof {
            assert(b@.registrations =~= Seq::<RegistrationView>::empty());
        }
        b
    }

    /// Register a fire-and-forget consumer: the handler is invoked once per
    /// inbound message and its return value is ignored beyond success or
    /// failure. Succeeds exactly while the bridge is active; afterwards it
    /// fails fast with `UnexpectedResultError` and changes nothing.
    pub fn subscribe(
        &mut self,
        exchange_name: String,
        routing_key: String,
        handler: HandlerRef,
        context: ContextToken,
        process_timeout: Option<u64>,
        command_timeout: Option<u64>,
    ) -> (r: Result<(), AppError>)
        requires
            bridge_wf(old(self)@),
            old(self)@.registrations.len() < usize::MAX,
        ensures
            bridge_wf(final(self)@),
            r is Ok <==> spec_admitted(old(self)@),
            spec_admitted(old(self)@) ==> final(self)@ == (BridgeView {
                registrations: old(self)@.registrations.push(
                    RegistrationView {
                        exchange_name: Some(exchange_name@),
                        routing_key: routing_key@,
                        mode: Mode::Subscribe,
                        handler,
                        context,
                        process_timeout,
                        command_timeout,
                    },
                ),
                ..old(self)@
            }),
            !spec_admitted(old(self)@) ==> final(self)@ == old(self)@ && (r matches Err(e)
                && e@.error_type == ErrorKind::UnexpectedResultError),
    {
        self.register(
            HandlerRegistration {
                exchange_name: Some(exchange_name),
                routing_key,
                mode: Mode::Subscribe,
                handler,
                context,
                process_timeout,
                command_timeout,
            },
        )
    }

    /// Register a request/response provider: the handler is invoked once
    /// per inbound request and must produce a byte sequence for the reply.
    /// Succeeds exactly while the bridge is active; afterwards it fails
    /// fast with `UnexpectedResultError` and changes nothing.
    pub fn provide_resource(
        &mut self,
        routing_key: String,
        handler: HandlerRef,
        context: ContextToken,
        process_timeout: Option<u64>,
        command_timeout: Option<u64>,
    ) -> (r: Result<(), AppError>)
        requires
            bridge_wf(old(self)@),
            old(self)@.registrations.len() < usize::MAX,
        ensures
            bridge_wf(final(self)@),
            r is Ok <==> spec_admitted(old(self)@),
            spec_admitted(old(self)@) ==> final(self)@ == (BridgeView {
                registrations: old(self)@.registrations.push(
                    RegistrationView {
                        exchange_name: None,
                        routing_key: routing_key@,
                        mode: Mode::RequestResponse,
                        handler,
                        context,
                        process_timeout,
                        command_timeout,
                    },
                ),
                ..old(self)@
            }),
            !spec_admitted(old(self)@) ==> final(self)@ == old(self)@ && (r matches Err(e)
                && e@.error_type == ErrorKind::UnexpectedResultError),
    {
        self.register(
            HandlerRegistration {
                exchange_name: None,
                routing_key,
                mode: Mode::RequestResponse,
                handler,
                context,
                process_timeout,
                command_timeout,
            },
        )
    }

    /// Capture one registration while the bridge is active; fail fast
    /// otherwise.
    fn register(&mut self, registration: HandlerRegistration) -> (r: Result<(), AppError>)
        requires
            bridge_wf(old(self)@),
            old(self)@.registrations.len() < usize::MAX,
        ensures
            bridge_wf(final(self)@),
            r is Ok <==> spec_admitted(old(self)@),
            spec_admitted(old(self)@) ==> final(self)@ == (BridgeView {
                registrations: old(self)@.registrations.push(registration@),
                ..old(self)@
            }),
            !spec_admitted(old(self)@) ==> final(self)@ == old(self)@ && (r matches Err(e)
                && e@.error_type == ErrorKind::UnexpectedResultError),
    {
        match self.state {
            LifecycleState::Active => {
                self.registrations.push(registration);
                proof {
                    assert(self@.registrations =~= old(self)@.registrations.push(
                        registration@,
                    ));
                }
                Ok(())
            },
            _ => Err(AppError::bare(ErrorKind::UnexpectedResultError)),
        }
    }

    /// Admit one inbound message for the registration at `index`, handing
    /// back the dispatch that will drive it. The dispatch carries the
    /// registration's own execution-context token — the one captured when
    /// the consumer was registered — so the handler runs under that token,
    /// never under ambient state. Admission succeeds exactly while the
    /// bridge is active — after shutdown begins, no new dispatch is
    /// admitted — and counts the dispatch as pending until it resolves.
    pub fn begin_dispatch(&mut self, index: usize, message: Message) -> (r: Result<Dispatch, AppError>)
        requires
            bridge_wf(old(self)@),
            index < old(self)@.registrations.len(),
            old(self)@.pending < u64::MAX,
        ensures
            bridge_wf(final(self)@),
            r is Ok <==> spec_admitted(old(self)@),
            spec_admitted(old(self)@) ==> final(self)@ == (BridgeView {
                pending: old(self)@.pending + 1,
                ..old(self)@
            }),
            r matches Ok(d) ==> {
                &&& dispatch_wf(d@)
                &&& d@.state == DispatchState::Admitted
                &&& d@.mode == old(self)@.registrations[index as int].mode
                &&& d@.message == message@
                &&& d@.context == old(self)@.registrations[index as int].context
                &&& d@.process_timeout == old(self)@.registrations[index as int].process_timeout
            },
            !spec_admitted(old(self)@) ==> final(self)@ == old(self)@ && (r matches Err(e)
                && e@.error_type == ErrorKind::UnexpectedResultError),
    {
        match self.state {
            LifecycleState::Active => {
                let registration = &self.registrations[index];
                let dispatch = Dispatch::new(
                    registration.mode,
                    message,
                    registration.context,
                    registration.process_timeout,
                );
                self.pending = self.pending + 1;
                Ok(dispatch)
            },
            _ => Err(AppError::bare(ErrorKind::UnexpectedResultError)),
        }
    }

    /// One admitted dispatch reported its outcome. The pending count drops;
    /// a draining bridge whose last dispatch resolved reaches Disposed and
    /// releases its handler references and context tokens.
    pub fn dispatch_resolved(&mut self)
        requires
            bridge_wf(old(self)@),
            old(self)@.pending > 0,
        ensures
            bridge_wf(final(self)@),
            final(self)@ == spec_resolve_one(old(self)@),
    {
        self.pending = self.pending - 1;
        match self.state {
            LifecycleState::Draining => {
                if self.pending == 0 {
                    self.state = LifecycleState::Disposed;
                    self.registrations = Vec::new();
                    proof {
                        assert(self@.registrations =~= Seq::<RegistrationView>::empty());
                    }
                }
            },
            _ => {},
        }
    }

    /// Begin, continue, or confirm shutdown. Always returns success: an
    /// idle bridge is disposed outright, a busy one starts draining, and
    /// invoking `dispose` again — draining or already disposed — succeeds
    /// without re-running teardown.
    pub fn dispose(&mut self) -> (r: Result<(), AppError>)
        requires
            bridge_wf(old(self)@),
        ensures
            bridge_wf(final(self)@),
            r is Ok,
            final(self)@ == spec_dispose(old(self)@),
    {
        match self.state {
            LifecycleState::Active => {
                if self.pending == 0 {
                    self.state = LifecycleState::Disposed;
                    self.registrations = Vec::new();
                    proof {
                        assert(self@.registrations =~= Seq::<RegistrationView>::empty());
                    }
                } else {
                    self.state = LifecycleState::Draining;
                }
            },
            _ => {},
        }
        Ok(())
    }

    /// The grace period for draining elapsed: the remaining in-flight
    /// dispatches are abandoned (their eventual outcomes will be discarded
    /// by their own resolution rule) and the bridge reaches Disposed.
    pub fn grace_elapsed(&mut self)
        requires
            bridge_wf(old(self)@),
            old(self)@.state == LifecycleState::Draining,
        ensures
            bridge_wf(final(self)@),
            final(self)@.state == LifecycleState::Disposed,
            final(self)@.pending == 0,
            final(self)@.registrations == Seq::<RegistrationView>::empty(),
    {
        self.state = LifecycleState::Disposed;
        self.pending = 0;
        self.registrations = Vec::new();
        proof {
            assert(self@.registrations =~= Seq::<RegistrationView>::empty());
        }
    }
}

/// `dispose` is idempotent: disposing an already-disposed (or draining)
/// bridge changes nothing further, and both invocations succeed — success
/// of each call is stated by `dispose` itself.
pub proof fn lemma_dispose_idempotent(b: BridgeView)
    ensures
        spec_dispose(spec_dispose(b)) == spec_dispose(b),
{
}

/// After shutdown begins, nothing new is admitted: no registration and no
/// dispatch admission succeeds on a disposed-or-draining bridge.
pub proof fn lemma_nothing_admitted_after_dispose(b: BridgeView)
    ensures
        !spec_admitted(spec_dispose(b)),
{
}

/// Disposed is terminal: no transition leaves it.
pub proof fn lemma_disposed_terminal(b: BridgeView)
    requires
        bridge_wf(b),
        b.state == LifecycleState::Disposed,
    ensures
        spec_dispose(b) == b,
{
}

/// Shutdown is permanent: once the bridge has left Active, neither another
/// `dispose` nor the resolution of an in-flight dispatch brings it back —
/// it only moves further towards Disposed.
pub proof fn lemma_shutdown_is_permanent(b: BridgeView)
    requires
        !(b.state is Active),
    ensures
        !(spec_dispose(b).state is Active),
        b.pending > 0 ==> !(spec_resolve_one(b).state is Active),
{
}

} // verus!

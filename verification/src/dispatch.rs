//! One message through the bridge: admission, exactly one foreign
//! invocation, exactly one reported outcome.

use vstd::prelude::*;
use crate::bridge::ContextToken;
use crate::errors::{AppError, AppErrorView, ErrorKind};
use crate::message::{Message, MessageView};
use crate::outcome::{CompletionView, DispatchOutcome, ForeignCompletion, Mode, OutcomeView};
use crate::translate::{spec_translate, translate};

verus! {

/// Where a dispatch stands in its life.
#[derive(Clone, Copy, Debug, PartialEq, Eq, Structural)]
pub enum DispatchState {
    /// Admitted by the bridge; the foreign context has not been entered.
    Admitted,
    /// The foreign handler was invoked; its completion is awaited.
    Invoked,
    /// An outcome was reported. Terminal: later events are discarded.
    Resolved,
}

/// What can happen to a dispatch after admission.
#[derive(Debug)]
pub enum DispatchEvent {
    /// The foreign context was entered and the handler called.
    Invoke,
    /// The foreign awaitable completed.
    Complete(ForeignCompletion),
    /// The process timeout elapsed before the handler resolved.
    Elapsed,
    /// The foreign runtime could not be reached at all, before or during
    /// the call.
    Unreachable(String),
}

/// The mathematical value of a [`DispatchEvent`].
pub enum EventView {
    Invoke,
    Complete(CompletionView),
    Elapsed,
    Unreachable(Seq<char>),
}

impl View for DispatchEvent {
    type V = EventView;

    open spec fn view(&self) -> EventView {
        match self {
            DispatchEvent::Invoke => EventView::Invoke,
            DispatchEvent::Complete(c) => EventView::Complete(c@),
            DispatchEvent::Elapsed => EventView::Elapsed,
            DispatchEvent::Unreachable(d) => EventView::Unreachable(d@),
        }
    }
}

/// One admitted dispatch: the message it carries, the invocation mode, the
/// execution-context token its handler must run under — the one captured at
/// registration, never recovered from ambient state — the optional process
/// deadline in whole seconds, and what has happened so far.
#[derive(Debug)]
pub struct Dispatch {
    pub mode: Mode,
    pub message: Message,
    pub context: ContextToken,
    pub process_timeout: Option<u64>,
    pub state: DispatchState,
    pub invocations: u64,
    pub invoked_message: Option<Message>,
    pub outcome: Option<DispatchOutcome>,
}

/// The mathematical value of a [`Dispatch`].
pub struct DispatchView {
    pub mode: Mode,
    pub message: MessageView,
    pub context: ContextToken,
    pub process_timeout: Option<u64>,
    pub state: DispatchState,
    pub invocations: nat,
    pub invoked_message: Option<MessageView>,
    pub outcome: Option<OutcomeView>,
}

impl View for Dispatch {
    type V = DispatchView;

    open spec fn view(&self) -> DispatchView {
        DispatchView {
            mode: self.mode,
            message: self.message@,
            context: self.context,
            process_timeout: self.process_timeout,
            state: self.state,
            invocations: self.invocations as nat,
            invoked_message: match self.invoked_message {
                Some(m) => Some(m@),
                None => None,
            },
            outcome: match self.outcome {
                Some(o) => Some(o@),
                None => None,
            },
        }
    }
}

/// Well-formedness of a dispatch: the state tag agrees with what was
/// recorded. A dispatch enters the foreign context at most once, always
/// with exactly the admitted message; an outcome exists exactly from
/// resolution on; and an outcome of success means the handler really ran —
/// exactly once. (A dispatch can resolve uninvoked only by failure, when
/// the foreign runtime was unreachable.)
pub open spec fn wf(d: DispatchView) -> bool {
    match d.state {
        DispatchState::Admitted => d.invocations == 0 && d.invoked_message is None
            && d.outcome is None,
        DispatchState::Invoked => d.invocations == 1 && d.invoked_message == Some(d.message)
            && d.outcome is None,
        DispatchState::Resolved => {
            &&& d.outcome is Some
            &&& match d.invoked_message {
                Some(m) => m == d.message && d.invocations == 1,
                None => d.invocations == 0,
            }
            &&& (d.outcome matches Some(OutcomeView::Success(_)) ==> d.invocations == 1)
        },
    }
}

/// The outcome reported when the process timeout elapses.
pub open spec fn spec_timeout_outcome() -> OutcomeView {
    OutcomeView::Failure(
        AppErrorView {
            message: Some("process timeout elapsed"@),
            description: None,
            error_type: ErrorKind::Timeout,
        },
    )
}

/// The outcome reported when the foreign runtime cannot be reached.
pub open spec fn spec_unavailable_outcome(detail: Seq<char>) -> OutcomeView {
    OutcomeView::Failure(
        AppErrorView {
            message: Some(detail),
            description: None,
            error_type: ErrorKind::BridgeUnavailable,
        },
    )
}

/// The dispatch after one event. Events out of place change nothing: a
/// completion or deadline before invocation, a deadline without a
/// configured process timeout, and every event after resolution.
pub open spec fn spec_step(d: DispatchView, e: EventView) -> DispatchView {
    match (d.state, e) {
        (DispatchState::Admitted, EventView::Invoke) => DispatchView {
            state: DispatchState::Invoked,
            invocations: d.invocations + 1,
            invoked_message: Some(d.message),
            ..d
        },
        (DispatchState::Invoked, EventView::Complete(c)) => DispatchView {
            state: DispatchState::Resolved,
            outcome: Some(spec_translate(d.mode, c)),
            ..d
        },
        (DispatchState::Invoked, EventView::Elapsed) => if d.process_timeout is Some {
            DispatchView { state: DispatchState::Resolved, outcome: Some(spec_timeout_outcome()), ..d }
        } else {
            d
        },
        (DispatchState::Admitted, EventView::Unreachable(t)) => DispatchView {
            state: DispatchState::Resolved,
            outcome: Some(spec_unavailable_outcome(t)),
            ..d
        },
        (DispatchState::Invoked, EventView::Unreachable(t)) => DispatchView {
            state: DispatchState::Resolved,
            outcome: Some(spec_unavailable_outcome(t)),
            ..d
        },
        _ => d,
    }
}

/// The outcome the step reports, if it reports one. A dispatch reports at
/// the step that resolves it and never again.
pub open spec fn spec_emit(d: DispatchView, e: EventView) -> Option<OutcomeView> {
    match (d.state, e) {
        (DispatchState::Invoked, EventView::Complete(c)) => Some(spec_translate(d.mode, c)),
        (DispatchState::Invoked, EventView::Elapsed) => if d.process_timeout is Some {
            Some(spec_timeout_outcome())
        } else {
            None
        },
        (DispatchState::Admitted, EventView::Unreachable(t)) => Some(
            spec_unavailable_outcome(t),
        ),
        (DispatchState::Invoked, EventView::Unreachable(t)) => Some(
            spec_unavailable_outcome(t),
        ),
        _ => None,
    }
}

/// The dispatch after a whole sequence of events, first event first.
pub open spec fn spec_run(d: DispatchView, es: Seq<EventView>) -> DispatchView
    decreases es.len(),
{
    if es.len() == 0 {
        d
    } else {
        spec_run(spec_step(d, es.first()), es.drop_first())
    }
}

/// How many outcomes a sequence of events makes the dispatch report.
pub open spec fn spec_reports(d: DispatchView, es: Seq<EventView>) -> nat
    decreases es.len(),
{
    if es.len() == 0 {
        0
    } else {
        (if spec_emit(d, es.first()) is Some {
            1nat
        } else {
            0nat
        }) + spec_reports(spec_step(d, es.first()), es.drop_first())
    }
}

/// One step preserves well-formedness and never touches the admitted
/// message, the mode, the context token or the configured timeout.
pub proof fn lemma_step_preserves_wf(d: DispatchView, e: EventView)
    requires
        wf(d),
    ensures
        wf(spec_step(d, e)),
        spec_step(d, e).message == d.message,
        spec_step(d, e).mode == d.mode,
        spec_step(d, e).context == d.context,
        spec_step(d, e).process_timeout == d.process_timeout,
{
}

/// Every dispatch enters the foreign context at most once, always under
/// the context token it was admitted with, and whenever it did, the
/// handler received content byte-identical to the admitted message: no
/// duplication, no loss, no alteration, under any sequence of events.
pub proof fn lemma_single_invocation(d: DispatchView, es: Seq<EventView>)
    requires
        wf(d),
    ensures
        wf(spec_run(d, es)),
        spec_run(d, es).message == d.message,
        spec_run(d, es).context == d.context,
        spec_run(d, es).invocations <= 1,
        spec_run(d, es).invoked_message is Some ==> spec_run(d, es).invoked_message == Some(
            d.message,
        ),
    decreases es.len(),
{
    if es.len() > 0 {
        lemma_step_preserves_wf(d, es.first());
        lemma_single_invocation(spec_step(d, es.first()), es.drop_first());
    }
}

/// Exactly one outcome is reported per dispatch — never zero, never two.
/// Under any sequence of events, a dispatch that is not yet resolved
/// reports exactly once if the events resolve it and not at all otherwise,
/// and a resolved dispatch never reports again.
pub proof fn lemma_exactly_one_report(d: DispatchView, es: Seq<EventView>)
    requires
        wf(d),
    ensures
        spec_reports(d, es) == if spec_run(d, es).state is Resolved && !(d.state is Resolved) {
            1nat
        } else {
            0nat
        },
    decreases es.len(),
{
    if es.len() > 0 {
        lemma_step_preserves_wf(d, es.first());
        lemma_exactly_one_report(spec_step(d, es.first()), es.drop_first());
        if spec_step(d, es.first()).state is Resolved {
            lemma_late_events_discarded(spec_step(d, es.first()), es.drop_first());
        }
    }
}

/// A late-arriving event has no observable effect: once resolved, the
/// dispatch is left exactly as it was and nothing further is reported.
pub proof fn lemma_late_events_discarded(d: DispatchView, es: Seq<EventView>)
    requires
        d.state is Resolved,
    ensures
        spec_run(d, es) == d,
        spec_reports(d, es) == 0,
    decreases es.len(),
{
    if es.len() > 0 {
        lemma_late_events_discarded(spec_step(d, es.first()), es.drop_first());
    }
}

/// Every successful dispatch ran its handler exactly once, with content
/// byte-identical to the admitted message: success is never reported for a
/// message the handler did not receive.
pub proof fn lemma_success_implies_invoked(d: DispatchView, es: Seq<EventView>)
    requires
        wf(d),
        d.state is Admitted,
        spec_run(d, es).outcome matches Some(OutcomeView::Success(_)),
    ensures
        spec_run(d, es).invocations == 1,
        spec_run(d, es).invoked_message == Some(d.message),
{
    lemma_single_invocation(d, es);
}

/// If the process timeout elapses while the handler is still running, the
/// dispatch resolves right there with the timeout failure, and that failure
/// is what is reported.
pub proof fn lemma_timeout_resolves(d: DispatchView)
    requires
        wf(d),
        d.state is Invoked,
        d.process_timeout is Some,
    ensures
        spec_step(d, EventView::Elapsed).state is Resolved,
        spec_step(d, EventView::Elapsed).outcome == Some(spec_timeout_outcome()),
        spec_emit(d, EventView::Elapsed) == Some(spec_timeout_outcome()),
{
}

impl Dispatch {
    /// Admit one inbound message for dispatch in the given mode, to run
    /// under the given execution-context token.
    pub fn new(
        mode: Mode,
        message: Message,
        context: ContextToken,
        process_timeout: Option<u64>,
    ) -> (d: Dispatch)
        ensures
            wf(d@),
            d@.mode == mode,
            d@.message == message@,
            d@.context == context,
            d@.process_timeout == process_timeout,
            d@.state == DispatchState::Admitted,
    {
        Dispatch {
            mode,
            message,
            context,
            process_timeout,
            state: DispatchState::Admitted,
            invocations: 0,
            invoked_message: None,
            outcome: None,
        }
    }

    /// Enter the foreign context and hand the handler its message. Returns
    /// the exact content the handler receives: byte-identical to the
    /// admitted message.
    pub fn invoke(&mut self) -> (msg: Message)
        requires
            wf(old(self)@),
            old(self)@.state == DispatchState::Admitted,
        ensures
            wf(final(self)@),
            final(self)@ == spec_step(old(self)@, EventView::Invoke),
            msg@ == old(self)@.message,
    {
        let msg = self.message.clone();
        self.state = DispatchState::Invoked;
        self.invocations = self.invocations + 1;
        self.invoked_message = Some(self.message.clone());
        msg
    }

    /// The foreign awaitable completed. If the dispatch still awaits it,
    /// the completion translates to the outcome, which is reported here
    /// once. A completion arriving after resolution (for instance after a
    /// timeout was already reported) is discarded: nothing changes and
    /// nothing is reported.
    pub fn complete(&mut self, c: ForeignCompletion) -> (r: Option<DispatchOutcome>)
        requires
            wf(old(self)@),
        ensures
            wf(final(self)@),
            final(self)@ == spec_step(old(self)@, EventView::Complete(c@)),
            match r {
                Some(o) => spec_emit(old(self)@, EventView::Complete(c@)) == Some(o@),
                None => spec_emit(old(self)@, EventView::Complete(c@)) is None,
            },
    {
        match self.state {
            DispatchState::Invoked => {
                let outcome = translate(self.mode, c);
                self.state = DispatchState::Resolved;
                self.outcome = Some(outcome.clone());
                Some(outcome)
            },
            _ => None,
        }
    }

    /// The process deadline elapsed. If the dispatch still awaits its
    /// handler and a process timeout was configured, the timeout failure is
    /// reported here once and the eventual foreign result will be
    /// discarded. Otherwise nothing changes.
    pub fn elapsed(&mut self) -> (r: Option<DispatchOutcome>)
        requires
            wf(old(self)@),
        ensures
            wf(final(self)@),
            final(self)@ == spec_step(old(self)@, EventView::Elapsed),
            match r {
                Some(o) => spec_emit(old(self)@, EventView::Elapsed) == Some(o@),
                None => spec_emit(old(self)@, EventView::Elapsed) is None,
            },
    {
        match (self.state, self.process_timeout) {
            (DispatchState::Invoked, Some(_)) => {
                let outcome = DispatchOutcome::Failure(
                    AppError::with_detail(
                        ErrorKind::Timeout,
                        "process timeout elapsed".to_string(),
                    ),
                );
                self.state = DispatchState::Resolved;
                self.outcome = Some(outcome.clone());
                Some(outcome)
            },
            _ => None,
        }
    }

    /// The foreign runtime could not be reached — scheduling onto its
    /// context failed, or the context was torn down mid-call. If the
    /// dispatch is not yet resolved it fails here with `BridgeUnavailable`,
    /// carrying the given detail; a resolved dispatch is left untouched.
    pub fn unreachable_context(&mut self, detail: String) -> (r: Option<DispatchOutcome>)
        requires
            wf(old(self)@),
        ensures
            wf(final(self)@),
            final(self)@ == spec_step(old(self)@, EventView::Unreachable(detail@)),
            match r {
                Some(o) => spec_emit(old(self)@, EventView::Unreachable(detail@)) == Some(o@),
                None => spec_emit(old(self)@, EventView::Unreachable(detail@)) is None,
            },
    {
        match self.state {
            DispatchState::Resolved => None,
            _ => {
                let outcome = DispatchOutcome::Failure(
                    AppError::with_detail(ErrorKind::BridgeUnavailable, detail),
                );
                self.state = DispatchState::Resolved;
                self.outcome = Some(outcome.clone());
                Some(outcome)
            },
        }
    }
}

} // verus!

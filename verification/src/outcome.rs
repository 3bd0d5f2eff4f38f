//! Foreign completions and the typed outcome of one dispatch.

use vstd::prelude::*;
use crate::errors::{AppError, AppErrorView};
use crate::message::{Message, MessageView};

verus! {

/// The two invocation modes of a dispatch.
#[derive(Clone, Copy, Debug, PartialEq, Eq, Structural)]
pub enum Mode {
    /// Fire-and-forget: the handler's return value is ignored beyond
    /// success or failure.
    Subscribe,
    /// Request/response: a successful handler return must decode to bytes.
    RequestResponse,
}

/// A value produced by the foreign handler, as seen at the boundary.
#[derive(Debug)]
pub enum ForeignValue {
    /// A raw byte sequence.
    Bytes(Vec<u8>),
    /// A text value.
    Text(String),
    /// A message-shaped wrapper whose body field carries bytes.
    MessageValue(Message),
    /// The foreign unit value.
    Unit,
    /// Any other shape, described for diagnostics.
    Other(String),
}

/// The mathematical value of a [`ForeignValue`].
pub enum ValueView {
    Bytes(Seq<u8>),
    Text(Seq<char>),
    MessageValue(MessageView),
    Unit,
    Other(Seq<char>),
}

impl View for ForeignValue {
    type V = ValueView;

    open spec fn view(&self) -> ValueView {
        match self {
            ForeignValue::Bytes(b) => ValueView::Bytes(b@),
            ForeignValue::Text(s) => ValueView::Text(s@),
            ForeignValue::MessageValue(m) => ValueView::MessageValue(m@),
            ForeignValue::Unit => ValueView::Unit,
            ForeignValue::Other(d) => ValueView::Other(d@),
        }
    }
}

/// How the foreign awaitable completed: resolved with a value, or rejected
/// with a stringified description of the raised condition.
#[derive(Debug)]
pub enum ForeignCompletion {
    Resolved(ForeignValue),
    Rejected(String),
}

/// The mathematical value of a [`ForeignCompletion`].
pub enum CompletionView {
    Resolved(ValueView),
    Rejected(Seq<char>),
}

impl View for ForeignCompletion {
    type V = CompletionView;

    open spec fn view(&self) -> CompletionView {
        match self {
            ForeignCompletion::Resolved(v) => CompletionView::Resolved(v@),
            ForeignCompletion::Rejected(d) => CompletionView::Rejected(d@),
        }
    }
}

/// What a successful dispatch yields: unit in subscribe mode, a byte
/// sequence in request/response mode.
#[derive(Debug)]
pub enum Output {
    Unit,
    Bytes(Vec<u8>),
}

impl Clone for Output {
    /// The copy carries byte-identical content.
    fn clone(&self) -> (r: Self)
        ensures
            r@ == self@,
    {
        match self {
            Output::Unit => Output::Unit,
            Output::Bytes(b) => Output::Bytes(crate::message::clone_bytes(b)),
        }
    }
}

/// The mathematical value of an [`Output`].
pub enum OutputView {
    Unit,
    Bytes(Seq<u8>),
}

impl View for Output {
    type V = OutputView;

    open spec fn view(&self) -> OutputView {
        match self {
            Output::Unit => OutputView::Unit,
            Output::Bytes(b) => OutputView::Bytes(b@),
        }
    }
}

/// Exactly one such value is reported per dispatch.
#[derive(Debug)]
pub enum DispatchOutcome {
    Success(Output),
    Failure(AppError),
}

impl Clone for DispatchOutcome {
    /// The copy reports the same outcome.
    fn clone(&self) -> (r: Self)
        ensures
            r@ == self@,
    {
        match self {
            DispatchOutcome::Success(o) => DispatchOutcome::Success(o.clone()),
            DispatchOutcome::Failure(e) => DispatchOutcome::Failure(e.clone()),
        }
    }
}

/// The mathematical value of a [`DispatchOutcome`].
pub enum OutcomeView {
    Success(OutputView),
    Failure(AppErrorView),
}

impl View for DispatchOutcome {
    type V = OutcomeView;

    open spec fn view(&self) -> OutcomeView {
        match self {
            DispatchOutcome::Success(o) => OutcomeView::Success(o@),
            DispatchOutcome::Failure(e) => OutcomeView::Failure(e@),
        }
    }
}

} // verus!

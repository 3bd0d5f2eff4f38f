//! Translation of a completed foreign awaitable into a dispatch outcome.

use vstd::prelude::*;
use crate::errors::{AppError, AppErrorView, ErrorKind};
use crate::outcome::{
    CompletionView, DispatchOutcome, ForeignCompletion, ForeignValue, Mode, OutcomeView, Output,
    OutputView, ValueView,
};

verus! {

/// The byte sequence a foreign value decodes to, if it has one: raw bytes
/// directly, or the body field of a message-shaped wrapper. Any other shape
/// yields none and is never coerced.
pub open spec fn spec_extract_bytes(v: ValueView) -> Option<Seq<u8>> {
    match v {
        ValueView::Bytes(b) => Some(b),
        ValueView::MessageValue(m) => Some(m.body),
        _ => None,
    }
}

/// The outcome that a completed foreign awaitable translates to.
///
/// A rejection becomes `Failure(HandlerFailed)` carrying the stringified
/// description. A resolution in subscribe mode succeeds with unit whatever
/// the value. A resolution in request/response mode succeeds with exactly
/// the bytes the value decodes to, or fails with `InvalidHandlerOutput`
/// when it decodes to none.
pub open spec fn spec_translate(mode: Mode, c: CompletionView) -> OutcomeView {
    match c {
        CompletionView::Rejected(detail) => OutcomeView::Failure(
            AppErrorView {
                message: Some(detail),
                description: None,
                error_type: ErrorKind::HandlerFailed,
            },
        ),
        CompletionView::Resolved(v) => match mode {
            Mode::Subscribe => OutcomeView::Success(OutputView::Unit),
            Mode::RequestResponse => match spec_extract_bytes(v) {
                Some(b) => OutcomeView::Success(OutputView::Bytes(b)),
                None => OutcomeView::Failure(
                    AppErrorView {
                        message: Some("RPC handler must return bytes"@),
                        description: None,
                        error_type: ErrorKind::InvalidHandlerOutput,
                    },
                ),
            },
        },
    }
}

/// Decode a foreign value to bytes where its shape allows it.
pub fn extract_bytes(v: ForeignValue) -> (r: Option<Vec<u8>>)
    ensures
        match r {
            Some(b) => spec_extract_bytes(v@) == Some(b@),
            None => spec_extract_bytes(v@) is None,
        },
{
    match v {
        ForeignValue::Bytes(b) => Some(b),
        ForeignValue::MessageValue(m) => Some(m.body),
        _ => None,
    }
}

/// Translate a foreign completion into the outcome for the given mode.
pub fn translate(mode: Mode, c: ForeignCompletion) -> (r: DispatchOutcome)
    ensures
        r@ == spec_translate(mode, c@),
{
    match c {
        ForeignCompletion::Rejected(detail) => DispatchOutcome::Failure(
            AppError::with_detail(ErrorKind::HandlerFailed, detail),
        ),
        ForeignCompletion::Resolved(v) => match mode {
            Mode::Subscribe => DispatchOutcome::Success(Output::Unit),
            Mode::RequestResponse => match extract_bytes(v) {
                Some(b) => DispatchOutcome::Success(Output::Bytes(b)),
                None => DispatchOutcome::Failure(
                    AppError::with_detail(
                        ErrorKind::InvalidHandlerOutput,
                        "RPC handler must return bytes".to_string(),
                    ),
                ),
            },
        },
    }
}

/// A request/response handler that produced a byte sequence has exactly
/// those bytes returned to the caller: round-trip identity, whether the
/// bytes came directly or through a message wrapper's body field.
pub proof fn lemma_bytes_round_trip(b: Seq<u8>)
    ensures
        spec_translate(Mode::RequestResponse, CompletionView::Resolved(ValueView::Bytes(b)))
            == OutcomeView::Success(OutputView::Bytes(b)),
{
}

/// A request/response handler that produced a value of any non-byte shape
/// has its dispatch fail with `InvalidHandlerOutput`; no bytes reach the
/// caller.
pub proof fn lemma_non_bytes_rejected(v: ValueView)
    requires
        spec_extract_bytes(v) is None,
    ensures
        spec_translate(Mode::RequestResponse, CompletionView::Resolved(v)) matches
            OutcomeView::Failure(e) && e.error_type == ErrorKind::InvalidHandlerOutput,
        !(spec_translate(Mode::RequestResponse, CompletionView::Resolved(v)) is Success),
{
}

} // verus!

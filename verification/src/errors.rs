//! Error taxonomy carried across the bridge boundary.

use vstd::prelude::*;

verus! {

/// What went wrong with a registration or a dispatch.
#[derive(Clone, Copy, Debug, PartialEq, Eq, Structural)]
pub enum ErrorKind {
    /// The foreign handler itself raised or rejected.
    HandlerFailed,
    /// The handler returned a value of the wrong shape in request/response mode.
    InvalidHandlerOutput,
    /// The process timeout elapsed before the handler resolved.
    Timeout,
    /// The foreign execution context could not be reached at all.
    BridgeUnavailable,
    /// A registration or dispatch was attempted while draining or disposed.
    UnexpectedResultError,
}

/// A cross-boundary error value: an optional message, an optional longer
/// description, and the kind that classifies it.
#[derive(Debug)]
pub struct AppError {
    pub message: Option<String>,
    pub description: Option<String>,
    pub error_type: ErrorKind,
}

/// The mathematical value of an [`AppError`].
pub struct AppErrorView {
    pub message: Option<Seq<char>>,
    pub description: Option<Seq<char>>,
    pub error_type: ErrorKind,
}

impl View for AppError {
    type V = AppErrorView;

    open spec fn view(&self) -> AppErrorView {
        AppErrorView {
            message: match self.message {
                Some(m) => Some(m@),
                None => None,
            },
            description: match self.description {
                Some(d) => Some(d@),
                None => None,
            },
            error_type: self.error_type,
        }
    }
}

impl Clone for AppError {
    /// The copy carries the same texts and the same kind.
    fn clone(&self) -> (r: Self)
        ensures
            r@ == self@,
    {
        AppError {
            message: match &self.message {
                Some(m) => Some(m.clone()),
                None => None,
            },
            description: match &self.description {
                Some(d) => Some(d.clone()),
                None => None,
            },
            error_type: self.error_type,
        }
    }
}

impl AppError {
    /// An error of the given kind whose message is the given detail text.
    pub fn with_detail(error_type: ErrorKind, detail: String) -> (r: AppError)
        ensures
            r@.error_type == error_type,
            r@.message == Some(detail@),
            r@.description is None,
    {
        AppError { message: Some(detail), description: None, error_type }
    }

    /// An error of the given kind carrying no text.
    pub fn bare(error_type: ErrorKind) -> (r: AppError)
        ensures
            r@.error_type == error_type,
            r@.message is None,
            r@.description is None,
    {
        AppError { message: None, description: None, error_type }
    }

    /// The human-readable detail of the error: its message when it has
    /// one, else its description, else nothing.
    pub fn text(&self) -> (r: String)
        ensures
            r@ == (match self@.message {
                Some(m) => m,
                None => match self@.description {
                    Some(d) => d,
                    None => Seq::<char>::empty(),
                },
            }),
    {
        match &self.message {
            Some(m) => m.clone(),
            None => match &self.description {
                Some(d) => d.clone(),
                None => String::new(),
            },
        }
    }
}

} // verus!

//! What can go wrong between this library and the broker.

use crate::peripheral::bluez::value::Kind;
use vstd::prelude::*;

verus! {

/// The broker's refusal of a call, or the transport's failure to carry it:
/// the name of the error and its message, where there is one.
#[derive(Clone, Debug, PartialEq, Eq)]
pub struct Rejection {
    pub name: Option<String>,
    pub message: Option<String>,
}

/// What a [`Rejection`] holds, as sequences of characters.
pub struct RejectionView {
    pub name: Option<Seq<char>>,
    pub message: Option<Seq<char>>,
}

impl View for Rejection {
    type V = RejectionView;

    open spec fn view(&self) -> RejectionView {
        RejectionView { name: self.name.deep_view(), message: self.message.deep_view() }
    }
}

impl DeepView for Rejection {
    type V = RejectionView;

    open spec fn deep_view(&self) -> RejectionView {
        self@
    }
}

/// A call that did not give what was asked of it.
#[derive(Clone, Debug, PartialEq, Eq)]
pub enum ProtocolError {
    /// The call was refused or did not get through.
    Rejected(Rejection),
    /// The answer held a value of another shape than the one asked for.
    TypeMismatch { expected: Kind, found: Kind },
}

/// What a [`ProtocolError`] holds.
pub enum ProtocolErrorView {
    Rejected(RejectionView),
    TypeMismatch { expected: Kind, found: Kind },
}

impl View for ProtocolError {
    type V = ProtocolErrorView;

    open spec fn view(&self) -> ProtocolErrorView {
        match self {
            ProtocolError::Rejected(rejection) => ProtocolErrorView::Rejected(rejection@),
            ProtocolError::TypeMismatch { expected, found } => ProtocolErrorView::TypeMismatch {
                expected: *expected,
                found: *found,
            },
        }
    }
}

impl DeepView for ProtocolError {
    type V = ProtocolErrorView;

    open spec fn deep_view(&self) -> ProtocolErrorView {
        self@
    }
}

/// An operation of this library that failed.
#[derive(Clone, Debug, PartialEq, Eq)]
pub enum Error {
    /// No managed object can serve as the adapter.
    NotFound,
    /// A call to the broker failed.
    Protocol(ProtocolError),
}

/// What an [`Error`] holds.
pub enum ErrorView {
    NotFound,
    Protocol(ProtocolErrorView),
}

impl View for Error {
    type V = ErrorView;

    open spec fn view(&self) -> ErrorView {
        match self {
            Error::NotFound => ErrorView::NotFound,
            Error::Protocol(e) => ErrorView::Protocol(e@),
        }
    }
}

impl DeepView for Error {
    type V = ErrorView;

    open spec fn deep_view(&self) -> ErrorView {
        self@
    }
}

/// What a result holds on either side, each taken by its view.
pub open spec fn result_view<A: DeepView, B: DeepView>(r: Result<A, B>) -> Result<A::V, B::V> {
    match r {
        Ok(value) => Ok(value.deep_view()),
        Err(error) => Err(error.deep_view()),
    }
}

} // verus!

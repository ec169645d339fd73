//! Method calls as they are handed to the broker.

use crate::peripheral::bluez::value::Value;
use crate::peripheral::bluez::value::ValueView;
use vstd::prelude::*;

verus! {

/// One argument of a method call.
#[derive(Clone, Debug, PartialEq, Eq)]
pub enum Argument {
    /// A plain text.
    Str(String),
    /// A value wrapped so that its type travels with it.
    Variant(Value),
}

/// What an [`Argument`] holds.
pub enum ArgumentView {
    Str(Seq<char>),
    Variant(ValueView),
}

impl View for Argument {
    type V = ArgumentView;

    open spec fn view(&self) -> ArgumentView {
        match self {
            Argument::Str(s) => ArgumentView::Str(s@),
            Argument::Variant(value) => ArgumentView::Variant(value@),
        }
    }
}

impl DeepView for Argument {
    type V = ArgumentView;

    open spec fn deep_view(&self) -> ArgumentView {
        self@
    }
}

/// A method call: the object it is addressed to, the interface and the
/// method that it names, and its arguments in order.
#[derive(Clone, Debug, PartialEq, Eq)]
pub struct MethodCall {
    pub path: String,
    pub interface: String,
    pub member: String,
    pub arguments: Vec<Argument>,
}

/// What a [`MethodCall`] holds.
pub struct MethodCallView {
    pub path: Seq<char>,
    pub interface: Seq<char>,
    pub member: Seq<char>,
    pub arguments: Seq<ArgumentView>,
}

impl View for MethodCall {
    type V = MethodCallView;

    open spec fn view(&self) -> MethodCallView {
        MethodCallView {
            path: self.path@,
            interface: self.interface@,
            member: self.member@,
            arguments: self.arguments.deep_view(),
        }
    }
}

impl DeepView for MethodCall {
    type V = MethodCallView;

    open spec fn deep_view(&self) -> MethodCallView {
        self@
    }
}

} // verus!

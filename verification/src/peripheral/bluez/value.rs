//! Property values as the broker hands them over: typed only at run time.

use crate::peripheral::bluez::error::result_view;
use crate::peripheral::bluez::error::ProtocolError;
use crate::peripheral::bluez::error::ProtocolErrorView;
use vstd::prelude::*;

verus! {

/// The shape of a [`Value`].
#[derive(Clone, Copy, Debug, PartialEq, Eq, Structural)]
pub enum Kind {
    Bool,
    Byte,
    Int16,
    UInt16,
    Int32,
    UInt32,
    Int64,
    UInt64,
    Str,
    Other,
}

impl View for Kind {
    type V = Kind;

    open spec fn view(&self) -> Kind {
        *self
    }
}

impl DeepView for Kind {
    type V = Kind;

    open spec fn deep_view(&self) -> Kind {
        *self
    }
}

/// A property value whose type is known only once it has arrived.
#[derive(Clone, Debug, PartialEq, Eq)]
pub enum Value {
    /// A truth value.
    Bool(bool),
    /// An integer of the width and sign that its name gives.
    Byte(u8),
    Int16(i16),
    UInt16(u16),
    Int32(i32),
    UInt32(u32),
    Int64(i64),
    UInt64(u64),
    /// A text.
    Str(String),
    /// A value of a shape that no operation of this library reads.
    Other,
}

/// What a [`Value`] holds, with its text as a sequence of characters.
pub enum ValueView {
    Bool(bool),
    Byte(u8),
    Int16(i16),
    UInt16(u16),
    Int32(i32),
    UInt32(u32),
    Int64(i64),
    UInt64(u64),
    Str(Seq<char>),
    Other,
}

impl ValueView {
    /// The shape of the value.
    pub open spec fn kind(self) -> Kind {
        match self {
            ValueView::Bool(_) => Kind::Bool,
            ValueView::Byte(_) => Kind::Byte,
            ValueView::Int16(_) => Kind::Int16,
            ValueView::UInt16(_) => Kind::UInt16,
            ValueView::Int32(_) => Kind::Int32,
            ValueView::UInt32(_) => Kind::UInt32,
            ValueView::Int64(_) => Kind::Int64,
            ValueView::UInt64(_) => Kind::UInt64,
            ValueView::Str(_) => Kind::Str,
            ValueView::Other => Kind::Other,
        }
    }

    /// The truth value that the value holds, or how its shape differs.
    pub open spec fn as_bool(self) -> Result<bool, ProtocolErrorView> {
        match self {
            ValueView::Bool(b) => Ok(b),
            _ => Err(ProtocolErrorView::TypeMismatch { expected: Kind::Bool, found: self.kind() }),
        }
    }

    /// The text that the value holds, or how its shape differs.
    pub open spec fn as_str(self) -> Result<Seq<char>, ProtocolErrorView> {
        match self {
            ValueView::Str(s) => Ok(s),
            _ => Err(ProtocolErrorView::TypeMismatch { expected: Kind::Str, found: self.kind() }),
        }
    }
}

impl View for Value {
    type V = ValueView;

    open spec fn view(&self) -> ValueView {
        match self {
            Value::Bool(b) => ValueView::Bool(*b),
            Value::Byte(n) => ValueView::Byte(*n),
            Value::Int16(n) => ValueView::Int16(*n),
            Value::UInt16(n) => ValueView::UInt16(*n),
            Value::Int32(n) => ValueView::Int32(*n),
            Value::UInt32(n) => ValueView::UInt32(*n),
            Value::Int64(n) => ValueView::Int64(*n),
            Value::UInt64(n) => ValueView::UInt64(*n),
            Value::Str(s) => ValueView::Str(s@),
            Value::Other => ValueView::Other,
        }
    }
}

impl DeepView for Value {
    type V = ValueView;

    open spec fn deep_view(&self) -> ValueView {
        self@
    }
}

impl Value {
    /// The shape of the value.
    pub fn kind(&self) -> (kind: Kind)
        ensures
            kind == self@.kind(),
    {
        match self {
            Value::Bool(_) => Kind::Bool,
            Value::Byte(_) => Kind::Byte,
            Value::Int16(_) => Kind::Int16,
            Value::UInt16(_) => Kind::UInt16,
            Value::Int32(_) => Kind::Int32,
            Value::UInt32(_) => Kind::UInt32,
            Value::Int64(_) => Kind::Int64,
            Value::UInt64(_) => Kind::UInt64,
            Value::Str(_) => Kind::Str,
            Value::Other => Kind::Other,
        }
    }

    /// Takes the value as a truth value. A value of any other shape is a type
    /// mismatch: nothing is read into it.
    pub fn into_bool(self) -> (r: Result<bool, ProtocolError>)
        ensures
            result_view(r) == self@.as_bool(),
    {
        match self {
            Value::Bool(b) => Ok(b),
            other => Err(ProtocolError::TypeMismatch { expected: Kind::Bool, found: other.kind() }),
        }
    }

    /// Takes the value as a text. A value of any other shape is a type
    /// mismatch: nothing is read into it.
    pub fn into_string(self) -> (r: Result<String, ProtocolError>)
        ensures
            result_view(r) == self@.as_str(),
    {
        match self {
            Value::Str(s) => Ok(s),
            other => Err(ProtocolError::TypeMismatch { expected: Kind::Str, found: other.kind() }),
        }
    }
}

} // verus!

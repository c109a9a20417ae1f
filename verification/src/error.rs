//! The four ways in which a call into the host can fail.

use vstd::prelude::*;
use vstd::string::*;
use crate::value::{
    decimal_text, kind_of, render_decimal, text_of, Value, ValueKind, ValueView,
};

verus! {

/// The engine was driven out of its lifecycle.
#[derive(Debug, Clone, Copy, PartialEq, Eq, Structural)]
pub enum InitError {
    /// The engine has been initialized in this process before.
    AlreadyInitialized,
    /// The operation needs an initialized engine and there is none.
    NotInitialized,
}

/// The native type that a script value was to be converted to.
#[derive(Debug, Clone, Copy, PartialEq, Eq, Structural)]
pub enum NativeType {
    Text,
    Unsigned32,
}

/// A script value has no representation in the native type asked for.
#[derive(Debug, Clone, Copy, PartialEq, Eq, Structural)]
pub struct ConversionError {
    pub wanted: NativeType,
    pub found: ValueKind,
}

/// The engine rejected a source text.
#[derive(Debug, PartialEq, Eq)]
pub struct CompileError {
    pub line: u32,
    pub column: u32,
    pub message: String,
}

/// What a `CompileError` holds, as plain values.
pub struct CompileErrorView {
    pub line: u32,
    pub column: u32,
    pub message: Seq<char>,
}

impl View for CompileError {
    type V = CompileErrorView;

    open spec fn view(&self) -> CompileErrorView {
        CompileErrorView { line: self.line, column: self.column, message: self.message@ }
    }
}

/// A script ended with an error that nothing in it caught.
#[derive(Debug, PartialEq, Eq)]
pub struct RuntimeError {
    pub thrown: Value,
}

/// What a `RuntimeError` holds, as plain values.
pub struct RuntimeErrorView {
    pub thrown: ValueView,
}

impl View for RuntimeError {
    type V = RuntimeErrorView;

    open spec fn view(&self) -> RuntimeErrorView {
        RuntimeErrorView { thrown: self.thrown@ }
    }
}

/// The word by which a message names a kind of value.
pub open spec fn kind_word(kind: ValueKind) -> Seq<char> {
    match kind {
        ValueKind::Undefined => "undefined"@,
        ValueKind::Integer => "integer"@,
        ValueKind::Text => "string"@,
        ValueKind::Function => "function"@,
        ValueKind::Opaque => "opaque value"@,
    }
}

/// The word by which a message names a native type.
pub open spec fn native_word(wanted: NativeType) -> Seq<char> {
    match wanted {
        NativeType::Text => "string"@,
        NativeType::Unsigned32 => "u32"@,
    }
}

/// The text of a conversion failure: `cannot convert <kind> to <type>`.
pub open spec fn conversion_message(e: ConversionError) -> Seq<char> {
    "cannot convert "@ + kind_word(e.found) + " to "@ + native_word(e.wanted)
}

fn kind_name(kind: ValueKind) -> (r: &'static str)
    ensures
        r@ == kind_word(kind),
{
    match kind {
        ValueKind::Undefined => "undefined",
        ValueKind::Integer => "integer",
        ValueKind::Text => "string",
        ValueKind::Function => "function",
        ValueKind::Opaque => "opaque value",
    }
}

fn native_name(wanted: NativeType) -> (r: &'static str)
    ensures
        r@ == native_word(wanted),
{
    match wanted {
        NativeType::Text => "string",
        NativeType::Unsigned32 => "u32",
    }
}

/// The text by which a thrown value is named: its native text where it has
/// one, else the word for its kind.
pub open spec fn thrown_text(thrown: ValueView) -> Seq<char> {
    match text_of(thrown) {
        Some(text) => text,
        None => kind_word(kind_of(thrown)),
    }
}

/// A compile error in one line: `<line>:<column>: <message>`.
pub open spec fn compile_error_line(e: CompileErrorView) -> Seq<char> {
    decimal_text(e.line as nat) + ":"@ + decimal_text(e.column as nat) + ": "@ + e.message
}

/// A runtime error in one line: `uncaught: <thrown>`.
pub open spec fn runtime_error_line(e: RuntimeErrorView) -> Seq<char> {
    "uncaught: "@ + thrown_text(e.thrown)
}

impl CompileError {
    /// The error in one line, place first.
    pub fn describe(&self) -> (r: String)
        ensures
            r@ == compile_error_line(self@),
    {
        let mut text = render_decimal(self.line as u64);
        text.append(":");
        text.append(render_decimal(self.column as u64).as_str());
        text.append(": ");
        text.append(self.message.as_str());
        text
    }
}

impl RuntimeError {
    /// The error in one line.
    pub fn describe(&self) -> (r: String)
        ensures
            r@ == runtime_error_line(self@),
    {
        let mut text = String::from_str("uncaught: ");
        match self.thrown.to_rust_string() {
            Ok(thrown) => text.append(thrown.as_str()),
            Err(e) => text.append(kind_name(e.found)),
        }
        text
    }
}

impl ConversionError {
    /// The failure in words, as a native binding hands it to the script.
    pub fn message(&self) -> (r: String)
        ensures
            r@ == conversion_message(*self),
    {
        let mut text = String::from_str("cannot convert ");
        text.append(kind_name(self.found));
        text.append(" to ");
        text.append(native_name(self.wanted));
        text
    }
}

} // verus!

//! The protocol between a running script and the native bindings of the host:
//! what a native function is handed, what it hands back, and what the embedder
//! is asked to do in between.

use vstd::prelude::*;
use crate::handle::{ContextHandle, FunctionHandle, GetterHandle, SetterHandle};
use crate::value::{Value, ValueView};

verus! {

/// Where a native call runs. A scope is handed out with one call and means
/// nothing once that call has returned.
#[derive(Debug, Clone, Copy, PartialEq, Eq, Structural)]
pub struct Scope {
    pub context: ContextHandle,
}

/// The values of a sequence of script values, in order.
pub open spec fn values_view(values: Seq<Value>) -> Seq<ValueView> {
    values.map_values(|v: Value| v@)
}

/// The argument at position `i` as a native function sees it: the value the
/// script supplied there, or undefined where it supplied none.
pub open spec fn argument_at(args: Seq<ValueView>, i: int) -> ValueView {
    if 0 <= i < args.len() {
        args[i]
    } else {
        ValueView::Undefined
    }
}

/// The positional arguments of one call, as the script passed them.
#[derive(Debug, PartialEq, Eq)]
pub struct Arguments {
    pub values: Vec<Value>,
}

impl View for Arguments {
    type V = Seq<ValueView>;

    open spec fn view(&self) -> Seq<ValueView> {
        values_view(self.values@)
    }
}

impl Arguments {
    /// The arguments of a call, in the order in which the script wrote them.
    pub fn new(values: Vec<Value>) -> (r: Arguments)
        ensures
            r@ == values_view(values@),
            r.values == values,
    {
        Arguments { values }
    }

    /// How many arguments the script passed.
    pub fn length(&self) -> (r: usize)
        ensures
            r == self@.len(),
    {
        self.values.len()
    }

    /// The argument at position `i`, or undefined if the script passed fewer.
    pub fn get(&self, i: usize) -> (r: Value)
        ensures
            r@ == argument_at(self@, i as int),
    {
        if i < self.values.len() {
            self.values[i].clone()
        } else {
            Value::Undefined
        }
    }
}

/// What a script receives from a slot: the value written, or undefined if
/// nothing was written.
pub open spec fn slot_value(slot: Option<ValueView>) -> ValueView {
    match slot {
        Some(v) => v,
        None => ValueView::Undefined,
    }
}

/// The output slot of one native call.
#[derive(Debug, PartialEq, Eq)]
pub struct ReturnValue {
    pub slot: Option<Value>,
}

impl View for ReturnValue {
    type V = Option<ValueView>;

    open spec fn view(&self) -> Option<ValueView> {
        match self.slot {
            Some(v) => Some(v@),
            None => None,
        }
    }
}

impl ReturnValue {
    /// A slot into which nothing has been written.
    pub fn new() -> (r: ReturnValue)
        ensures
            r@ is None,
    {
        ReturnValue { slot: None }
    }

    /// Writes `value` into the slot, in place of what was there.
    pub fn set(&mut self, value: Value)
        ensures
            final(self)@ == Some(value@),
    {
        self.slot = Some(value);
    }

    /// Whether anything has been written.
    pub fn is_set(&self) -> (r: bool)
        ensures
            r == (self@ is Some),
    {
        self.slot.is_some()
    }

    /// The value that the script receives.
    pub fn get(&self) -> (r: Value)
        ensures
            r@ == slot_value(self@),
    {
        match &self.slot {
            Some(v) => v.clone(),
            None => Value::Undefined,
        }
    }
}

/// What a running script asks of the host.
#[allow(inconsistent_fields)]
#[derive(Debug, PartialEq, Eq)]
pub enum Request {
    /// The script reads the global `name`.
    Read { name: String },
    /// The script writes `value` to the global `name`.
    Write { name: String, value: Value },
    /// The script calls the global `name` with `args`.
    Call { name: String, args: Vec<Value> },
}

/// What a `Request` holds, as mathematical values.
#[allow(inconsistent_fields)]
pub enum RequestView {
    Read { name: Seq<char> },
    Write { name: Seq<char>, value: ValueView },
    Call { name: Seq<char>, args: Seq<ValueView> },
}

impl View for Request {
    type V = RequestView;

    open spec fn view(&self) -> RequestView {
        match self {
            Request::Read { name } => RequestView::Read { name: name@ },
            Request::Write { name, value } => RequestView::Write { name: name@, value: value@ },
            Request::Call { name, args } => RequestView::Call {
                name: name@,
                args: values_view(args@),
            },
        }
    }
}

/// One call of a native binding, ready for the embedder to make.
#[allow(inconsistent_fields)]
#[derive(Debug, PartialEq, Eq)]
pub enum Invocation {
    /// Call the native function with these arguments and a fresh output slot.
    Function { scope: Scope, handle: FunctionHandle, args: Arguments },
    /// Call the getter for this property with a fresh output slot.
    Getter { scope: Scope, handle: GetterHandle, property: String },
    /// Call the setter for this property with the new value.
    Setter { scope: Scope, handle: SetterHandle, property: String, value: Value },
}

/// What an `Invocation` holds, as mathematical values.
#[allow(inconsistent_fields)]
pub enum InvocationView {
    Function { scope: Scope, handle: FunctionHandle, args: Seq<ValueView> },
    Getter { scope: Scope, handle: GetterHandle, property: Seq<char> },
    Setter { scope: Scope, handle: SetterHandle, property: Seq<char>, value: ValueView },
}

impl View for Invocation {
    type V = InvocationView;

    open spec fn view(&self) -> InvocationView {
        match self {
            Invocation::Function { scope, handle, args } => InvocationView::Function {
                scope: *scope,
                handle: *handle,
                args: args@,
            },
            Invocation::Getter { scope, handle, property } => InvocationView::Getter {
                scope: *scope,
                handle: *handle,
                property: property@,
            },
            Invocation::Setter { scope, handle, property, value } => InvocationView::Setter {
                scope: *scope,
                handle: *handle,
                property: property@,
                value: value@,
            },
        }
    }
}

/// How a native call ended.
#[derive(Debug, PartialEq, Eq)]
pub enum NativeOutcome {
    /// The binding returned. A setter has no output slot: what stands in the
    /// slot of a setter call is not looked at.
    Returned(ReturnValue),
    /// The binding failed and raises this value in the script.
    Threw(Value),
}

/// What a `NativeOutcome` holds, as mathematical values.
pub enum NativeOutcomeView {
    Returned(Option<ValueView>),
    Threw(ValueView),
}

impl View for NativeOutcome {
    type V = NativeOutcomeView;

    open spec fn view(&self) -> NativeOutcomeView {
        match self {
            NativeOutcome::Returned(slot) => NativeOutcomeView::Returned(slot@),
            NativeOutcome::Threw(v) => NativeOutcomeView::Threw(v@),
        }
    }
}

/// What the embedder does next for the script that is running.
#[derive(Debug, PartialEq, Eq)]
pub enum Action {
    /// Keep the script suspended, make this native call, and report how it
    /// ended before anything else.
    Invoke(Invocation),
    /// Resume the script with this value as the result of what it asked for.
    Resume(Value),
    /// Resume the script; there is no value to hand back.
    Continue,
    /// Raise this value in the script at the point where it called out.
    Throw(Value),
    /// The host holds nothing under that name: the engine goes on by its own
    /// rules.
    Defer,
}

/// What an `Action` holds, as mathematical values.
pub enum ActionView {
    Invoke(InvocationView),
    Resume(ValueView),
    Continue,
    Throw(ValueView),
    Defer,
}

impl View for Action {
    type V = ActionView;

    open spec fn view(&self) -> ActionView {
        match self {
            Action::Invoke(invocation) => ActionView::Invoke(invocation@),
            Action::Resume(v) => ActionView::Resume(v@),
            Action::Continue => ActionView::Continue,
            Action::Throw(v) => ActionView::Throw(v@),
            Action::Defer => ActionView::Defer,
        }
    }
}

} // verus!

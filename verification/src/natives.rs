//! Native bindings that ship with the host: a function that answers every call
//! with the same string, and an accessor pair over a number that the embedder
//! owns.

use vstd::prelude::*;
use vstd::string::*;
use crate::binding::{
    argument_at, ActionView, Arguments, NativeOutcome, NativeOutcomeView, ReturnValue, Scope,
};
use crate::error::{conversion_message, ConversionError};
use crate::script::{resumption_of, Phase};
use crate::value::{text_conversion, uint32_conversion, uint32_of, Value, ValueView};

verus! {

/// How a native call ended, given what its own logic came to and the slot it
/// wrote: a failure is raised in the script, with its message as the value
/// thrown.
pub open spec fn settled<T>(
    result: Result<T, ConversionError>,
    slot: Option<ValueView>,
) -> NativeOutcomeView {
    match result {
        Ok(_) => NativeOutcomeView::Returned(slot),
        Err(e) => NativeOutcomeView::Threw(ValueView::Str(conversion_message(e))),
    }
}

/// Turns the end of a native binding's own logic into what the script sees. A
/// failure is never dropped: it is raised in the script.
pub fn settle<T>(result: Result<T, ConversionError>, retval: ReturnValue) -> (r: NativeOutcome)
    ensures
        r@ == settled(result, retval@),
{
    match result {
        Ok(_) => NativeOutcome::Returned(retval),
        Err(e) => NativeOutcome::Threw(Value::Str(e.message())),
    }
}

/// The string that `doit` answers with.
pub open spec fn doit_answer() -> Seq<char> {
    "ok"@
}

/// The text that `doit` takes from its first argument. Where the script
/// passed none, or passed undefined, the text is the word `undefined`: this is
/// looked at before anything is converted. Any other argument is converted.
pub open spec fn doit_text(argument: ValueView) -> Result<Seq<char>, ConversionError> {
    if argument == ValueView::Undefined {
        Ok("undefined"@)
    } else {
        text_conversion(argument)
    }
}

/// What `doit` leaves in its output slot: its answer where it has a text for
/// its first argument, else what was there.
pub open spec fn doit_slot(args: Seq<ValueView>, slot: Option<ValueView>) -> Option<ValueView> {
    if doit_text(argument_at(args, 0)) is Ok {
        Some(ValueView::Str(doit_answer()))
    } else {
        slot
    }
}

/// The native function `doit(x)`. It takes the text of its first argument,
/// which it returns to the embedder, and answers the script with the fixed
/// string `ok`. A call without an argument is answered like any other. Only
/// where the argument is there and has no text (a function of the host, or a
/// value that the engine could not convert) it fails and writes nothing.
pub fn doit(_scope: &Scope, args: &Arguments, retval: &mut ReturnValue) -> (r: Result<
    String,
    ConversionError,
>)
    ensures
        match r {
            Ok(text) => doit_text(argument_at(args@, 0)) == Ok::<Seq<char>, ConversionError>(
                text@,
            ),
            Err(e) => doit_text(argument_at(args@, 0)) == Err::<Seq<char>, ConversionError>(e)
                && *final(retval) == *old(retval),
        },
        final(retval)@ == doit_slot(args@, old(retval)@),
        argument_at(args@, 0) == ValueView::Undefined ==> r is Ok && final(retval)@ == Some(
            ValueView::Str(doit_answer()),
        ),
{
    let first = args.get(0);
    let seen = if first.is_undefined() {
        Ok(String::from_str("undefined"))
    } else {
        first.to_rust_string()
    };
    match seen {
        Ok(text) => {
            retval.set(Value::new_string("ok"));
            Ok(text)
        },
        Err(e) => Err(e),
    }
}

/// What a read of the `age` property yields while the embedder's number is
/// `age`.
pub open spec fn age_read(age: u32) -> ValueView {
    ValueView::Integer(age as int)
}

/// The embedder's number after the script assigned `value` to the `age`
/// property: the value as a `u32` where it has one, else the number as it was.
pub open spec fn age_written(age: u32, value: ValueView) -> u32 {
    match uint32_of(value) {
        Some(n) => n,
        None => age,
    }
}

/// The getter of the `age` property: writes the embedder's number into the
/// output slot.
pub fn age_getter(age: &u32, _scope: &Scope, _property: &str, retval: &mut ReturnValue)
    ensures
        final(retval)@ == Some(age_read(*age)),
{
    retval.set(Value::from_unsigned(*age));
}

/// The setter of the `age` property: stores the new value in the embedder's
/// number. Where the value is no `u32` it fails and leaves the number alone.
pub fn age_setter(age: &mut u32, _scope: &Scope, _property: &str, value: &Value) -> (r: Result<
    u32,
    ConversionError,
>)
    ensures
        r == uint32_conversion(value@),
        *final(age) == age_written(*old(age), value@),
{
    match value.uint32_value() {
        Ok(n) => {
            *age = n;
            Ok(n)
        },
        Err(e) => Err(e),
    }
}

/// Whenever `doit` has a text for its first argument, and always where the
/// script passed none, the script that called it resumes with the string
/// `ok`. Where the argument is there and has no text, the failure is raised in
/// the script.
pub proof fn lemma_doit_answers_ok(args: Seq<ValueView>)
    ensures
        args.len() == 0 ==> doit_text(argument_at(args, 0)) is Ok,
        doit_text(argument_at(args, 0)) is Ok ==> resumption_of(
            Phase::AwaitingFunction,
            settled(doit_text(argument_at(args, 0)), doit_slot(args, None)),
        ) == ActionView::Resume(ValueView::Str(doit_answer())),
        doit_text(argument_at(args, 0)) matches Err(e) ==> resumption_of(
            Phase::AwaitingFunction,
            settled(doit_text(argument_at(args, 0)), doit_slot(args, None)),
        ) == ActionView::Throw(ValueView::Str(conversion_message(e))),
{
}

/// A read of `age` after a write of a value that is a `u32` yields that value:
/// the getter sees what the setter stored, whatever the number was before. The
/// script goes on after the write, and resumes from the read with the value
/// it wrote.
pub proof fn lemma_age_read_after_write(age: u32, value: ValueView)
    requires
        uint32_of(value) is Some,
    ensures
        age_read(age_written(age, value)) == value,
        resumption_of(
            Phase::AwaitingSetter,
            settled(uint32_conversion(value), None),
        ) == ActionView::Continue,
        resumption_of(
            Phase::AwaitingGetter,
            NativeOutcomeView::Returned(Some(age_read(age_written(age, value)))),
        ) == ActionView::Resume(value),
{
}

/// A write of a value that is no `u32` changes nothing, and is raised in the
/// script: the failure is not passed over.
pub proof fn lemma_age_write_of_other_value_fails(age: u32, value: ValueView)
    requires
        uint32_of(value) is None,
    ensures
        age_written(age, value) == age,
        uint32_conversion(value) matches Err(e) && resumption_of(
            Phase::AwaitingSetter,
            settled(uint32_conversion(value), None),
        ) == ActionView::Throw(ValueView::Str(conversion_message(e))),
{
}

} // verus!

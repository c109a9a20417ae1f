//! Script values as the host sees them, and their conversion to native types.

use vstd::prelude::*;
use vstd::string::*;
use crate::error::{ConversionError, NativeType};
use crate::handle::FunctionHandle;

verus! {

/// The kinds of value that cross the boundary between script and host.
#[derive(Debug, Clone, Copy, PartialEq, Eq, Structural)]
pub enum ValueKind {
    Undefined,
    Integer,
    Text,
    Function,
    Opaque,
}

/// A script value, held by the host as plain data.
#[derive(Debug, PartialEq, Eq)]
pub enum Value {
    /// What a script sees where nothing was supplied or written.
    Undefined,
    /// A whole number.
    Integer(i64),
    /// A string.
    Str(String),
    /// A function of the script that runs a native function. This is what the
    /// host holds under a bound name; a function that reaches the host from
    /// the engine arrives as an opaque value.
    Function(FunctionHandle),
    /// Any other value of the engine: a boolean, null, a number that is not
    /// whole, an object. The host cannot take it apart; it carries the text
    /// that the engine converts the value to, where the engine has one.
    Opaque(Option<String>),
}

/// What a `Value` holds, as mathematical values.
pub enum ValueView {
    Undefined,
    Integer(int),
    Str(Seq<char>),
    Function(FunctionHandle),
    Opaque(Option<Seq<char>>),
}

impl View for Value {
    type V = ValueView;

    open spec fn view(&self) -> ValueView {
        match self {
            Value::Undefined => ValueView::Undefined,
            Value::Integer(n) => ValueView::Integer(*n as int),
            Value::Str(s) => ValueView::Str(s@),
            Value::Function(h) => ValueView::Function(*h),
            Value::Opaque(text) => ValueView::Opaque(
                match text {
                    Some(t) => Some(t@),
                    None => None,
                },
            ),
        }
    }
}

impl Clone for Value {
    fn clone(&self) -> (r: Self)
        ensures
            r@ == self@,
    {
        match self {
            Value::Undefined => Value::Undefined,
            Value::Integer(n) => Value::Integer(*n),
            Value::Str(s) => Value::Str(s.clone()),
            Value::Function(h) => Value::Function(*h),
            Value::Opaque(text) => Value::Opaque(
                match text {
                    Some(t) => Some(t.clone()),
                    None => None,
                },
            ),
        }
    }
}

/// The kind of a value.
pub open spec fn kind_of(v: ValueView) -> ValueKind {
    match v {
        ValueView::Undefined => ValueKind::Undefined,
        ValueView::Integer(_) => ValueKind::Integer,
        ValueView::Str(_) => ValueKind::Text,
        ValueView::Function(_) => ValueKind::Function,
        ValueView::Opaque(_) => ValueKind::Opaque,
    }
}

/// The character that writes the digit `d`.
pub open spec fn digit_char(d: nat) -> char {
    if d == 0 {
        '0'
    } else if d == 1 {
        '1'
    } else if d == 2 {
        '2'
    } else if d == 3 {
        '3'
    } else if d == 4 {
        '4'
    } else if d == 5 {
        '5'
    } else if d == 6 {
        '6'
    } else if d == 7 {
        '7'
    } else if d == 8 {
        '8'
    } else {
        '9'
    }
}

/// The decimal digits of `n`, most significant first, without leading zeros.
pub open spec fn decimal_text(n: nat) -> Seq<char>
    decreases n,
{
    if n < 10 {
        seq![digit_char(n)]
    } else {
        decimal_text(n / 10).push(digit_char(n % 10))
    }
}

/// The decimal text of an integer: a minus sign before a negative one.
pub open spec fn integer_text(i: int) -> Seq<char> {
    if i < 0 {
        seq!['-'] + decimal_text((-i) as nat)
    } else {
        decimal_text(i as nat)
    }
}

/// The native text of a value: a string is its own text, an integer is written
/// in decimal, and an opaque value has the text that the engine gave it, if
/// any. Undefined and functions have none.
pub open spec fn text_of(v: ValueView) -> Option<Seq<char>> {
    match v {
        ValueView::Str(s) => Some(s),
        ValueView::Integer(i) => Some(integer_text(i)),
        ValueView::Opaque(text) => text,
        _ => None,
    }
}

/// The native `u32` of a value: an integer in the range of `u32` is that number,
/// and every other value has none.
pub open spec fn uint32_of(v: ValueView) -> Option<u32> {
    match v {
        ValueView::Integer(i) => if 0 <= i <= u32::MAX {
            Some(i as u32)
        } else {
            None
        },
        _ => None,
    }
}

/// What the conversion of a value to native text comes to.
pub open spec fn text_conversion(v: ValueView) -> Result<Seq<char>, ConversionError> {
    match text_of(v) {
        Some(text) => Ok(text),
        None => Err(ConversionError { wanted: NativeType::Text, found: kind_of(v) }),
    }
}

/// What the conversion of a value to a native `u32` comes to.
pub open spec fn uint32_conversion(v: ValueView) -> Result<u32, ConversionError> {
    match uint32_of(v) {
        Some(n) => Ok(n),
        None => Err(ConversionError { wanted: NativeType::Unsigned32, found: kind_of(v) }),
    }
}

fn digit_str(d: u64) -> (r: &'static str)
    requires
        d < 10,
    ensures
        r@ == seq![digit_char(d as nat)],
{
    proof {
        reveal_strlit("0");
        reveal_strlit("1");
        reveal_strlit("2");
        reveal_strlit("3");
        reveal_strlit("4");
        reveal_strlit("5");
        reveal_strlit("6");
        reveal_strlit("7");
        reveal_strlit("8");
        reveal_strlit("9");
    }
    let r = if d == 0 {
        "0"
    } else if d == 1 {
        "1"
    } else if d == 2 {
        "2"
    } else if d == 3 {
        "3"
    } else if d == 4 {
        "4"
    } else if d == 5 {
        "5"
    } else if d == 6 {
        "6"
    } else if d == 7 {
        "7"
    } else if d == 8 {
        "8"
    } else {
        "9"
    };
    assert(r@ =~= seq![digit_char(d as nat)]);
    r
}

/// Writes `n` in decimal.
pub fn render_decimal(n: u64) -> (r: String)
    ensures
        r@ == decimal_text(n as nat),
    decreases n,
{
    if n < 10 {
        String::from_str(digit_str(n))
    } else {
        let mut text = render_decimal(n / 10);
        text.append(digit_str(n % 10));
        assert(text@ =~= decimal_text(n as nat));
        text
    }
}

/// Writes `i` in decimal, with a minus sign if it is negative.
pub fn render_integer(i: i64) -> (r: String)
    ensures
        r@ == integer_text(i as int),
{
    if i < 0 {
        let magnitude: u64 = (-(i + 1)) as u64 + 1;
        let mut text = String::from_str("-");
        let digits = render_decimal(magnitude);
        text.append(digits.as_str());
        proof {
            reveal_strlit("-");
            assert("-"@ =~= seq!['-']);
        }
        text
    } else {
        render_decimal(i as u64)
    }
}

impl Value {
    /// A string value with the given text.
    pub fn new_string(text: &str) -> (r: Value)
        ensures
            r@ == ValueView::Str(text@),
    {
        Value::Str(String::from_str(text))
    }

    /// The integer value of an unsigned number.
    pub fn from_unsigned(n: u32) -> (r: Value)
        ensures
            r@ == ValueView::Integer(n as int),
    {
        Value::Integer(n as i64)
    }

    /// The kind of this value.
    pub fn kind(&self) -> (r: ValueKind)
        ensures
            r == kind_of(self@),
    {
        match self {
            Value::Undefined => ValueKind::Undefined,
            Value::Integer(_) => ValueKind::Integer,
            Value::Str(_) => ValueKind::Text,
            Value::Function(_) => ValueKind::Function,
            Value::Opaque(_) => ValueKind::Opaque,
        }
    }

    /// Whether this is the value that stands for "nothing supplied".
    pub fn is_undefined(&self) -> (r: bool)
        ensures
            r == (self@ == ValueView::Undefined),
    {
        match self {
            Value::Undefined => true,
            _ => false,
        }
    }

    /// Converts to native text. Succeeds exactly on strings, on integers and
    /// on opaque values that the engine gave a text.
    pub fn to_rust_string(&self) -> (r: Result<String, ConversionError>)
        ensures
            match r {
                Ok(text) => text_conversion(self@) == Ok::<Seq<char>, ConversionError>(text@),
                Err(e) => text_conversion(self@) == Err::<Seq<char>, ConversionError>(e),
            },
    {
        match self {
            Value::Str(s) => Ok(s.clone()),
            Value::Integer(i) => Ok(render_integer(*i)),
            Value::Opaque(Some(text)) => Ok(text.clone()),
            _ => Err(ConversionError { wanted: NativeType::Text, found: self.kind() }),
        }
    }

    /// Converts to a native `u32`. Succeeds exactly on integers from 0 to
    /// `u32::MAX`.
    pub fn uint32_value(&self) -> (r: Result<u32, ConversionError>)
        ensures
            r == uint32_conversion(self@),
    {
        match self {
            Value::Integer(i) => {
                if 0 <= *i && *i <= 0xffff_ffff {
                    Ok(*i as u32)
                } else {
                    Err(
                        ConversionError {
                            wanted: NativeType::Unsigned32,
                            found: ValueKind::Integer,
                        },
                    )
                }
            },
            _ => Err(ConversionError { wanted: NativeType::Unsigned32, found: self.kind() }),
        }
    }
}

} // verus!

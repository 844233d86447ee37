//! How a literal value is written in the generated code.

use vstd::prelude::*;
use crate::parser::{lemma_array_view, value_views, Value, ValueView};
use crate::text::{decimal, push_decimal, push_signed_decimal, signed_decimal};

verus! {

/// What the standard library's `Debug` writes for a string with the given
/// characters: the text between double quotes, with its escapes.
pub uninterp spec fn debug_quoted(s: Seq<char>) -> Seq<char>;

/// `<str as Debug>::fmt` of the standard library, through `format!`: the
/// result depends on the characters of the string alone.
#[verifier::external_body]
fn debug_quote(s: &str) -> (quoted: String)
    ensures
        quoted@ == debug_quoted(s@),
{
    format!("{:?}", s)
}

/// A truth value in words.
pub open spec fn bool_text(b: bool) -> Seq<char> {
    if b {
        "true"@
    } else {
        "false"@
    }
}

/// A decimal fraction: the sign, the whole part, the point and the digits
/// behind it.
pub open spec fn float_text(negative: bool, whole: u64, fraction: Seq<char>) -> Seq<char> {
    (if negative {
        "-"@
    } else {
        Seq::<char>::empty()
    }) + decimal(whole as nat) + "."@ + fraction
}

/// A value inside an array: the name of its kind, and in brackets what it
/// holds.
pub open spec fn debug_text(v: ValueView) -> Seq<char>
    decreases v, 0nat,
{
    match v {
        ValueView::Bool(b) => "Bool("@ + bool_text(b) + ")"@,
        ValueView::String(s) => "String("@ + debug_quoted(s) + ")"@,
        ValueView::Float { negative, whole, fraction } => "Float("@ + float_text(
            negative,
            whole,
            fraction,
        ) + ")"@,
        ValueView::Uint(n) => "Uint("@ + decimal(n as nat) + ")"@,
        ValueView::Int(n) => "Int("@ + signed_decimal(n as int) + ")"@,
        ValueView::Array(items) => "Array(["@ + debug_items(items, items.len() as int) + "])"@,
    }
}

/// The first `n` values of an array, separated by a comma and a space.
pub open spec fn debug_items(items: Seq<ValueView>, n: int) -> Seq<char>
    decreases items, n,
{
    if n <= 0 || n > items.len() {
        Seq::<char>::empty()
    } else if n == 1 {
        debug_text(items[0])
    } else {
        debug_items(items, n - 1) + ", "@ + debug_text(items[n - 1])
    }
}

/// A value as the generated code holds it: a number in decimal, a string
/// as a byte string that ends in a NUL character, a truth value in words,
/// and an array as the bracketed list of its values, each written with the
/// name of its kind before it, as [`debug_text`] has it:
/// `[Uint(10), Int(-2)]`.
pub open spec fn display_text(v: ValueView) -> Seq<char> {
    match v {
        ValueView::Int(n) => signed_decimal(n as int),
        ValueView::Uint(n) => decimal(n as nat),
        ValueView::Float { negative, whole, fraction } => float_text(negative, whole, fraction),
        ValueView::String(s) => "b\""@ + s + "\0\""@,
        ValueView::Bool(b) => bool_text(b),
        ValueView::Array(items) => "["@ + debug_items(items, items.len() as int) + "]"@,
    }
}

/// Appends a decimal fraction to `out`.
fn push_float(out: &mut String, negative: bool, whole: u64, fraction: &str)
    ensures
        final(out)@ == old(out)@ + float_text(negative, whole, fraction@),
{
    if negative {
        out.append("-");
    }
    push_decimal(out, whole);
    out.append(".");
    out.append(fraction);
    assert(final(out)@ =~= old(out)@ + float_text(negative, whole, fraction@));
}

/// Appends a truth value in words to `out`.
fn push_bool(out: &mut String, b: bool)
    ensures
        final(out)@ == old(out)@ + bool_text(b),
{
    if b {
        out.append("true");
    } else {
        out.append("false");
    }
}

impl Value {
    /// Appends the values of an array to `out`, each as [`debug_text`] has
    /// it, separated by a comma and a space.
    fn push_items(out: &mut String, items: &Vec<Value>)
        ensures
            final(out)@ == old(out)@ + debug_items(value_views(items@), items.len() as int),
        decreases items, 0nat,
    {
        let ghost views = value_views(items@);
        let mut i: usize = 0;
        while i < items.len()
            invariant
                i <= items.len(),
                views == value_views(items@),
                out@ == old(out)@ + debug_items(views, i as int),
            decreases items.len() - i,
        {
            if i > 0 {
                out.append(", ");
            }
            items[i].push_debug(out);
            i += 1;
            assert(out@ =~= old(out)@ + debug_items(views, i as int));
        }
    }

    /// Appends the value to `out` as it is written inside an array.
    fn push_debug(&self, out: &mut String)
        ensures
            final(out)@ == old(out)@ + debug_text(self@),
        decreases self, 1nat,
    {
        proof {
            if let Value::Array(items) = self {
                lemma_array_view(*items);
            }
        }
        match self {
            Value::Bool(b) => {
                out.append("Bool(");
                push_bool(out, *b);
                out.append(")");
            },
            Value::String(s) => {
                out.append("String(");
                let quoted = debug_quote(s.as_str());
                out.append(quoted.as_str());
                out.append(")");
            },
            Value::Float { negative, whole, fraction } => {
                out.append("Float(");
                push_float(out, *negative, *whole, fraction.as_str());
                out.append(")");
            },
            Value::Uint(n) => {
                out.append("Uint(");
                push_decimal(out, *n);
                out.append(")");
            },
            Value::Int(n) => {
                out.append("Int(");
                push_signed_decimal(out, *n);
                out.append(")");
            },
            Value::Array(items) => {
                out.append("Array([");
                Value::push_items(out, items);
                out.append("])");
            },
        }
        assert(final(out)@ =~= old(out)@ + debug_text(self@));
    }

    /// The value as the generated code holds it.
    pub fn to_string(&self) -> (text: String)
        ensures
            text@ == display_text(self@),
    {
        let mut text = String::new();
        proof {
            if let Value::Array(items) = self {
                lemma_array_view(*items);
            }
        }
        match self {
            Value::Int(n) => {
                push_signed_decimal(&mut text, *n);
            },
            Value::Uint(n) => {
                push_decimal(&mut text, *n);
            },
            Value::Float { negative, whole, fraction } => {
                push_float(&mut text, *negative, *whole, fraction.as_str());
            },
            Value::String(s) => {
                text.append("b\"");
                text.append(s.as_str());
                text.append("\0\"");
            },
            Value::Bool(b) => {
                push_bool(&mut text, *b);
            },
            Value::Array(items) => {
                text.append("[");
                Value::push_items(&mut text, items);
                text.append("]");
            },
        }
        assert(text@ =~= display_text(self@));
        text
    }
}

} // verus!

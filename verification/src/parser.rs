//! The declarations of an interface file, and the parser that reads them.

use vstd::prelude::*;
use crate::parser::grammar::{
    array,
    array_bound,
    array_info,
    at,
    boolean,
    bound_value,
    comment_line,
    declarations,
    digits_value,
    end_of_line,
    escaped,
    first_separator,
    identifier,
    is_digit,
    item,
    items,
    kept,
    lemma_scan,
    line,
    line_end,
    message,
    number,
    scan,
    separator_at,
    service,
    starts_value,
    string_literal,
    string_tail,
    string_type_at,
    text_end,
    trailing_comment,
    type_name_at,
    unsigned,
    value,
    value_opt,
    variable,
    word_at,
    CharClass,
    Expected,
    Miss,
};
use crate::text::{byte_offset, push_decimal, slice_of, text_eq, to_chars, utf8_len};

pub mod display;
pub mod grammar;
pub mod laws;

verus! {

/// How the values of a field are collected.
#[derive(Debug, Clone, Copy, PartialEq, Eq)]
pub enum ArrayInfo {
    /// A single value.
    NotArray,
    /// `[]`: any number of values.
    Dynamic,
    /// `[N]`: exactly `N` values.
    Static(usize),
    /// `[<=N]`: at most `N` values.
    Limited(usize),
}

/// The type that a declaration names.
#[derive(Debug, PartialEq, Eq)]
pub enum TypeName {
    /// A bare name: a primitive, or a type of the same package.
    Type { name: String, array_info: ArrayInfo },
    /// `scope/name`: a type of the package `scope`.
    ScopedType { scope: String, name: String, array_info: ArrayInfo },
    /// `string<=size`: a string of at most `size` characters.
    LimitedString { size: usize, array_info: ArrayInfo },
    /// `string`: a string of any length.
    String(ArrayInfo),
}

/// A literal value.
#[derive(Debug, PartialEq, Eq)]
pub enum Value {
    Bool(bool),
    /// The text between the quotes, as it is written inside a
    /// double-quoted literal: each escape stays as it is, and a double quote
    /// gets a backslash.
    String(String),
    /// A decimal fraction `whole.fraction`, negated where `negative` holds.
    /// `fraction` holds the digits behind the point as they were written.
    Float { negative: bool, whole: u64, fraction: String },
    Uint(u64),
    Int(i64),
    Array(Vec<Value>),
}

/// The value that follows a declared name.
#[derive(Debug, PartialEq, Eq)]
pub enum ValueType {
    /// `= value`: the declaration is a named constant.
    Const(Value),
    /// `value`: the default of a field.
    Default(Value),
}

/// One line of an interface file.
#[derive(Debug, PartialEq, Eq)]
pub enum Expr {
    Variable {
        var_type: TypeName,
        var_name: String,
        value: Option<ValueType>,
        comment: Option<String>,
    },
    /// An empty line.
    Empty,
    /// A line that holds a comment only.
    Comment,
    /// The end of the text.
    Eof,
}

/// The mathematical model of a [`TypeName`].
pub enum TypeNameView {
    Type { name: Seq<char>, array_info: ArrayInfo },
    ScopedType { scope: Seq<char>, name: Seq<char>, array_info: ArrayInfo },
    LimitedString { size: usize, array_info: ArrayInfo },
    String(ArrayInfo),
}

/// The mathematical model of a [`Value`].
pub enum ValueView {
    Bool(bool),
    String(Seq<char>),
    Float { negative: bool, whole: u64, fraction: Seq<char> },
    Uint(u64),
    Int(i64),
    Array(Seq<ValueView>),
}

/// The mathematical model of a [`ValueType`].
pub enum ValueTypeView {
    Const(ValueView),
    Default(ValueView),
}

/// The mathematical model of an [`Expr`].
pub enum ExprView {
    Variable {
        var_type: TypeNameView,
        var_name: Seq<char>,
        value: Option<ValueTypeView>,
        comment: Option<Seq<char>>,
    },
    Empty,
    Comment,
    Eof,
}

impl View for TypeName {
    type V = TypeNameView;

    open spec fn view(&self) -> TypeNameView {
        match self {
            TypeName::Type { name, array_info } => TypeNameView::Type {
                name: name@,
                array_info: *array_info,
            },
            TypeName::ScopedType { scope, name, array_info } => TypeNameView::ScopedType {
                scope: scope@,
                name: name@,
                array_info: *array_info,
            },
            TypeName::LimitedString { size, array_info } => TypeNameView::LimitedString {
                size: *size,
                array_info: *array_info,
            },
            TypeName::String(array_info) => TypeNameView::String(*array_info),
        }
    }
}

impl View for Value {
    type V = ValueView;

    open spec fn view(&self) -> ValueView
        decreases self,
    {
        match self {
            Value::Bool(b) => ValueView::Bool(*b),
            Value::String(s) => ValueView::String(s@),
            Value::Float { negative, whole, fraction } => ValueView::Float {
                negative: *negative,
                whole: *whole,
                fraction: fraction@,
            },
            Value::Uint(n) => ValueView::Uint(*n),
            Value::Int(n) => ValueView::Int(*n),
            Value::Array(items) => ValueView::Array(
                Seq::new(
                    items.len() as nat,
                    |k: int|
                        if 0 <= k < items.len() {
                            items[k].view()
                        } else {
                            ValueView::Bool(false)
                        },
                ),
            ),
        }
    }
}

impl View for ValueType {
    type V = ValueTypeView;

    open spec fn view(&self) -> ValueTypeView {
        match self {
            ValueType::Const(v) => ValueTypeView::Const(v@),
            ValueType::Default(v) => ValueTypeView::Default(v@),
        }
    }
}

/// The model of an optional string.
pub open spec fn option_text(s: Option<String>) -> Option<Seq<char>> {
    match s {
        Some(s) => Some(s@),
        None => None,
    }
}

/// The model of an optional value.
pub open spec fn option_value(v: Option<ValueType>) -> Option<ValueTypeView> {
    match v {
        Some(v) => Some(v@),
        None => None,
    }
}

impl View for Expr {
    type V = ExprView;

    open spec fn view(&self) -> ExprView {
        match self {
            Expr::Variable { var_type, var_name, value, comment } => ExprView::Variable {
                var_type: var_type@,
                var_name: var_name@,
                value: option_value(*value),
                comment: option_text(*comment),
            },
            Expr::Empty => ExprView::Empty,
            Expr::Comment => ExprView::Comment,
            Expr::Eof => ExprView::Eof,
        }
    }
}

/// The models of a list of declarations, in their order.
pub open spec fn expr_views(exprs: Seq<Expr>) -> Seq<ExprView> {
    Seq::new(exprs.len(), |k: int| exprs[k]@)
}

/// The models of a list of values, in their order.
pub open spec fn value_views(values: Seq<Value>) -> Seq<ValueView> {
    Seq::new(values.len(), |k: int| values[k]@)
}

/// The model of an array is the array of the models of its values.
pub proof fn lemma_array_view(items: Vec<Value>)
    ensures
        Value::Array(items)@ == ValueView::Array(value_views(items@)),
{
    reveal_with_fuel(<Value as View>::view, 2);
    assert(Value::Array(items)@->Array_0 =~= value_views(items@));
}


/// Where the parser stopped, and what it missed there.
#[derive(Debug, Clone, Copy, PartialEq, Eq)]
pub struct ParseError {
    /// The byte offset, in the text, of the first character that was not
    /// taken.
    pub offset: usize,
    /// What should have stood there.
    pub expected: Expected,
}

impl Expected {
    /// What was missed, in words.
    pub open spec fn description(self) -> Seq<char> {
        match self {
            Expected::Identifier => "an identifier"@,
            Expected::Space => "a space or a tab"@,
            Expected::LineEnding => "the end of the line"@,
            Expected::Digit => "a decimal number that fits in 64 bits"@,
            Expected::LessEqual => "`<=`"@,
            Expected::CloseBracket => "`]`"@,
            Expected::Value => "a number, `true`, `false`, an array or a quoted string"@,
            Expected::Character => "the closing quote"@,
            Expected::Escape => "`\\`, the quote, `r`, `n` or `t` after the backslash"@,
            Expected::CommentText => "a line feed after the carriage return"@,
            Expected::Separator => "the line `---` between request and response"@,
        }
    }

    /// What was missed, in words.
    pub fn describe(&self) -> (words: &'static str)
        ensures
            words@ == self.description(),
    {
        match self {
            Expected::Identifier => "an identifier",
            Expected::Space => "a space or a tab",
            Expected::LineEnding => "the end of the line",
            Expected::Digit => "a decimal number that fits in 64 bits",
            Expected::LessEqual => "`<=`",
            Expected::CloseBracket => "`]`",
            Expected::Value => "a number, `true`, `false`, an array or a quoted string",
            Expected::Character => "the closing quote",
            Expected::Escape => "`\\`, the quote, `r`, `n` or `t` after the backslash",
            Expected::CommentText => "a line feed after the carriage return",
            Expected::Separator => "the line `---` between request and response",
        }
    }
}

impl ParseError {
    /// The error in words: the offset, and what was expected there.
    pub open spec fn in_words(self) -> Seq<char> {
        "at byte "@ + crate::text::decimal(self.offset as nat) + ": expected "@
            + self.expected.description()
    }

    /// The error in words: the offset, and what was expected there.
    pub fn message(&self) -> (text: String)
        ensures
            text@ == self.in_words(),
    {
        let mut text = String::from_str("at byte ");
        push_decimal(&mut text, self.offset as u64);
        text.append(": expected ");
        text.append(self.expected.describe());
        assert(text@ =~= "at byte "@ + crate::text::decimal(self.offset as nat) + ": expected "@
            + self.expected.description());
        text
    }
}

/// Where the parser stopped, as an index into the characters of the text.
#[derive(Debug, Clone, Copy)]
pub struct Failure {
    pub at: usize,
    pub expected: Expected,
}

impl Failure {
    /// The failure as the grammar states it.
    pub open spec fn miss(self) -> Miss {
        Miss { at: self.at as int, expected: self.expected }
    }
}

/// A position of the parser, as the grammar states it.
pub open spec fn pos(p: Option<usize>) -> Option<int> {
    match p {
        Some(e) => Some(e as int),
        None => None,
    }
}

impl CharClass {
    /// Whether `c` is of this kind.
    pub fn contains(&self, c: char) -> (r: bool)
        ensures
            r == self.has(c),
    {
        match self {
            CharClass::Space => c == ' ' || c == '\t',
            CharClass::Name => ('a' <= c && c <= 'z') || ('A' <= c && c <= 'Z') || ('0' <= c && c
                <= '9') || c == '_',
            CharClass::Digit => '0' <= c && c <= '9',
            CharClass::Text => c != '\r' && c != '\n',
        }
    }
}

/// Whether the character at `i` is `c`.
fn peek_tag(chars: &Vec<char>, i: usize, c: char) -> (r: bool)
    ensures
        r == at(chars@, i as int, c),
{
    i < chars.len() && chars[i] == c
}

/// The end of the longest run of characters of `class` that starts at
/// `from`.
fn skip(chars: &Vec<char>, from: usize, class: CharClass) -> (to: usize)
    requires
        from <= chars.len(),
    ensures
        to == scan(chars@, from as int, class),
        from <= to <= chars.len(),
{
    let mut i: usize = from;
    while i < chars.len() && class.contains(chars[i])
        invariant
            from <= i <= chars.len(),
            scan(chars@, from as int, class) == scan(chars@, i as int, class),
        decreases chars.len() - i,
    {
        i += 1;
    }
    i
}

/// The position behind the line ending at `i`.
fn line_ending(chars: &Vec<char>, i: usize) -> (r: Option<usize>)
    requires
        i <= chars.len(),
    ensures
        pos(r) == line_end(chars@, i as int),
        r matches Some(e) ==> i < e <= chars.len(),
{
    if peek_tag(chars, i, '\n') {
        Some(i + 1)
    } else if peek_tag(chars, i, '\r') && peek_tag(chars, i + 1, '\n') {
        Some(i + 2)
    } else {
        None
    }
}

/// The end of the text that runs from `i` to the end of its line.
fn not_line_ending(chars: &Vec<char>, i: usize) -> (r: Option<usize>)
    requires
        i <= chars.len(),
    ensures
        pos(r) == text_end(chars@, i as int),
        r matches Some(e) ==> i <= e <= chars.len(),
{
    let e = skip(chars, i, CharClass::Text);
    if peek_tag(chars, e, '\r') && !peek_tag(chars, e + 1, '\n') {
        None
    } else {
        Some(e)
    }
}

/// The position behind the end of the line at `i`.
fn parse_end(chars: &Vec<char>, i: usize) -> (r: Result<usize, Failure>)
    requires
        i <= chars.len(),
    ensures
        match r {
            Ok(e) => end_of_line(chars@, i as int) == Ok::<int, Miss>(e as int) && i <= e
                <= chars.len(),
            Err(f) => end_of_line(chars@, i as int) == Err::<int, Miss>(f.miss()) && f.at
                <= chars.len(),
        },
{
    if i >= chars.len() {
        Ok(i)
    } else {
        match line_ending(chars, i) {
            Some(e) => Ok(e),
            None => Err(Failure { at: i, expected: Expected::LineEnding }),
        }
    }
}

/// The end of the identifier that starts at `i`.
fn parse_identifier(chars: &Vec<char>, i: usize) -> (r: Option<usize>)
    requires
        i <= chars.len(),
    ensures
        pos(r) == identifier(chars@, i as int),
        r matches Some(e) ==> i < e <= chars.len(),
{
    if i < chars.len() && (chars[i] == '_' || ('a' <= chars[i] && chars[i] <= 'z') || ('A'
        <= chars[i] && chars[i] <= 'Z')) {
        Some(skip(chars, i + 1, CharClass::Name))
    } else {
        None
    }
}

/// The number of a run of digits grows with the run.
proof fn lemma_digits_grow(s: Seq<char>, from: int, k: int, to: int)
    requires
        from <= k <= to,
    ensures
        digits_value(s, from, k) <= digits_value(s, from, to),
    decreases to - k,
{
    if k < to {
        lemma_digits_grow(s, from, k, to - 1);
    }
}

/// The unsigned number at `i`, and the position behind it.
fn parse_unsigned(chars: &Vec<char>, i: usize) -> (r: Option<(u64, usize)>)
    requires
        i <= chars.len(),
    ensures
        match r {
            Some((n, e)) => unsigned(chars@, i as int) == Some((n, e as int)) && i < e
                <= chars.len(),
            None => unsigned(chars@, i as int) is None,
        },
{
    let e = skip(chars, i, CharClass::Digit);
    if e == i {
        return None;
    }
    proof {
        lemma_scan(chars@, i as int, CharClass::Digit);
    }
    let mut n: u64 = 0;
    let mut k: usize = i;
    while k < e
        invariant
            i <= k <= e <= chars.len(),
            i < e,
            e == scan(chars@, i as int, CharClass::Digit),
            n == digits_value(chars@, i as int, k as int),
            forall|j: int| i <= j < e ==> is_digit(#[trigger] chars@[j]),
        decreases e - k,
    {
        let c = chars[k];
        assert(is_digit(chars@[k as int]));
        let d: u64 = (c as u32 - '0' as u32) as u64;
        if n > (u64::MAX - d) / 10 {
            proof {
                assert(digits_value(chars@, i as int, k as int + 1) == n * 10 + d);
                assert(n * 10 + d > u64::MAX);
                lemma_digits_grow(chars@, i as int, k as int + 1, e as int);
            }
            return None;
        }
        n = n * 10 + d;
        k += 1;
    }
    Some((n, e))
}

/// What stands between the brackets of an array suffix.
fn parse_array_bound(chars: &Vec<char>, a: usize) -> (r: Result<(ArrayInfo, usize), Failure>)
    requires
        a <= chars.len(),
    ensures
        match r {
            Ok((info, e)) => array_bound(chars@, a as int) == Ok::<(ArrayInfo, int), Miss>(
                (info, e as int),
            ) && a <= e <= chars.len(),
            Err(f) => array_bound(chars@, a as int) == Err::<(ArrayInfo, int), Miss>(f.miss())
                && f.at <= chars.len(),
        },
{
    if peek_tag(chars, a, ']') {
        Ok((ArrayInfo::Dynamic, a))
    } else if peek_tag(chars, a, '<') {
        if peek_tag(chars, a + 1, '=') {
            match parse_unsigned(chars, a + 2) {
                Some((n, e)) => Ok((ArrayInfo::Limited(#[verifier::truncate] (n as usize)), e)),
                None => Err(Failure { at: a + 2, expected: Expected::Digit }),
            }
        } else {
            Err(Failure { at: a, expected: Expected::LessEqual })
        }
    } else {
        match parse_unsigned(chars, a) {
            Some((n, e)) => Ok((ArrayInfo::Static(#[verifier::truncate] (n as usize)), e)),
            None => Err(Failure { at: a, expected: Expected::Digit }),
        }
    }
}

/// The array suffix at `i`.
fn parse_array_info(chars: &Vec<char>, i: usize) -> (r: Result<(ArrayInfo, usize), Failure>)
    requires
        i <= chars.len(),
    ensures
        match r {
            Ok((info, e)) => array_info(chars@, i as int) == Ok::<(ArrayInfo, int), Miss>(
                (info, e as int),
            ) && i <= e <= chars.len(),
            Err(f) => array_info(chars@, i as int) == Err::<(ArrayInfo, int), Miss>(f.miss())
                && f.at <= chars.len(),
        },
{
    let open = skip(chars, i, CharClass::Space);
    if !peek_tag(chars, open, '[') {
        return Ok((ArrayInfo::NotArray, i));
    }
    let a = skip(chars, open + 1, CharClass::Space);
    let (info, b) = match parse_array_bound(chars, a) {
        Ok(bound) => bound,
        Err(f) => {
            return Err(f);
        },
    };
    let close = skip(chars, b, CharClass::Space);
    if peek_tag(chars, close, ']') {
        Ok((info, close + 1))
    } else {
        Err(Failure { at: close, expected: Expected::CloseBracket })
    }
}

/// What follows the word `string` at `e`.
fn parse_string_type(chars: &Vec<char>, e: usize) -> (r: Result<(TypeName, usize), Failure>)
    requires
        e <= chars.len(),
    ensures
        match r {
            Ok((ty, g)) => string_type_at(chars@, e as int) == Ok::<(TypeNameView, int), Miss>(
                (ty@, g as int),
            ) && e <= g <= chars.len(),
            Err(f) => string_type_at(chars@, e as int) == Err::<(TypeNameView, int), Miss>(
                f.miss(),
            ) && f.at <= chars.len(),
        },
{
    if peek_tag(chars, e, '<') && peek_tag(chars, e + 1, '=') {
        let (n, f) = match parse_unsigned(chars, e + 2) {
            Some(bound) => bound,
            None => {
                return Err(Failure { at: e + 2, expected: Expected::Digit });
            },
        };
        match parse_array_info(chars, f) {
            Ok((info, g)) => Ok(
                (
                    TypeName::LimitedString {
                        size: #[verifier::truncate] (n as usize),
                        array_info: info,
                    },
                    g,
                ),
            ),
            Err(f) => Err(f),
        }
    } else {
        match parse_array_info(chars, e) {
            Ok((info, g)) => Ok((TypeName::String(info), g)),
            Err(f) => Err(f),
        }
    }
}

/// The type at `i`.
fn parse_typename(chars: &Vec<char>, i: usize) -> (r: Result<(TypeName, usize), Failure>)
    requires
        i <= chars.len(),
    ensures
        match r {
            Ok((ty, g)) => type_name_at(chars@, i as int) == Ok::<(TypeNameView, int), Miss>(
                (ty@, g as int),
            ) && i < g <= chars.len(),
            Err(f) => type_name_at(chars@, i as int) == Err::<(TypeNameView, int), Miss>(
                f.miss(),
            ) && f.at <= chars.len(),
        },
{
    let e = match parse_identifier(chars, i) {
        Some(e) => e,
        None => {
            return Err(Failure { at: i, expected: Expected::Identifier });
        },
    };
    let word = slice_of(chars, i, e);
    if text_eq(word.as_str(), "string") {
        return parse_string_type(chars, e);
    }
    if peek_tag(chars, e, '/') {
        let f = match parse_identifier(chars, e + 1) {
            Some(f) => f,
            None => {
                return Err(Failure { at: e + 1, expected: Expected::Identifier });
            },
        };
        let name = slice_of(chars, e + 1, f);
        match parse_array_info(chars, f) {
            Ok((info, g)) => Ok((TypeName::ScopedType { scope: word, name, array_info: info }, g)),
            Err(f) => Err(f),
        }
    } else {
        match parse_array_info(chars, e) {
            Ok((info, g)) => Ok((TypeName::Type { name: word, array_info: info }, g)),
            Err(f) => Err(f),
        }
    }
}

/// The number at `i`.
fn parse_num(chars: &Vec<char>, i: usize) -> (r: Option<(Value, usize)>)
    requires
        i <= chars.len(),
    ensures
        match r {
            Some((v, e)) => number(chars@, i as int) == Some((v@, e as int)) && i < e
                <= chars.len(),
            None => number(chars@, i as int) is None,
        },
{
    let negative = peek_tag(chars, i, '-');
    let start = if negative {
        i + 1
    } else {
        i
    };
    let (n, e) = match parse_unsigned(chars, start) {
        Some(whole) => whole,
        None => {
            return None;
        },
    };
    if peek_tag(chars, e, '.') {
        let f = skip(chars, e + 1, CharClass::Digit);
        if e + 1 < f {
            let fraction = slice_of(chars, e + 1, f);
            Some((Value::Float { negative, whole: n, fraction }, f))
        } else {
            None
        }
    } else if negative {
        if n < 0x8000_0000_0000_0000u64 {
            Some((Value::Int(-(n as i64)), e))
        } else if n == 0x8000_0000_0000_0000u64 {
            Some((Value::Int(i64::MIN), e))
        } else {
            None
        }
    } else {
        Some((Value::Uint(n), e))
    }
}

/// The truth value at `i`.
fn parse_bool(chars: &Vec<char>, i: usize) -> (r: Option<(Value, usize)>)
    requires
        i <= chars.len(),
    ensures
        match r {
            Some((v, e)) => boolean(chars@, i as int) == Some((v@, e as int)) && i < e
                <= chars.len(),
            None => boolean(chars@, i as int) is None,
        },
{
    let ghost s = chars@;
    let ghost yes = seq!['t', 'r', 'u', 'e'];
    let ghost no = seq!['f', 'a', 'l', 's', 'e'];
    let left = chars.len() - i;
    if left >= 4 && chars[i] == 't' && chars[i + 1] == 'r' && chars[i + 2] == 'u' && chars[i + 3]
        == 'e' {
        assert(s.subrange(i as int, i + 4) =~= yes);
        return Some((Value::Bool(true), i + 4));
    }
    proof {
        if word_at(s, i as int, yes) {
            let w = s.subrange(i as int, i + 4);
            assert(w[0] == 't' && w[1] == 'r' && w[2] == 'u' && w[3] == 'e');
        }
    }
    if left >= 5 && chars[i] == 'f' && chars[i + 1] == 'a' && chars[i + 2] == 'l' && chars[i + 3]
        == 's' && chars[i + 4] == 'e' {
        assert(s.subrange(i as int, i + 5) =~= no);
        return Some((Value::Bool(false), i + 5));
    }
    proof {
        if word_at(s, i as int, no) {
            let w = s.subrange(i as int, i + 5);
            assert(w[0] == 'f' && w[1] == 'a' && w[2] == 'l' && w[3] == 's' && w[4] == 'e');
        }
    }
    None
}

/// The text `head`, and behind it what `rest` holds.
pub open spec fn prepend_text(head: Seq<char>, rest: Result<(Seq<char>, int), Miss>) -> Result<
    (Seq<char>, int),
    Miss,
> {
    match rest {
        Ok((tail, e)) => Ok((head + tail, e)),
        Err(m) => Err(m),
    }
}

/// The quoted string at `i`: the text between the quotes, with each escape
/// kept as it is written inside double quotes.
fn parse_string(chars: &Vec<char>, i: usize) -> (r: Result<(String, usize), Failure>)
    requires
        i <= chars.len(),
    ensures
        match r {
            Ok((text, e)) => string_literal(chars@, i as int) == Ok::<(Seq<char>, int), Miss>(
                (text@, e as int),
            ) && i < e <= chars.len(),
            Err(f) => string_literal(chars@, i as int) == Err::<(Seq<char>, int), Miss>(
                f.miss(),
            ) && f.at <= chars.len(),
        },
{
    if !(peek_tag(chars, i, '"') || peek_tag(chars, i, '\'')) {
        return Err(Failure { at: i, expected: Expected::Value });
    }
    let quote = chars[i];
    let ghost s = chars@;
    let mut text = String::new();
    let mut k: usize = i + 1;
    assert(prepend_text(text@, string_tail(s, k as int, quote)) =~= string_tail(
        s,
        k as int,
        quote,
    ));
    loop
        invariant
            s == chars@,
            i < k <= chars.len(),
            quote == s[i as int],
            quote == '"' || quote == '\'',
            string_literal(s, i as int) == prepend_text(text@, string_tail(s, k as int, quote)),
        decreases chars.len() - k,
    {
        if k >= chars.len() {
            return Err(Failure { at: chars.len(), expected: Expected::Character });
        }
        let c = chars[k];
        let ghost before = text@;
        if c == quote {
            assert(before + Seq::<char>::empty() =~= before);
            return Ok((text, k + 1));
        } else if c == '\\' {
            if k + 1 < chars.len() && (chars[k + 1] == 'r' || chars[k + 1] == 'n' || chars[k + 1]
                == 't' || chars[k + 1] == '\\' || chars[k + 1] == quote) {
                let d = chars[k + 1];
                if d != '\'' {
                    text.push('\\');
                }
                text.push(d);
                assert(text@ =~= before + escaped(d));
                assert(forall|rest: Seq<char>| text@ + rest =~= before + (escaped(d) + rest));
                k += 2;
            } else {
                return Err(Failure { at: k + 1, expected: Expected::Escape });
            }
        } else {
            if c == '"' {
                text.push('\\');
            }
            text.push(c);
            assert(text@ =~= before + kept(c));
            assert(forall|rest: Seq<char>| text@ + rest =~= before + (kept(c) + rest));
            k += 1;
        }
    }
}

/// The value at `i`, if one stands there.
fn parse_value_opt(chars: &Vec<char>, i: usize) -> (r: Option<(Value, usize)>)
    requires
        i <= chars.len(),
    ensures
        match r {
            Some((v, e)) => value_opt(chars@, i as int) == Some((v@, e as int)) && i < e
                <= chars.len(),
            None => value_opt(chars@, i as int) is None,
        },
    decreases chars.len() - i, 2nat,
{
    if i >= chars.len() {
        return None;
    }
    match parse_num(chars, i) {
        Some(r) => {
            return Some(r);
        },
        None => {},
    }
    match parse_bool(chars, i) {
        Some(r) => {
            return Some(r);
        },
        None => {},
    }
    match parse_array(chars, i) {
        Some(r) => {
            return Some(r);
        },
        None => {},
    }
    match parse_string(chars, i) {
        Ok((text, e)) => Some((Value::String(text), e)),
        Err(_) => None,
    }
}

/// The array at `i`.
fn parse_array(chars: &Vec<char>, i: usize) -> (r: Option<(Value, usize)>)
    requires
        i <= chars.len(),
    ensures
        match r {
            Some((v, e)) => array(chars@, i as int) == Some((v@, e as int)) && i < e
                <= chars.len(),
            None => array(chars@, i as int) is None,
        },
    decreases chars.len() - i, 1nat,
{
    if !peek_tag(chars, i, '[') {
        return None;
    }
    let mut values: Vec<Value> = Vec::new();
    assert(value_views(values@) =~= Seq::empty());
    match parse_items(chars, i + 1, &mut values) {
        Some(e) => {
            if peek_tag(chars, e, ']') {
                proof {
                    lemma_array_view(values);
                    assert(Seq::<ValueView>::empty() + value_views(values@) =~= value_views(
                        values@,
                    ));
                }
                Some((Value::Array(values), e + 1))
            } else {
                None
            }
        },
        None => None,
    }
}

/// The values of an array from `i` on, which are appended to `out`.
fn parse_items(chars: &Vec<char>, i: usize, out: &mut Vec<Value>) -> (r: Option<usize>)
    requires
        i <= chars.len(),
    ensures
        match r {
            Some(e) => {
                &&& items(chars@, i as int) matches Some((values, f))
                &&& f == e
                &&& value_views(final(out)@) == value_views(old(out)@) + values
                &&& i < e <= chars.len()
            },
            None => items(chars@, i as int) is None && final(out)@ == old(out)@,
        },
    decreases chars.len() - i, 4nat,
{
    if i >= chars.len() {
        return None;
    }
    let (v, e) = match parse_item(chars, i) {
        Some(first) => first,
        None => {
            return None;
        },
    };
    let ghost first = v@;
    out.push(v);
    assert(value_views(out@) =~= value_views(old(out)@) + seq![first]);
    if peek_tag(chars, e, ',') {
        match parse_items(chars, e + 1, out) {
            Some(f) => {
                proof {
                    let (rest, _) = items(chars@, e + 1)->Some_0;
                    assert(value_views(out@) =~= value_views(old(out)@) + (seq![first] + rest));
                }
                Some(f)
            },
            None => Some(e),
        }
    } else {
        Some(e)
    }
}

/// One value of an array at `i`, with the spaces around it.
fn parse_item(chars: &Vec<char>, i: usize) -> (r: Option<(Value, usize)>)
    requires
        i <= chars.len(),
    ensures
        match r {
            Some((v, e)) => item(chars@, i as int) == Some((v@, e as int)) && i < e
                <= chars.len(),
            None => item(chars@, i as int) is None,
        },
    decreases chars.len() - i, 3nat,
{
    let a = skip(chars, i, CharClass::Space);
    match parse_value_opt(chars, a) {
        Some((v, e)) => Some((v, skip(chars, e, CharClass::Space))),
        None => None,
    }
}

/// The value at `i`.
fn parse_value(chars: &Vec<char>, i: usize) -> (r: Result<(Value, usize), Failure>)
    requires
        i <= chars.len(),
    ensures
        match r {
            Ok((v, e)) => value(chars@, i as int) == Ok::<(ValueView, int), Miss>(
                (v@, e as int),
            ) && i < e <= chars.len(),
            Err(f) => value(chars@, i as int) == Err::<(ValueView, int), Miss>(f.miss()) && f.at
                <= chars.len(),
        },
{
    match parse_value_opt(chars, i) {
        Some(r) => Ok(r),
        None => match parse_string(chars, i) {
            Err(f) => Err(f),
            Ok(_) => Err(Failure { at: i, expected: Expected::Value }),
        },
    }
}

/// Whether a value may start with the character at `i`.
fn peek_next_of(chars: &Vec<char>, i: usize) -> (r: bool)
    ensures
        r == starts_value(chars@, i as int),
{
    i < chars.len() && (chars[i] == '-' || chars[i] == '"' || chars[i] == '\'' || chars[i] == '['
        || chars[i] == 't' || chars[i] == 'f' || ('0' <= chars[i] && chars[i] <= '9'))
}

/// What follows a declared name at `i`.
fn parse_bound_value(chars: &Vec<char>, i: usize) -> (r: Result<
    (Option<ValueType>, usize),
    Failure,
>)
    requires
        i <= chars.len(),
    ensures
        match r {
            Ok((v, e)) => bound_value(chars@, i as int) == Ok::<
                (Option<ValueTypeView>, int),
                Miss,
            >((option_value(v), e as int)) && i <= e <= chars.len(),
            Err(f) => bound_value(chars@, i as int) == Err::<(Option<ValueTypeView>, int), Miss>(
                f.miss(),
            ) && f.at <= chars.len(),
        },
{
    if peek_tag(chars, i, '=') {
        let start = skip(chars, i + 1, CharClass::Space);
        match parse_value(chars, start) {
            Ok((v, e)) => Ok((Some(ValueType::Const(v)), e)),
            Err(f) => Err(f),
        }
    } else if peek_next_of(chars, i) {
        match parse_value(chars, i) {
            Ok((v, e)) => Ok((Some(ValueType::Default(v)), e)),
            Err(f) => Err(f),
        }
    } else {
        Ok((None, i))
    }
}

/// The comment at `i`, if a `#` stands there.
fn parse_trailing_comment(chars: &Vec<char>, i: usize) -> (r: Result<
    (Option<String>, usize),
    Failure,
>)
    requires
        i <= chars.len(),
    ensures
        match r {
            Ok((c, e)) => trailing_comment(chars@, i as int) == Ok::<
                (Option<Seq<char>>, int),
                Miss,
            >((option_text(c), e as int)) && i <= e <= chars.len(),
            Err(f) => trailing_comment(chars@, i as int) == Err::<(Option<Seq<char>>, int), Miss>(
                f.miss(),
            ) && f.at <= chars.len(),
        },
{
    if peek_tag(chars, i, '#') {
        match not_line_ending(chars, i + 1) {
            Some(e) => Ok((Some(slice_of(chars, i + 1, e)), e)),
            None => Err(Failure { at: i + 1, expected: Expected::CommentText }),
        }
    } else {
        Ok((None, i))
    }
}

/// The declaration at `i`.
fn parse_variable(chars: &Vec<char>, i: usize) -> (r: Result<(Expr, usize), Failure>)
    requires
        i <= chars.len(),
    ensures
        match r {
            Ok((expr, e)) => variable(chars@, i as int) == Ok::<(ExprView, int), Miss>(
                (expr@, e as int),
            ) && i < e <= chars.len() && expr is Variable,
            Err(f) => variable(chars@, i as int) == Err::<(ExprView, int), Miss>(f.miss()) && f.at
                <= chars.len(),
        },
{
    let (var_type, a) = match parse_typename(chars, i) {
        Ok(ty) => ty,
        Err(f) => {
            return Err(f);
        },
    };
    // skip whitespaces
    let b = skip(chars, a, CharClass::Space);
    if b <= a {
        return Err(Failure { at: a, expected: Expected::Space });
    }
    // parse variable name
    let c = match parse_identifier(chars, b) {
        Some(c) => c,
        None => {
            return Err(Failure { at: b, expected: Expected::Identifier });
        },
    };
    let var_name = slice_of(chars, b, c);
    // parse default or constant value
    let d = skip(chars, c, CharClass::Space);
    let (value, e) = match parse_bound_value(chars, d) {
        Ok(bound) => bound,
        Err(f) => {
            return Err(f);
        },
    };
    let f = skip(chars, e, CharClass::Space);
    let (comment, g) = match parse_trailing_comment(chars, f) {
        Ok(comment) => comment,
        Err(f) => {
            return Err(f);
        },
    };
    match parse_end(chars, g) {
        Ok(h) => Ok((Expr::Variable { var_type, var_name, value, comment }, h)),
        Err(f) => Err(f),
    }
}

/// The line that holds a comment only, at `i`.
fn parse_comment(chars: &Vec<char>, i: usize) -> (r: Option<usize>)
    requires
        i <= chars.len(),
    ensures
        pos(r) == comment_line(chars@, i as int),
        r matches Some(e) ==> i < e <= chars.len(),
{
    if !peek_tag(chars, i, '#') {
        return None;
    }
    match not_line_ending(chars, i + 1) {
        Some(e) => match parse_end(chars, e) {
            Ok(h) => Some(h),
            Err(_) => None,
        },
        None => None,
    }
}

/// The line at `i`: the end of the text, an empty line, a comment, or a
/// declaration.
fn parse_expr(chars: &Vec<char>, i: usize) -> (r: Result<(Expr, usize), Failure>)
    requires
        i <= chars.len(),
    ensures
        match r {
            Ok((expr, e)) => line(chars@, i as int) == Ok::<(ExprView, int), Miss>(
                (expr@, e as int),
            ) && i <= e <= chars.len() && (i < chars.len() ==> i < e),
            Err(f) => line(chars@, i as int) == Err::<(ExprView, int), Miss>(f.miss()) && f.at
                <= chars.len(),
        },
{
    let a = skip(chars, i, CharClass::Space);
    if a >= chars.len() {
        return Ok((Expr::Eof, a));
    }
    match line_ending(chars, a) {
        Some(e) => {
            return Ok((Expr::Empty, e));
        },
        None => {},
    }
    match parse_comment(chars, a) {
        Some(e) => {
            return Ok((Expr::Comment, e));
        },
        None => {},
    }
    parse_variable(chars, a)
}

/// The declarations `head`, and behind them what `rest` holds.
pub open spec fn prepend_exprs(head: Seq<ExprView>, rest: Result<Seq<ExprView>, Miss>) -> Result<
    Seq<ExprView>,
    Miss,
> {
    match rest {
        Ok(tail) => Ok(head + tail),
        Err(m) => Err(m),
    }
}

/// The declarations of the text `chars`.
fn parse_chars(chars: &Vec<char>) -> (r: Result<Vec<Expr>, Failure>)
    ensures
        match r {
            Ok(exprs) => message(chars@) == Ok::<Seq<ExprView>, Miss>(expr_views(exprs@)),
            Err(f) => message(chars@) == Err::<Seq<ExprView>, Miss>(f.miss()) && f.at
                <= chars.len(),
        },
{
    let ghost s = chars@;
    let mut result: Vec<Expr> = Vec::new();
    let mut i: usize = 0;
    assert(prepend_exprs(expr_views(result@), declarations(s, 0)) =~= declarations(s, 0)) by {
        assert(expr_views(result@) =~= Seq::empty());
        match declarations(s, 0) {
            Ok(tail) => {
                assert(Seq::<ExprView>::empty() + tail =~= tail);
            },
            Err(_) => {},
        }
    }
    while i < chars.len()
        invariant
            i <= chars.len(),
            s == chars@,
            message(s) == prepend_exprs(expr_views(result@), declarations(s, i as int)),
        decreases chars.len() - i,
    {
        let ghost before = expr_views(result@);
        match parse_expr(chars, i) {
            Err(f) => {
                return Err(f);
            },
            Ok((expr, next)) => {
                let ghost shown = expr@;
                if let Expr::Variable { .. } = &expr {
                    result.push(expr);
                    proof {
                        assert(expr_views(result@) =~= before.push(shown));
                        if let Ok(tail) = declarations(s, next as int) {
                            assert(expr_views(result@) + tail =~= before + (seq![shown] + tail));
                        }
                    }
                }
                assert(message(s) == prepend_exprs(
                    expr_views(result@),
                    declarations(s, next as int),
                ));
                i = next;
            },
        }
    }
    proof {
        assert(expr_views(result@) + Seq::<ExprView>::empty() =~= expr_views(result@));
    }
    Ok(result)
}

/// Reads the declarations of an interface file.
///
/// On success the result holds the declarations of the text in their
/// order, each as an [`Expr::Variable`]; empty lines and comments leave no
/// trace. On failure the error says what the grammar misses, and gives the
/// byte offset of the first character that was not taken.
pub fn parse_msg(input: &str) -> (r: Result<Vec<Expr>, ParseError>)
    ensures
        match r {
            Ok(exprs) => message(input@) == Ok::<Seq<ExprView>, Miss>(expr_views(exprs@)),
            Err(e) => {
                &&& message(input@) matches Err(m)
                &&& e.expected == m.expected
                &&& 0 <= m.at <= input@.len()
                &&& e.offset == utf8_len(input@.take(m.at))
            },
        },
{
    let chars = to_chars(input);
    let total = input.as_bytes().len();
    match parse_chars(&chars) {
        Ok(exprs) => Ok(exprs),
        Err(f) => Err(ParseError { offset: byte_offset(&chars, f.at, total), expected: f.expected }),
    }
}

/// The position behind the separator line that starts at `i`, if one
/// starts there.
fn separator_end(chars: &Vec<char>, i: usize) -> (r: Option<usize>)
    requires
        i <= chars.len(),
    ensures
        match r {
            Some(e) => {
                &&& separator_at(chars@, i as int)
                &&& end_of_line(chars@, scan(chars@, i + 3, CharClass::Space)) == Ok::<int, Miss>(
                    e as int,
                )
                &&& i + 3 <= e <= chars.len()
            },
            None => !separator_at(chars@, i as int),
        },
{
    let ghost dashes = seq!['-', '-', '-'];
    if !(i == 0 || chars[i - 1] == '\n') {
        return None;
    }
    if chars.len() - i >= 3 && chars[i] == '-' && chars[i + 1] == '-' && chars[i + 2] == '-' {
        assert(chars@.subrange(i as int, i + 3) =~= dashes);
        let e = skip(chars, i + 3, CharClass::Space);
        match parse_end(chars, e) {
            Ok(end) => Some(end),
            Err(_) => None,
        }
    } else {
        proof {
            if word_at(chars@, i as int, dashes) {
                let w = chars@.subrange(i as int, i + 3);
                assert(w[0] == '-' && w[1] == '-' && w[2] == '-');
            }
        }
        None
    }
}

/// The start of the first separator line, and the position behind that
/// line.
fn find_separator(chars: &Vec<char>) -> (r: Option<(usize, usize)>)
    ensures
        match r {
            Some((l, e)) => {
                &&& first_separator(chars@, 0) == Some(l as int)
                &&& end_of_line(chars@, scan(chars@, l + 3, CharClass::Space)) == Ok::<int, Miss>(
                    e as int,
                )
                &&& l <= e <= chars.len()
            },
            None => first_separator(chars@, 0) is None,
        },
{
    let mut i: usize = 0;
    while i < chars.len()
        invariant
            i <= chars.len(),
            first_separator(chars@, 0) == first_separator(chars@, i as int),
        decreases chars.len() - i,
    {
        match separator_end(chars, i) {
            Some(e) => {
                return Some((i, e));
            },
            None => {},
        }
        i += 1;
    }
    None
}

/// The characters `chars[from..to]` as a text of their own.
fn part(chars: &Vec<char>, from: usize, to: usize) -> (r: Vec<char>)
    requires
        from <= to <= chars.len(),
    ensures
        r@ == chars@.subrange(from as int, to as int),
{
    let mut r: Vec<char> = Vec::new();
    let mut i: usize = from;
    while i < to
        invariant
            from <= i <= to <= chars.len(),
            r@ == chars@.subrange(from as int, i as int),
        decreases to - i,
    {
        r.push(chars[i]);
        i += 1;
        assert(r@ =~= chars@.subrange(from as int, i as int));
    }
    r
}

/// Reads the declarations of a service file: those of the request, a line
/// `---`, and those of the response.
///
/// On failure the error says what the grammar misses, and gives the byte
/// offset, in the whole text, of the first character that was not taken. A
/// text without the line `---` fails at its end.
pub fn parse_srv(input: &str) -> (r: Result<(Vec<Expr>, Vec<Expr>), ParseError>)
    ensures
        match r {
            Ok((request, response)) => service(input@) == Ok::<
                (Seq<ExprView>, Seq<ExprView>),
                Miss,
            >((expr_views(request@), expr_views(response@))),
            Err(e) => {
                &&& service(input@) matches Err(m)
                &&& e.expected == m.expected
                &&& 0 <= m.at <= input@.len()
                &&& e.offset == utf8_len(input@.take(m.at))
            },
        },
{
    let chars = to_chars(input);
    let total = input.as_bytes().len();
    let (l, start) = match find_separator(&chars) {
        Some(found) => found,
        None => {
            let offset = byte_offset(&chars, chars.len(), total);
            return Err(ParseError { offset, expected: Expected::Separator });
        },
    };
    let head = part(&chars, 0, l);
    assert(head@ =~= chars@.take(l as int));
    let request = match parse_chars(&head) {
        Ok(exprs) => exprs,
        Err(f) => {
            return Err(
                ParseError { offset: byte_offset(&chars, f.at, total), expected: f.expected },
            );
        },
    };
    let tail = part(&chars, start, chars.len());
    assert(tail@ =~= chars@.skip(start as int));
    match parse_chars(&tail) {
        Ok(response) => Ok((request, response)),
        Err(f) => Err(
            ParseError { offset: byte_offset(&chars, f.at + start, total), expected: f.expected },
        ),
    }
}

} // verus!

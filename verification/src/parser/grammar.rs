//! The grammar of interface files, as functions on a text and a position in
//! it.
//!
//! A text is a sequence of characters; a position is an index into it. Each
//! function reads one construct at a position and gives what it read and
//! the position behind it, or says where it stopped and what it missed
//! there.
//!
//! ```text
//! Line      := Empty | Comment | VarDecl
//! VarDecl   := TypeName Identifier ['=' Value | Value] [Comment]
//! TypeName  := 'string' ['<=' UInt] ArraySuffix?
//!            | Identifier '/' Identifier ArraySuffix?
//!            | Identifier ArraySuffix?
//! ArraySuffix := '[' ']' | '[' UInt ']' | '[' '<=' UInt ']'
//! Identifier := ('_' | Letter) (Letter | Digit | '_')*
//! Value     := Bool | Number | QuotedString | '[' Value (',' Value)* ']'
//! Number    := '-'? Digits ('.' Digits)?
//! Comment   := '#' <rest of line>
//! ```

use vstd::prelude::*;
use crate::parser::{ArrayInfo, ExprView, TypeNameView, ValueTypeView, ValueView};

verus! {

/// What the parser missed where it stopped.
#[derive(Debug, Clone, Copy, PartialEq, Eq)]
pub enum Expected {
    /// A letter or an underscore, which starts an identifier.
    Identifier,
    /// A space or a tab between a type and a name.
    Space,
    /// The end of the line.
    LineEnding,
    /// A decimal number that fits in 64 bits.
    Digit,
    /// `<=` before the bound of an array.
    LessEqual,
    /// `]` at the end of an array suffix.
    CloseBracket,
    /// A value: a number, a truth value, an array or a quoted string.
    Value,
    /// The rest of a quoted string and its closing quote.
    Character,
    /// One of the characters that may follow a backslash.
    Escape,
    /// A line feed after the carriage return in a comment.
    CommentText,
    /// The line `---` between the request and the response of a service.
    Separator,
}

/// Where the grammar is not met, and what is missing there.
pub struct Miss {
    pub at: int,
    pub expected: Expected,
}

/// The kinds of characters that the grammar reads in runs.
#[derive(Debug, Clone, Copy, PartialEq, Eq)]
pub enum CharClass {
    /// Spaces and tabs.
    Space,
    /// What an identifier holds behind its first character: letters, digits
    /// and underscores.
    Name,
    /// Decimal digits.
    Digit,
    /// Everything but a carriage return and a line feed.
    Text,
}

/// An ASCII letter.
pub open spec fn is_letter(c: char) -> bool {
    ('a' <= c && c <= 'z') || ('A' <= c && c <= 'Z')
}

/// A decimal digit.
pub open spec fn is_digit(c: char) -> bool {
    '0' <= c && c <= '9'
}

impl CharClass {
    /// Whether `c` is of this kind.
    pub open spec fn has(self, c: char) -> bool {
        match self {
            CharClass::Space => c == ' ' || c == '\t',
            CharClass::Name => is_letter(c) || is_digit(c) || c == '_',
            CharClass::Digit => is_digit(c),
            CharClass::Text => c != '\r' && c != '\n',
        }
    }
}

/// Whether the character at position `i` is `c`.
pub open spec fn at(s: Seq<char>, i: int, c: char) -> bool {
    0 <= i < s.len() && s[i] == c
}

/// The end of the longest run of characters of `class` that starts at `i`.
pub open spec fn scan(s: Seq<char>, i: int, class: CharClass) -> int
    decreases s.len() - i,
{
    if 0 <= i < s.len() && class.has(s[i]) {
        scan(s, i + 1, class)
    } else {
        i
    }
}

/// The position behind the line ending at `i`: a line feed, or a carriage
/// return and a line feed.
pub open spec fn line_end(s: Seq<char>, i: int) -> Option<int> {
    if at(s, i, '\n') {
        Some(i + 1)
    } else if at(s, i, '\r') && at(s, i + 1, '\n') {
        Some(i + 2)
    } else {
        None
    }
}

/// The end of the text that runs from `i` to the end of its line; `None`
/// where a carriage return without a line feed stands in the way.
pub open spec fn text_end(s: Seq<char>, i: int) -> Option<int> {
    let e = scan(s, i, CharClass::Text);
    if at(s, e, '\r') && !at(s, e + 1, '\n') {
        None
    } else {
        Some(e)
    }
}

/// The end of the identifier that starts at `i`.
pub open spec fn identifier(s: Seq<char>, i: int) -> Option<int> {
    if 0 <= i < s.len() && (s[i] == '_' || is_letter(s[i])) {
        Some(scan(s, i + 1, CharClass::Name))
    } else {
        None
    }
}

/// The number that a decimal digit stands for.
pub open spec fn digit_of(c: char) -> nat {
    (c as u32 - '0' as u32) as nat
}

/// The number that the digits `s[from..to]` write.
pub open spec fn digits_value(s: Seq<char>, from: int, to: int) -> nat
    decreases to - from,
{
    if to <= from {
        0
    } else {
        digits_value(s, from, to - 1) * 10 + digit_of(s[to - 1])
    }
}

/// The unsigned number at `i`, and the position behind it: the longest run
/// of digits, which is not empty and whose number fits in 64 bits.
pub open spec fn unsigned(s: Seq<char>, i: int) -> Option<(u64, int)> {
    let e = scan(s, i, CharClass::Digit);
    if i < e && digits_value(s, i, e) <= u64::MAX {
        Some((digits_value(s, i, e) as u64, e))
    } else {
        None
    }
}

/// The array suffix at `i`, after any spaces: `[]`, `[N]` or `[<=N]`, with
/// spaces allowed inside the brackets. Where no bracket follows, the type is
/// no array and nothing is read.
pub open spec fn array_info(s: Seq<char>, i: int) -> Result<(ArrayInfo, int), Miss> {
    let open = scan(s, i, CharClass::Space);
    if !at(s, open, '[') {
        Ok((ArrayInfo::NotArray, i))
    } else {
        let a = scan(s, open + 1, CharClass::Space);
        match array_bound(s, a) {
            Err(m) => Err(m),
            Ok((info, b)) => {
                let close = scan(s, b, CharClass::Space);
                if at(s, close, ']') {
                    Ok((info, close + 1))
                } else {
                    Err(Miss { at: close, expected: Expected::CloseBracket })
                }
            },
        }
    }
}

/// What stands between the brackets of an array suffix: nothing, `<=N` or
/// `N`.
pub open spec fn array_bound(s: Seq<char>, a: int) -> Result<(ArrayInfo, int), Miss> {
    if at(s, a, ']') {
        Ok((ArrayInfo::Dynamic, a))
    } else if at(s, a, '<') {
        if at(s, a + 1, '=') {
            match unsigned(s, a + 2) {
                Some((n, e)) => Ok((ArrayInfo::Limited(n as usize), e)),
                None => Err(Miss { at: a + 2, expected: Expected::Digit }),
            }
        } else {
            Err(Miss { at: a, expected: Expected::LessEqual })
        }
    } else {
        match unsigned(s, a) {
            Some((n, e)) => Ok((ArrayInfo::Static(n as usize), e)),
            None => Err(Miss { at: a, expected: Expected::Digit }),
        }
    }
}

/// The type at `i`: `string` with an optional bound, a name with a scope
/// before it, or a bare name; each with an optional array suffix.
pub open spec fn type_name_at(s: Seq<char>, i: int) -> Result<(TypeNameView, int), Miss> {
    match identifier(s, i) {
        None => Err(Miss { at: i, expected: Expected::Identifier }),
        Some(e) => {
            let word = s.subrange(i, e);
            if word == "string"@ {
                string_type_at(s, e)
            } else if at(s, e, '/') {
                match identifier(s, e + 1) {
                    None => Err(Miss { at: e + 1, expected: Expected::Identifier }),
                    Some(f) => match array_info(s, f) {
                        Err(m) => Err(m),
                        Ok((info, g)) => Ok(
                            (
                                TypeNameView::ScopedType {
                                    scope: word,
                                    name: s.subrange(e + 1, f),
                                    array_info: info,
                                },
                                g,
                            ),
                        ),
                    },
                }
            } else {
                match array_info(s, e) {
                    Err(m) => Err(m),
                    Ok((info, g)) => Ok((TypeNameView::Type { name: word, array_info: info }, g)),
                }
            }
        },
    }
}

/// What follows the word `string` at `e`: an optional bound `<=N`, and an
/// optional array suffix.
pub open spec fn string_type_at(s: Seq<char>, e: int) -> Result<(TypeNameView, int), Miss> {
    if at(s, e, '<') && at(s, e + 1, '=') {
        match unsigned(s, e + 2) {
            None => Err(Miss { at: e + 2, expected: Expected::Digit }),
            Some((n, f)) => match array_info(s, f) {
                Err(m) => Err(m),
                Ok((info, g)) => Ok(
                    (TypeNameView::LimitedString { size: n as usize, array_info: info }, g),
                ),
            },
        }
    } else {
        match array_info(s, e) {
            Err(m) => Err(m),
            Ok((info, g)) => Ok((TypeNameView::String(info), g)),
        }
    }
}

/// The number at `i`: digits, with a minus sign before them for a negative
/// number, and with a point and more digits behind them for a decimal
/// fraction. A whole number has to fit in 64 bits with its sign, the whole
/// part of a fraction without it.
pub open spec fn number(s: Seq<char>, i: int) -> Option<(ValueView, int)> {
    let negative = at(s, i, '-');
    let start = if negative {
        i + 1
    } else {
        i
    };
    match unsigned(s, start) {
        None => None,
        Some((n, e)) => {
            if at(s, e, '.') {
                let f = scan(s, e + 1, CharClass::Digit);
                if e + 1 < f {
                    Some(
                        (
                            ValueView::Float {
                                negative,
                                whole: n,
                                fraction: s.subrange(e + 1, f),
                            },
                            f,
                        ),
                    )
                } else {
                    None
                }
            } else if negative {
                if n <= 0x8000_0000_0000_0000u64 {
                    Some((ValueView::Int((-(n as int)) as i64), e))
                } else {
                    None
                }
            } else {
                Some((ValueView::Uint(n), e))
            }
        },
    }
}

/// Whether the word `word` stands at `i`.
pub open spec fn word_at(s: Seq<char>, i: int, word: Seq<char>) -> bool {
    0 <= i && i + word.len() <= s.len() && s.subrange(i, i + word.len()) == word
}

/// The truth value at `i`: `true` or `false`.
pub open spec fn boolean(s: Seq<char>, i: int) -> Option<(ValueView, int)> {
    if word_at(s, i, seq!['t', 'r', 'u', 'e']) {
        Some((ValueView::Bool(true), i + 4))
    } else if word_at(s, i, seq!['f', 'a', 'l', 's', 'e']) {
        Some((ValueView::Bool(false), i + 5))
    } else {
        None
    }
}

/// Whether `c` may follow a backslash in a string between the quotes
/// `quote`.
pub open spec fn is_escape(c: char, quote: char) -> bool {
    c == 'r' || c == 'n' || c == 't' || c == '\\' || c == quote
}

/// What a string keeps of the escape `\c`: the escape as it is written
/// inside double quotes. A single quote needs no backslash there.
pub open spec fn escaped(c: char) -> Seq<char> {
    if c == '\'' {
        seq!['\'']
    } else {
        seq!['\\', c]
    }
}

/// What a string keeps of a character that stands for itself: the
/// character as it is written inside double quotes, where a double quote
/// needs a backslash.
pub open spec fn kept(c: char) -> Seq<char> {
    if c == '"' {
        seq!['\\', '"']
    } else {
        seq![c]
    }
}

/// The rest of the string that is open at `i`, up to the closing `quote`,
/// as it is written inside double quotes. Every character stands for
/// itself, but for the backslash, which takes the next character with it.
pub open spec fn string_tail(s: Seq<char>, i: int, quote: char) -> Result<(Seq<char>, int), Miss>
    decreases s.len() - i,
{
    if i < 0 || i >= s.len() {
        Err(Miss { at: s.len() as int, expected: Expected::Character })
    } else if s[i] == quote {
        Ok((Seq::empty(), i + 1))
    } else if s[i] == '\\' {
        if i + 1 < s.len() && is_escape(s[i + 1], quote) {
            match string_tail(s, i + 2, quote) {
                Ok((rest, e)) => Ok((escaped(s[i + 1]) + rest, e)),
                Err(m) => Err(m),
            }
        } else {
            Err(Miss { at: i + 1, expected: Expected::Escape })
        }
    } else {
        match string_tail(s, i + 1, quote) {
            Ok((rest, e)) => Ok((kept(s[i]) + rest, e)),
            Err(m) => Err(m),
        }
    }
}

/// The quoted string at `i`, between double or single quotes.
pub open spec fn string_literal(s: Seq<char>, i: int) -> Result<(Seq<char>, int), Miss> {
    if at(s, i, '"') || at(s, i, '\'') {
        string_tail(s, i + 1, s[i])
    } else {
        Err(Miss { at: i, expected: Expected::Value })
    }
}

/// The value at `i`, if one stands there.
pub open spec fn value_opt(s: Seq<char>, i: int) -> Option<(ValueView, int)>
    decreases s.len() - i, 2nat,
{
    if i < 0 || i >= s.len() {
        None
    } else if number(s, i) is Some {
        number(s, i)
    } else if boolean(s, i) is Some {
        boolean(s, i)
    } else if array(s, i) is Some {
        array(s, i)
    } else {
        match string_literal(s, i) {
            Ok((text, e)) => Some((ValueView::String(text), e)),
            Err(_) => None,
        }
    }
}

/// The array at `i`: values between square brackets, separated by commas.
pub open spec fn array(s: Seq<char>, i: int) -> Option<(ValueView, int)>
    decreases s.len() - i, 1nat,
{
    if at(s, i, '[') {
        match items(s, i + 1) {
            Some((values, e)) => if at(s, e, ']') {
                Some((ValueView::Array(values), e + 1))
            } else {
                None
            },
            None => None,
        }
    } else {
        None
    }
}

/// The values of an array from `i` on: one value, and after a comma the
/// values that follow it. A comma that no value follows is not read.
pub open spec fn items(s: Seq<char>, i: int) -> Option<(Seq<ValueView>, int)>
    decreases s.len() - i, 4nat,
{
    if i < 0 || i >= s.len() {
        None
    } else {
        match item(s, i) {
            None => None,
            Some((v, e)) => {
                if i < e && at(s, e, ',') {
                    match items(s, e + 1) {
                        Some((rest, f)) => Some((seq![v] + rest, f)),
                        None => Some((seq![v], e)),
                    }
                } else {
                    Some((seq![v], e))
                }
            },
        }
    }
}

/// One value of an array at `i`, with the spaces around it.
pub open spec fn item(s: Seq<char>, i: int) -> Option<(ValueView, int)>
    decreases s.len() - i, 3nat,
    via item_decreases
{
    let a = scan(s, i, CharClass::Space);
    match value_opt(s, a) {
        Some((v, e)) => Some((v, scan(s, e, CharClass::Space))),
        None => None,
    }
}

#[via_fn]
proof fn item_decreases(s: Seq<char>, i: int) {
    lemma_scan(s, i, CharClass::Space);
}

/// A run ends at or behind its start and inside the text; it holds
/// characters of its kind only, and the character behind it is of another
/// kind.
pub proof fn lemma_scan(s: Seq<char>, i: int, class: CharClass)
    ensures
        0 <= i <= s.len() ==> i <= scan(s, i, class) <= s.len(),
        !(0 <= i <= s.len()) ==> scan(s, i, class) == i,
        forall|k: int| i <= k < scan(s, i, class) ==> 0 <= k < s.len() && class.has(#[trigger] s[k]),
        0 <= scan(s, i, class) < s.len() ==> !class.has(s[scan(s, i, class)]),
    decreases s.len() - i,
{
    if 0 <= i < s.len() && class.has(s[i]) {
        lemma_scan(s, i + 1, class);
    }
}

/// Where no value stands at `i`: inside the quoted string that starts
/// there, or at `i` itself.
pub open spec fn value_miss(s: Seq<char>, i: int) -> Miss {
    match string_literal(s, i) {
        Err(m) => m,
        Ok(_) => Miss { at: i, expected: Expected::Value },
    }
}

/// The value at `i`.
pub open spec fn value(s: Seq<char>, i: int) -> Result<(ValueView, int), Miss> {
    match value_opt(s, i) {
        Some(r) => Ok(r),
        None => Err(value_miss(s, i)),
    }
}

/// Whether a value may start with the character at `i`.
pub open spec fn starts_value(s: Seq<char>, i: int) -> bool {
    0 <= i < s.len() && (s[i] == '-' || s[i] == '"' || s[i] == '\'' || s[i] == '[' || s[i] == 't'
        || s[i] == 'f' || is_digit(s[i]))
}

/// What follows a declared name at `i`: `=` and a value for a constant, a
/// value alone for a default, or nothing.
pub open spec fn bound_value(s: Seq<char>, i: int) -> Result<(Option<ValueTypeView>, int), Miss> {
    if at(s, i, '=') {
        match value(s, scan(s, i + 1, CharClass::Space)) {
            Ok((v, e)) => Ok((Some(ValueTypeView::Const(v)), e)),
            Err(m) => Err(m),
        }
    } else if starts_value(s, i) {
        match value(s, i) {
            Ok((v, e)) => Ok((Some(ValueTypeView::Default(v)), e)),
            Err(m) => Err(m),
        }
    } else {
        Ok((None, i))
    }
}

/// The comment at `i`, if a `#` stands there: the text behind the `#`, up
/// to the end of the line.
pub open spec fn trailing_comment(s: Seq<char>, i: int) -> Result<(Option<Seq<char>>, int), Miss> {
    if at(s, i, '#') {
        match text_end(s, i + 1) {
            Some(e) => Ok((Some(s.subrange(i + 1, e)), e)),
            None => Err(Miss { at: i + 1, expected: Expected::CommentText }),
        }
    } else {
        Ok((None, i))
    }
}

/// The position behind the end of the line at `i`: the end of the text, or
/// the position behind a line ending.
pub open spec fn end_of_line(s: Seq<char>, i: int) -> Result<int, Miss> {
    if i >= s.len() {
        Ok(i)
    } else {
        match line_end(s, i) {
            Some(e) => Ok(e),
            None => Err(Miss { at: i, expected: Expected::LineEnding }),
        }
    }
}

/// The declaration at `i`: a type, spaces, a name, an optional value, an
/// optional comment, and the end of the line.
pub open spec fn variable(s: Seq<char>, i: int) -> Result<(ExprView, int), Miss> {
    match type_name_at(s, i) {
        Err(m) => Err(m),
        Ok((var_type, a)) => {
            let b = scan(s, a, CharClass::Space);
            if b <= a {
                Err(Miss { at: a, expected: Expected::Space })
            } else {
                match identifier(s, b) {
                    None => Err(Miss { at: b, expected: Expected::Identifier }),
                    Some(c) => match bound_value(s, scan(s, c, CharClass::Space)) {
                        Err(m) => Err(m),
                        Ok((value, e)) => match trailing_comment(
                            s,
                            scan(s, e, CharClass::Space),
                        ) {
                            Err(m) => Err(m),
                            Ok((comment, g)) => match end_of_line(s, g) {
                                Err(m) => Err(m),
                                Ok(h) => Ok(
                                    (
                                        ExprView::Variable {
                                            var_type,
                                            var_name: s.subrange(b, c),
                                            value,
                                            comment,
                                        },
                                        h,
                                    ),
                                ),
                            },
                        },
                    },
                }
            }
        },
    }
}

/// The line that holds a comment only, at `i`.
pub open spec fn comment_line(s: Seq<char>, i: int) -> Option<int> {
    if at(s, i, '#') {
        match text_end(s, i + 1) {
            Some(e) => match end_of_line(s, e) {
                Ok(h) => Some(h),
                Err(_) => None,
            },
            None => None,
        }
    } else {
        None
    }
}

/// The line at `i`, after any spaces: the end of the text, an empty line,
/// a comment, or a declaration.
pub open spec fn line(s: Seq<char>, i: int) -> Result<(ExprView, int), Miss> {
    let a = scan(s, i, CharClass::Space);
    if a >= s.len() {
        Ok((ExprView::Eof, a))
    } else if line_end(s, a) is Some {
        Ok((ExprView::Empty, line_end(s, a)->0))
    } else if comment_line(s, a) is Some {
        Ok((ExprView::Comment, comment_line(s, a)->0))
    } else {
        variable(s, a)
    }
}

/// The declarations of the text from `i` on, in their order. Empty lines
/// and comments leave no trace.
pub open spec fn declarations(s: Seq<char>, i: int) -> Result<Seq<ExprView>, Miss>
    decreases s.len() - i,
{
    if i < 0 || i >= s.len() {
        Ok(Seq::empty())
    } else {
        match line(s, i) {
            Err(m) => Err(m),
            Ok((expr, next)) => {
                if i < next <= s.len() {
                    match declarations(s, next) {
                        Err(m) => Err(m),
                        Ok(rest) => Ok(
                            if expr is Variable {
                                seq![expr] + rest
                            } else {
                                rest
                            },
                        ),
                    }
                } else {
                    Ok(Seq::empty())
                }
            },
        }
    }
}

/// The declarations of a whole text.
pub open spec fn message(s: Seq<char>) -> Result<Seq<ExprView>, Miss> {
    declarations(s, 0)
}

/// Whether the line that starts at `i` parts a request from a response:
/// `---` at the very start of a line, with nothing but spaces behind it.
pub open spec fn separator_at(s: Seq<char>, i: int) -> bool {
    &&& i == 0 || at(s, i - 1, '\n')
    &&& word_at(s, i, seq!['-', '-', '-'])
    &&& end_of_line(s, scan(s, i + 3, CharClass::Space)) is Ok
}

/// The start of the first separator line at or behind `i`.
pub open spec fn first_separator(s: Seq<char>, i: int) -> Option<int>
    decreases s.len() - i,
{
    if i < 0 || i + 3 > s.len() {
        None
    } else if separator_at(s, i) {
        Some(i)
    } else {
        first_separator(s, i + 1)
    }
}

/// The declarations of a service: those of the request, which stand before
/// the first separator line, and those of the response, which stand behind
/// it. A text without separator line is no service.
pub open spec fn service(s: Seq<char>) -> Result<(Seq<ExprView>, Seq<ExprView>), Miss> {
    match first_separator(s, 0) {
        None => Err(Miss { at: s.len() as int, expected: Expected::Separator }),
        Some(l) => match message(s.take(l)) {
            Err(m) => Err(m),
            Ok(request) => {
                let start = end_of_line(s, scan(s, l + 3, CharClass::Space))->Ok_0;
                match message(s.skip(start)) {
                    Err(m) => Err(Miss { at: m.at + start, expected: m.expected }),
                    Ok(response) => Ok((request, response)),
                }
            },
        },
    }
}

} // verus!

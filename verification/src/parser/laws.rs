//! What holds of every text that the grammar reads.

use vstd::prelude::*;
use crate::parser::display::display_text;
use crate::parser::grammar::{
    array,
    array_bound,
    array_info,
    bound_value,
    declarations,
    digit_of,
    digits_value,
    escaped,
    identifier,
    is_digit,
    is_escape,
    is_letter,
    item,
    items,
    kept,
    lemma_scan,
    line,
    number,
    scan,
    string_literal,
    string_tail,
    type_name_at,
    unsigned,
    value,
    value_opt,
    variable,
    CharClass,
    Miss,
};
use crate::parser::{prepend_text, ValueView};
use crate::text::{decimal, digit_char};

verus! {

/// The character that the escape `\c` stands for.
pub open spec fn unescaped(c: char) -> char {
    if c == 'r' {
        '\r'
    } else if c == 'n' {
        '\n'
    } else if c == 't' {
        '\t'
    } else {
        c
    }
}

/// The characters that the quoted string open at `i` stands for, up to the
/// closing `quote`: each escape gives its character, every other character
/// itself.
pub open spec fn literal_value(s: Seq<char>, i: int, quote: char) -> Seq<char>
    decreases s.len() - i,
{
    if i < 0 || i >= s.len() || s[i] == quote {
        Seq::empty()
    } else if s[i] == '\\' {
        if i + 1 < s.len() && is_escape(s[i + 1], quote) {
            seq![unescaped(s[i + 1])] + literal_value(s, i + 2, quote)
        } else {
            Seq::empty()
        }
    } else {
        seq![s[i]] + literal_value(s, i + 1, quote)
    }
}

/// The characters that a text stands for when it is read as the inside of
/// a double-quoted literal.
pub open spec fn decoded(t: Seq<char>) -> Seq<char>
    decreases t.len(),
{
    if t.len() == 0 {
        Seq::empty()
    } else if t[0] == '\\' && t.len() >= 2 {
        seq![unescaped(t[1])] + decoded(t.skip(2))
    } else {
        seq![t[0]] + decoded(t.skip(1))
    }
}

/// The same result, with its position moved by `by`.
pub open spec fn moved(r: Result<(Seq<char>, int), Miss>, by: int) -> Result<
    (Seq<char>, int),
    Miss,
> {
    match r {
        Ok((text, e)) => Ok((text, e + by)),
        Err(m) => Err(Miss { at: m.at + by, expected: m.expected }),
    }
}

/// Reading a string in the text behind position `i` is reading it in the
/// whole text, `i` characters further on.
pub proof fn lemma_tail_skip(s: Seq<char>, i: int, j: int, quote: char)
    requires
        0 <= i,
        0 <= j,
        i + j <= s.len(),
    ensures
        string_tail(s, i + j, quote) == moved(string_tail(s.skip(i), j, quote), i),
    decreases s.len() - (i + j),
{
    let rest = s.skip(i);
    if j < rest.len() {
        assert(rest[j] == s[i + j]);
        if rest[j] == quote {
        } else if rest[j] == '\\' {
            if j + 1 < rest.len() && is_escape(rest[j + 1], quote) {
                assert(rest[j + 1] == s[i + j + 1]);
                lemma_tail_skip(s, i, j + 2, quote);
            }
        } else {
            lemma_tail_skip(s, i, j + 1, quote);
        }
    }
}

/// What a string keeps of its escapes stands for the characters that the
/// string stands for, whatever text follows it.
pub proof fn lemma_decoded_text(s: Seq<char>, i: int, quote: char, rest: Seq<char>)
    requires
        quote == '"' || quote == '\'',
        string_tail(s, i, quote) is Ok,
    ensures
        decoded(string_tail(s, i, quote)->Ok_0.0 + rest) == literal_value(s, i, quote) + decoded(
            rest,
        ),
    decreases s.len() - i,
{
    let text = string_tail(s, i, quote)->Ok_0.0;
    if s[i] == quote {
        assert(text + rest =~= rest);
        assert(literal_value(s, i, quote) + decoded(rest) =~= decoded(rest));
    } else if s[i] == '\\' {
        let c = s[i + 1];
        lemma_decoded_text(s, i + 2, quote, rest);
        let tail = string_tail(s, i + 2, quote)->Ok_0.0;
        let whole = text + rest;
        assert(text == escaped(c) + tail);
        if c == '\'' {
            assert(whole.skip(1) =~= tail + rest);
            assert(whole[0] == '\'');
        } else {
            assert(whole[0] == '\\' && whole[1] == c);
            assert(whole.skip(2) =~= tail + rest);
        }
        assert(decoded(whole) =~= literal_value(s, i, quote) + decoded(rest));
    } else {
        lemma_decoded_text(s, i + 1, quote, rest);
        let tail = string_tail(s, i + 1, quote)->Ok_0.0;
        let whole = text + rest;
        assert(text == kept(s[i]) + tail);
        if s[i] == '"' {
            assert(whole[0] == '\\' && whole[1] == '"');
            assert(whole.skip(2) =~= tail + rest);
        } else {
            assert(whole[0] == s[i]);
            assert(whole.skip(1) =~= tail + rest);
        }
        assert(decoded(whole) =~= literal_value(s, i, quote) + decoded(rest));
    }
}

/// What a string keeps of its escapes reads back as itself between double
/// quotes, whatever text follows it.
pub proof fn lemma_text_reads_back(s: Seq<char>, i: int, quote: char, rest: Seq<char>)
    requires
        quote == '"' || quote == '\'',
        0 <= i,
        string_tail(s, i, quote) is Ok,
    ensures
        string_tail(string_tail(s, i, quote)->Ok_0.0 + rest, 0, '"') == prepend_text(
            string_tail(s, i, quote)->Ok_0.0,
            moved(string_tail(rest, 0, '"'), string_tail(s, i, quote)->Ok_0.0.len() as int),
        ),
    decreases s.len() - i,
{
    let (text, e) = string_tail(s, i, quote)->Ok_0;
    let whole = text + rest;
    let after = moved(string_tail(rest, 0, '"'), text.len() as int);
    if s[i] == quote {
        assert(whole =~= rest);
        match string_tail(rest, 0, '"') {
            Ok((t, _)) => {
                assert(Seq::<char>::empty() + t =~= t);
            },
            Err(_) => {},
        }
    } else {
        let step: int = if s[i] == '\\' {
            2
        } else {
            1
        };
        lemma_positions(s, i + step, quote);
        lemma_text_reads_back(s, i + step, quote, rest);
        let tail = string_tail(s, i + step, quote)->Ok_0.0;
        let head: Seq<char> = if s[i] == '\\' {
            escaped(s[i + 1])
        } else {
            kept(s[i])
        };
        assert(text == head + tail);
        assert(whole.skip(head.len() as int) =~= tail + rest);
        lemma_tail_skip(whole, head.len() as int, 0, '"');
        assert(whole[0] == head[0]);
        if head.len() == 2 {
            assert(whole[1] == head[1]);
        }
        match string_tail(rest, 0, '"') {
            Ok((t, _)) => {
                assert(head + (tail + t) =~= text + t);
            },
            Err(_) => {},
        }
    }
}

/// A string ends behind its start and inside the text.
pub proof fn lemma_positions(s: Seq<char>, i: int, quote: char)
    requires
        0 <= i,
    ensures
        string_tail(s, i, quote) matches Ok(r) ==> i < r.1 <= s.len(),
    decreases s.len() - i,
{
    if i < s.len() && s[i] != quote {
        if s[i] == '\\' {
            if i + 1 < s.len() && is_escape(s[i + 1], quote) {
                lemma_positions(s, i + 2, quote);
            }
        } else {
            lemma_positions(s, i + 1, quote);
        }
    }
}

/// A string constant keeps the value of its literal, whatever quotes the
/// literal stands between: the value that the generated code holds for it
/// reads back, as a quoted string of this grammar, as what the literal kept
/// and the NUL behind it, and that stands for the characters of the literal
/// and the NUL.
pub proof fn law_string_constant_round_trip(s: Seq<char>, i: int, quote: char)
    requires
        quote == '"' || quote == '\'',
        0 <= i,
        string_tail(s, i, quote) is Ok,
    ensures
        string_literal(display_text(ValueView::String(string_tail(s, i, quote)->Ok_0.0)), 1)
            == Ok::<(Seq<char>, int), Miss>(
            (
                string_tail(s, i, quote)->Ok_0.0.push('\0'),
                (string_tail(s, i, quote)->Ok_0.0.len() + 4) as int,
            ),
        ),
        decoded(string_tail(s, i, quote)->Ok_0.0.push('\0')) == literal_value(s, i, quote).push(
            '\0',
        ),
{
    let text = string_tail(s, i, quote)->Ok_0.0;
    let rest = seq!['\0', '"'];
    let shown = display_text(ValueView::String(text));
    reveal_strlit("b\"");
    reveal_strlit("\0\"");
    assert("\0\""@ =~= rest);
    assert(shown =~= seq!['b', '"'] + text + rest);
    assert(shown.skip(2) =~= text + rest);
    lemma_tail_skip(shown, 2, 0, '"');
    lemma_text_reads_back(s, i, quote, rest);
    assert(string_tail(rest, 0, '"') == Ok::<(Seq<char>, int), Miss>((seq!['\0'], 2))) by {
        assert(string_tail(rest, 1, '"') == Ok::<(Seq<char>, int), Miss>((Seq::empty(), 2)));
        assert(seq!['\0'] + Seq::<char>::empty() =~= seq!['\0']);
    }
    assert(text + seq!['\0'] =~= text.push('\0'));

    let nul = seq!['\0'];
    lemma_decoded_text(s, i, quote, nul);
    assert(decoded(nul) =~= nul) by {
        assert(nul.skip(1) =~= Seq::<char>::empty());
        assert(decoded(Seq::<char>::empty()) =~= Seq::<char>::empty());
    }
    assert(literal_value(s, i, quote) + nul =~= literal_value(s, i, quote).push('\0'));
}

/// An unsigned number takes at least one character and ends inside the
/// text.
pub proof fn lemma_unsigned_advances(s: Seq<char>, i: int)
    requires
        0 <= i <= s.len(),
    ensures
        unsigned(s, i) matches Some(r) ==> i < r.1 <= s.len(),
{
    lemma_scan(s, i, CharClass::Digit);
}

/// A number takes at least one character and ends inside the text.
pub proof fn lemma_number_advances(s: Seq<char>, i: int)
    requires
        0 <= i <= s.len(),
    ensures
        number(s, i) matches Some(r) ==> i < r.1 <= s.len(),
{
    let start = if 0 <= i < s.len() && s[i] == '-' {
        i + 1
    } else {
        i
    };
    lemma_unsigned_advances(s, start);
    if let Some((_, e)) = unsigned(s, start) {
        lemma_scan(s, e + 1, CharClass::Digit);
    }
}

/// A value takes at least one character and ends inside the text.
pub proof fn law_value_advances(s: Seq<char>, i: int)
    ensures
        value_opt(s, i) matches Some(r) ==> i < r.1 <= s.len(),
    decreases s.len() - i, 2nat,
{
    if 0 <= i < s.len() {
        lemma_number_advances(s, i);
        lemma_array_advances(s, i);
        lemma_positions(s, i + 1, s[i]);
    }
}

/// An array takes at least one character and ends inside the text.
pub proof fn lemma_array_advances(s: Seq<char>, i: int)
    ensures
        array(s, i) matches Some(r) ==> i < r.1 <= s.len(),
    decreases s.len() - i, 1nat,
{
    if 0 <= i < s.len() && s[i] == '[' {
        law_items_advance(s, i + 1);
    }
}

/// The values of an array take at least one character and end inside the
/// text: the test that the grammar makes before it reads on behind a comma
/// never fails.
pub proof fn law_items_advance(s: Seq<char>, i: int)
    ensures
        items(s, i) matches Some(r) ==> i < r.1 <= s.len(),
        item(s, i) matches Some(r) ==> i < r.1,
    decreases s.len() - i, 4nat,
{
    if 0 <= i < s.len() {
        lemma_item_advances(s, i);
        if let Some((_, e)) = item(s, i) {
            if e < s.len() && s[e] == ',' {
                law_items_advance(s, e + 1);
            }
        }
    } else {
        lemma_item_advances(s, i);
    }
}

/// One value of an array, with the spaces around it, takes at least one
/// character and ends inside the text.
pub proof fn lemma_item_advances(s: Seq<char>, i: int)
    ensures
        item(s, i) matches Some(r) ==> i < r.1 <= s.len(),
    decreases s.len() - i, 3nat,
{
    lemma_scan(s, i, CharClass::Space);
    let a = scan(s, i, CharClass::Space);
    law_value_advances(s, a);
    if let Some((_, e)) = value_opt(s, a) {
        lemma_scan(s, e, CharClass::Space);
    }
}

/// An array suffix ends at or behind its start and inside the text.
pub proof fn lemma_array_info_advances(s: Seq<char>, i: int)
    requires
        0 <= i <= s.len(),
    ensures
        array_info(s, i) matches Ok(r) ==> i <= r.1 <= s.len(),
{
    lemma_scan(s, i, CharClass::Space);
    let open = scan(s, i, CharClass::Space);
    if open < s.len() && s[open] == '[' {
        lemma_scan(s, open + 1, CharClass::Space);
        let a = scan(s, open + 1, CharClass::Space);
        lemma_unsigned_advances(s, a);
        if a + 2 <= s.len() {
            lemma_unsigned_advances(s, a + 2);
        }
        if let Ok((_, b)) = array_bound(s, a) {
            lemma_scan(s, b, CharClass::Space);
        }
    }
}

/// A type takes at least one character and ends inside the text.
pub proof fn lemma_type_advances(s: Seq<char>, i: int)
    requires
        0 <= i <= s.len(),
    ensures
        type_name_at(s, i) matches Ok(r) ==> i < r.1 <= s.len(),
{
    if let Some(e) = identifier(s, i) {
        lemma_scan(s, i + 1, CharClass::Name);
        lemma_array_info_advances(s, e);
        if e + 2 <= s.len() {
            lemma_unsigned_advances(s, e + 2);
            if let Some((_, f)) = unsigned(s, e + 2) {
                lemma_array_info_advances(s, f);
            }
        }
        if e < s.len() {
            if let Some(f) = identifier(s, e + 1) {
                lemma_scan(s, e + 2, CharClass::Name);
                lemma_array_info_advances(s, f);
            }
        }
    }
}

/// A declaration takes at least one character and ends inside the text.
pub proof fn lemma_variable_advances(s: Seq<char>, i: int)
    requires
        0 <= i <= s.len(),
    ensures
        variable(s, i) matches Ok(r) ==> i < r.1 <= s.len(),
{
    lemma_type_advances(s, i);
    if let Ok((_, a)) = type_name_at(s, i) {
        lemma_scan(s, a, CharClass::Space);
        let b = scan(s, a, CharClass::Space);
        if let Some(c) = identifier(s, b) {
            lemma_scan(s, b + 1, CharClass::Name);
            lemma_scan(s, c, CharClass::Space);
            let d = scan(s, c, CharClass::Space);
            if d < s.len() {
                lemma_scan(s, d + 1, CharClass::Space);
                law_value_advances(s, scan(s, d + 1, CharClass::Space));
            }
            law_value_advances(s, d);
            if let Ok((_, e)) = bound_value(s, d) {
                lemma_scan(s, e, CharClass::Space);
                let f = scan(s, e, CharClass::Space);
                if f < s.len() {
                    lemma_scan(s, f + 1, CharClass::Text);
                }
            }
        }
    }
}

/// A line of a text that has not ended takes at least one character and
/// ends inside the text: reading line by line comes to the end of every
/// text, and the test that the grammar makes before it reads the next line
/// never fails.
pub proof fn law_line_advances(s: Seq<char>, i: int)
    requires
        0 <= i < s.len(),
    ensures
        line(s, i) matches Ok(r) ==> i < r.1 <= s.len(),
{
    lemma_scan(s, i, CharClass::Space);
    let a = scan(s, i, CharClass::Space);
    if a < s.len() {
        lemma_scan(s, a + 1, CharClass::Text);
        lemma_variable_advances(s, a);
    }
}

/// Every declaration that the grammar reads from a text is a variable:
/// empty lines, comments and the end of the text leave no trace.
pub proof fn law_declarations_are_variables(s: Seq<char>, i: int)
    ensures
        declarations(s, i) matches Ok(exprs) ==> forall|k: int|
            0 <= k < exprs.len() ==> #[trigger] exprs[k] is Variable,
    decreases s.len() - i,
{
    if 0 <= i < s.len() {
        if let Ok((_, next)) = line(s, i) {
            if i < next <= s.len() {
                law_declarations_are_variables(s, next);
            }
        }
    }
}

/// An identifier is the longest run of letters, digits and underscores
/// that starts with a letter or an underscore.
pub proof fn law_identifier(s: Seq<char>, i: int)
    requires
        0 <= i <= s.len(),
    ensures
        identifier(s, i) is Some <==> i < s.len() && (s[i] == '_' || is_letter(s[i])),
        identifier(s, i) matches Some(e) ==> {
            &&& i < e <= s.len()
            &&& forall|k: int| i < k < e ==> CharClass::Name.has(#[trigger] s[k])
            &&& e < s.len() ==> !CharClass::Name.has(s[e])
        },
{
    lemma_scan(s, i + 1, CharClass::Name);
}

/// The number that digits write depends on those digits alone.
pub proof fn lemma_digits_of_prefix(s: Seq<char>, t: Seq<char>, to: int)
    requires
        0 <= to <= s.len(),
        to <= t.len(),
        forall|k: int| 0 <= k < to ==> s[k] == t[k],
    ensures
        digits_value(s, 0, to) == digits_value(t, 0, to),
    decreases to,
{
    if to > 0 {
        lemma_digits_of_prefix(s, t, to - 1);
    }
}

/// The numeral of a number holds digits only, and writes that number.
pub proof fn lemma_decimal_digits(n: nat)
    ensures
        decimal(n).len() >= 1,
        forall|k: int| 0 <= k < decimal(n).len() ==> is_digit(#[trigger] decimal(n)[k]),
        digits_value(decimal(n), 0, decimal(n).len() as int) == n,
    decreases n,
{
    let d = n % 10;
    assert(is_digit(digit_char(d)) && digit_of(digit_char(d)) == d);
    if n >= 10 {
        lemma_decimal_digits(n / 10);
        let head = decimal(n / 10);
        lemma_digits_of_prefix(decimal(n), head, head.len() as int);
    } else {
        assert(digits_value(decimal(n), 0, 0) == 0);
    }
}

/// A run of characters of one kind that reaches the end of the text ends
/// there.
pub proof fn lemma_scan_to_the_end(s: Seq<char>, i: int, class: CharClass)
    requires
        0 <= i <= s.len(),
        forall|k: int| i <= k < s.len() ==> class.has(#[trigger] s[k]),
    ensures
        scan(s, i, class) == s.len(),
    decreases s.len() - i,
{
    if i < s.len() {
        lemma_scan_to_the_end(s, i + 1, class);
    }
}

/// A number that the generated code holds reads back as itself: the
/// grammar reads the numeral of every number of 64 bits as that number.
pub proof fn law_numeral_round_trip(n: u64)
    ensures
        unsigned(decimal(n as nat), 0) == Some((n, decimal(n as nat).len() as int)),
{
    lemma_decimal_digits(n as nat);
    lemma_scan_to_the_end(decimal(n as nat), 0, CharClass::Digit);
}

} // verus!

use ros2msg_to_rs::template::fill;
use ros2msg_to_rs::text::{
    byte_offset, char_width, push_decimal, push_range, push_signed_decimal, slice_of, text_eq,
    to_chars,
};

#[test]
fn texts_are_equal_when_their_characters_are() {
    assert!(text_eq("", ""));
    assert!(text_eq("h\u{e9}llo", "h\u{e9}llo"));
    assert!(!text_eq("hello", "hellp"));
    assert!(!text_eq("hello", "hell"));
    assert!(!text_eq("a", "A"));
}

#[test]
fn characters_and_slices() {
    let chars = to_chars("a\u{e9}\u{1f600}z");
    assert_eq!(chars, vec!['a', '\u{e9}', '\u{1f600}', 'z']);
    assert_eq!(slice_of(&chars, 1, 3), "\u{e9}\u{1f600}");
    assert_eq!(slice_of(&chars, 2, 2), "");
    let mut out = String::from("x");
    push_range(&mut out, &chars, 0, 2);
    assert_eq!(out, "xa\u{e9}");
}

#[test]
fn decimal_numerals() {
    let mut out = String::from("n=");
    push_decimal(&mut out, 0);
    out.push(',');
    push_decimal(&mut out, 1090);
    out.push(',');
    push_decimal(&mut out, u64::MAX);
    out.push(',');
    push_signed_decimal(&mut out, -7);
    out.push(',');
    push_signed_decimal(&mut out, i64::MIN);
    out.push(',');
    push_signed_decimal(&mut out, i64::MAX);
    assert_eq!(
        out,
        "n=0,1090,18446744073709551615,-7,-9223372036854775808,9223372036854775807"
    );
}

#[test]
fn byte_offsets() {
    let text = "a\u{e9}\u{20ac}\u{1f600}z";
    let chars = to_chars(text);
    let widths: Vec<usize> = chars.iter().map(|c| char_width(*c)).collect();
    assert_eq!(widths, vec![1, 2, 3, 4, 1]);
    let offsets: Vec<usize> = (0..=5).map(|k| byte_offset(&chars, k, text.len())).collect();
    assert_eq!(offsets, vec![0, 1, 3, 6, 10, 11]);
}

#[test]
fn templates() {
    assert_eq!(fill("fn $0__msg__$1__init(msg: *mut $1);", &["pkg", "T"]), "fn pkg__msg__T__init(msg: *mut T);");
    assert_eq!(fill("$1$0$1", &["a", "$0"]), "$0a$0");
    assert_eq!(fill("cost: $5 $ $x $", &["a"]), "cost: $5 $ $x $");
    assert_eq!(fill("", &[]), "");
    assert_eq!(fill("$0", &[]), "$0");
    assert_eq!(fill("\u{e9}$0\u{e9}", &["\u{1f600}"]), "\u{e9}\u{1f600}\u{e9}");
}

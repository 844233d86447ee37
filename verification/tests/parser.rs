use ros2msg_to_rs::generator::Generator;
use ros2msg_to_rs::parser::grammar::Expected;
use ros2msg_to_rs::parser::{parse_msg, ArrayInfo, Expr, ParseError, TypeName, Value, ValueType};

fn field(var_type: TypeName, name: &str) -> Expr {
    Expr::Variable { var_type, var_name: name.to_string(), value: None, comment: None }
}

fn bare(name: &str, array_info: ArrayInfo) -> TypeName {
    TypeName::Type { name: name.to_string(), array_info }
}

fn value_of(line: &str) -> Option<ValueType> {
    let mut exprs = parse_msg(line).unwrap();
    assert_eq!(exprs.len(), 1);
    match exprs.pop().unwrap() {
        Expr::Variable { value, .. } => value,
        other => panic!("no declaration: {:?}", other),
    }
}

fn error_of(text: &str) -> ParseError {
    parse_msg(text).unwrap_err()
}

fn generate(input: &str) {
    let mut g = Generator::new("my_library".to_string(), "crate".to_string(), false);
    let exprs = parse_msg(input).unwrap();
    g.gen_msg("TestModule", "TestMsg", &exprs).unwrap();
}

#[test]
fn test_msg() {
    let input1 = "
    # comment
# comment

std_msgs/Bool d
int32 a #comment
bool b #co

uint32 d 100
f32 e 20.99 # comment
i8 f = -5
i64[] arr1 = [10, 20, 30]
i64[3] arr2 = [10, 20, 30]
i64[<=3] arr3 = [10, 20, 30]

string s1 = \"abc\\\\ def \\\" ghi \"
string s2 = \"\\r\\n\\t\"
string<=10 s3
string<=10 [5] s4

";

    let input2 = "
bool a
string b
int8 c
uint8 d
int16 e
uint16 f
int32 g
uint32 h
int64 i # aaa
uint64 k
float32 l
float64 m

bool o = true
float64 p = 10.2

string s1 = \"abc\\\\ def \\\" ghi \" # bbbb
string s2 = \"\\r\\n\\t\"
string<=10 s3

i32[] array1
i32[10] array2
string[] array3
string<=10[3] array4
string<=10[] array5

std_msgs/Bool std1
std_msgs/Bool std2
std_msgs/Header std3
";

    generate(input1);
    generate(input2);
}

#[test]
fn first_sample_parses_to_its_declarations() {
    let input = "
    # comment
# comment

std_msgs/Bool d
int32 a #comment
uint32 d 100
f32 e 20.99 # comment
i8 f = -5
i64[<=3] arr3 = [10, 20, 30]
string s1 = \"abc\\\\ def \\\" ghi \"
string<=10 [5] s4

";
    let exprs = parse_msg(input).unwrap();
    assert_eq!(exprs.len(), 8);
    assert_eq!(
        exprs[0],
        field(
            TypeName::ScopedType {
                scope: "std_msgs".to_string(),
                name: "Bool".to_string(),
                array_info: ArrayInfo::NotArray,
            },
            "d"
        )
    );
    assert_eq!(
        exprs[1],
        Expr::Variable {
            var_type: bare("int32", ArrayInfo::NotArray),
            var_name: "a".to_string(),
            value: None,
            comment: Some("comment".to_string()),
        }
    );
    assert_eq!(
        exprs[2],
        Expr::Variable {
            var_type: bare("uint32", ArrayInfo::NotArray),
            var_name: "d".to_string(),
            value: Some(ValueType::Default(Value::Uint(100))),
            comment: None,
        }
    );
    assert_eq!(
        exprs[3],
        Expr::Variable {
            var_type: bare("f32", ArrayInfo::NotArray),
            var_name: "e".to_string(),
            value: Some(ValueType::Default(Value::Float {
                negative: false,
                whole: 20,
                fraction: "99".to_string(),
            })),
            comment: Some(" comment".to_string()),
        }
    );
    assert_eq!(
        exprs[4],
        Expr::Variable {
            var_type: bare("i8", ArrayInfo::NotArray),
            var_name: "f".to_string(),
            value: Some(ValueType::Const(Value::Int(-5))),
            comment: None,
        }
    );
    assert_eq!(
        exprs[5],
        Expr::Variable {
            var_type: bare("i64", ArrayInfo::Limited(3)),
            var_name: "arr3".to_string(),
            value: Some(ValueType::Const(Value::Array(vec![
                Value::Uint(10),
                Value::Uint(20),
                Value::Uint(30),
            ]))),
            comment: None,
        }
    );
    assert_eq!(
        exprs[6],
        Expr::Variable {
            var_type: TypeName::String(ArrayInfo::NotArray),
            var_name: "s1".to_string(),
            value: Some(ValueType::Const(Value::String("abc\\\\ def \\\" ghi ".to_string()))),
            comment: None,
        }
    );
    assert_eq!(
        exprs[7],
        field(TypeName::LimitedString { size: 10, array_info: ArrayInfo::Static(5) }, "s4")
    );
}

#[test]
fn empty_text_has_no_declarations() {
    assert_eq!(parse_msg(""), Ok(vec![]));
    assert_eq!(parse_msg("   \t"), Ok(vec![]));
    assert_eq!(parse_msg("\n\r\n  # only a comment"), Ok(vec![]));
}

#[test]
fn a_bare_field() {
    assert_eq!(parse_msg("int32 a"), Ok(vec![field(bare("int32", ArrayInfo::NotArray), "a")]));
    assert_eq!(parse_msg("int32 a\r\n"), Ok(vec![field(bare("int32", ArrayInfo::NotArray), "a")]));
    assert_eq!(parse_msg("_x\t_y1_"), Ok(vec![field(bare("_x", ArrayInfo::NotArray), "_y1_")]));
}

#[test]
fn array_suffixes() {
    assert_eq!(parse_msg("i64[] a"), Ok(vec![field(bare("i64", ArrayInfo::Dynamic), "a")]));
    assert_eq!(parse_msg("i64[3] a"), Ok(vec![field(bare("i64", ArrayInfo::Static(3)), "a")]));
    assert_eq!(parse_msg("i64[<=3] a"), Ok(vec![field(bare("i64", ArrayInfo::Limited(3)), "a")]));
    assert_eq!(parse_msg("i64[<=0] a"), Ok(vec![field(bare("i64", ArrayInfo::Limited(0)), "a")]));
    assert_eq!(
        parse_msg("i64 [ <=12 ] a"),
        Ok(vec![field(bare("i64", ArrayInfo::Limited(12)), "a")])
    );
    assert_eq!(parse_msg("i64 [ ] a"), Ok(vec![field(bare("i64", ArrayInfo::Dynamic), "a")]));
}

#[test]
fn string_types() {
    assert_eq!(parse_msg("string s"), Ok(vec![field(TypeName::String(ArrayInfo::NotArray), "s")]));
    assert_eq!(parse_msg("string[] s"), Ok(vec![field(TypeName::String(ArrayInfo::Dynamic), "s")]));
    assert_eq!(
        parse_msg("string<=10 s"),
        Ok(vec![field(TypeName::LimitedString { size: 10, array_info: ArrayInfo::NotArray }, "s")])
    );
    assert_eq!(
        parse_msg("string<=10[<=4] s"),
        Ok(vec![field(TypeName::LimitedString { size: 10, array_info: ArrayInfo::Limited(4) }, "s")])
    );
    assert_eq!(parse_msg("strings s"), Ok(vec![field(bare("strings", ArrayInfo::NotArray), "s")]));
}

#[test]
fn scoped_types() {
    assert_eq!(
        parse_msg("std_msgs/Header[2] h"),
        Ok(vec![field(
            TypeName::ScopedType {
                scope: "std_msgs".to_string(),
                name: "Header".to_string(),
                array_info: ArrayInfo::Static(2),
            },
            "h"
        )])
    );
}

#[test]
fn numbers() {
    assert_eq!(value_of("int32 a = 0"), Some(ValueType::Const(Value::Uint(0))));
    assert_eq!(value_of("int32 a 007"), Some(ValueType::Default(Value::Uint(7))));
    assert_eq!(
        value_of("uint64 a = 18446744073709551615"),
        Some(ValueType::Const(Value::Uint(u64::MAX)))
    );
    assert_eq!(value_of("int32 a = -12"), Some(ValueType::Const(Value::Int(-12))));
    assert_eq!(value_of("int32 a -0"), Some(ValueType::Default(Value::Int(0))));
    assert_eq!(
        value_of("int64 a = -9223372036854775808"),
        Some(ValueType::Const(Value::Int(i64::MIN)))
    );
    assert_eq!(
        value_of("int64 a = -9223372036854775807"),
        Some(ValueType::Const(Value::Int(-9223372036854775807)))
    );
    assert_eq!(
        value_of("float64 p = -10.250"),
        Some(ValueType::Const(Value::Float {
            negative: true,
            whole: 10,
            fraction: "250".to_string(),
        }))
    );
}

#[test]
fn numbers_out_of_range_are_no_values() {
    assert_eq!(
        error_of("uint64 a = 18446744073709551616"),
        ParseError { offset: 11, expected: Expected::Value }
    );
    assert_eq!(
        error_of("int64 a = -9223372036854775809"),
        ParseError { offset: 10, expected: Expected::Value }
    );
    assert_eq!(error_of("float64 a = 1."), ParseError { offset: 12, expected: Expected::Value });
    assert_eq!(error_of("float64 a = -"), ParseError { offset: 12, expected: Expected::Value });
}

#[test]
fn truth_values() {
    assert_eq!(value_of("bool o = true"), Some(ValueType::Const(Value::Bool(true))));
    assert_eq!(value_of("bool o false"), Some(ValueType::Default(Value::Bool(false))));
    assert_eq!(error_of("bool o = tru"), ParseError { offset: 9, expected: Expected::Value });
    assert_eq!(error_of("bool o fals"), ParseError { offset: 7, expected: Expected::Value });
}

#[test]
fn strings_keep_their_escapes() {
    assert_eq!(
        value_of("string s = \"a\\\\b\\\"c\\rd\\ne\\tf\""),
        Some(ValueType::Const(Value::String("a\\\\b\\\"c\\rd\\ne\\tf".to_string())))
    );
    assert_eq!(
        value_of("string s = 'it\\'s \"x\"'"),
        Some(ValueType::Const(Value::String("it's \\\"x\\\"".to_string())))
    );
    assert_eq!(
        value_of("string s = 'a\"b'"),
        Some(ValueType::Const(Value::String("a\\\"b".to_string())))
    );
    assert_eq!(value_of("string s = 'a\"b'"), value_of("string s = \"a\\\"b\""));
    assert_eq!(value_of("string s = ''"), Some(ValueType::Const(Value::String(String::new()))));
    assert_eq!(
        value_of("string s \"plain\""),
        Some(ValueType::Default(Value::String("plain".to_string())))
    );
    assert_eq!(
        value_of("string s = \"h\u{e9}llo # no comment\""),
        Some(ValueType::Const(Value::String("h\u{e9}llo # no comment".to_string())))
    );
}

#[test]
fn arrays() {
    assert_eq!(
        value_of("int32[] a = [ 1 ,-2, 3.5 ]"),
        Some(ValueType::Const(Value::Array(vec![
            Value::Uint(1),
            Value::Int(-2),
            Value::Float { negative: false, whole: 3, fraction: "5".to_string() },
        ])))
    );
    assert_eq!(
        value_of("int32[] a [[1],[true,'x']]"),
        Some(ValueType::Default(Value::Array(vec![
            Value::Array(vec![Value::Uint(1)]),
            Value::Array(vec![Value::Bool(true), Value::String("x".to_string())]),
        ])))
    );
    assert_eq!(error_of("int32[] a = []"), ParseError { offset: 12, expected: Expected::Value });
    assert_eq!(error_of("int32[] a = [1,]"), ParseError { offset: 12, expected: Expected::Value });
    assert_eq!(error_of("int32[] a = [1, 2"), ParseError { offset: 12, expected: Expected::Value });
}

#[test]
fn comments() {
    assert_eq!(
        parse_msg("int32 a#x\nint32 b # y # z\r\n#tail"),
        Ok(vec![
            Expr::Variable {
                var_type: bare("int32", ArrayInfo::NotArray),
                var_name: "a".to_string(),
                value: None,
                comment: Some("x".to_string()),
            },
            Expr::Variable {
                var_type: bare("int32", ArrayInfo::NotArray),
                var_name: "b".to_string(),
                value: None,
                comment: Some(" y # z".to_string()),
            },
        ])
    );
}

#[test]
fn a_negative_bound_is_refused_at_its_sign() {
    assert_eq!(error_of("int32[-1] a"), ParseError { offset: 6, expected: Expected::Digit });
    assert_eq!(
        error_of("int32 ok\nint32[-1] a"),
        ParseError { offset: 15, expected: Expected::Digit }
    );
}

#[test]
fn a_truncated_string_is_refused_at_the_end() {
    assert_eq!(
        error_of("string s = \"abc"),
        ParseError { offset: 15, expected: Expected::Character }
    );
    assert_eq!(error_of("string s 'abc\n"), ParseError { offset: 14, expected: Expected::Character });
}

#[test]
fn offsets_count_bytes() {
    // The comment holds one character of two bytes and one of four.
    assert_eq!(
        error_of("# \u{e9}\u{1f600}\nint32[-1] a"),
        ParseError { offset: 15, expected: Expected::Digit }
    );
    assert_eq!(
        error_of("string s = \"\u{65e5}\u{672c}"),
        ParseError { offset: 18, expected: Expected::Character }
    );
}

#[test]
fn every_kind_of_error() {
    assert_eq!(error_of("1nt32 a"), ParseError { offset: 0, expected: Expected::Identifier });
    assert_eq!(error_of("  \u{e9} a"), ParseError { offset: 2, expected: Expected::Identifier });
    assert_eq!(error_of("a/ b"), ParseError { offset: 2, expected: Expected::Identifier });
    assert_eq!(error_of("int32"), ParseError { offset: 5, expected: Expected::Space });
    assert_eq!(error_of("int32\n"), ParseError { offset: 5, expected: Expected::Space });
    assert_eq!(error_of("int32 9"), ParseError { offset: 6, expected: Expected::Identifier });
    assert_eq!(error_of("int32 a b"), ParseError { offset: 8, expected: Expected::LineEnding });
    assert_eq!(error_of("int32 a = 1 2"), ParseError { offset: 12, expected: Expected::LineEnding });
    assert_eq!(error_of("int32 a\rint32 b"), ParseError { offset: 7, expected: Expected::LineEnding });
    assert_eq!(error_of("int32[x] a"), ParseError { offset: 6, expected: Expected::Digit });
    assert_eq!(error_of("int32[<=] a"), ParseError { offset: 8, expected: Expected::Digit });
    assert_eq!(error_of("string<= s"), ParseError { offset: 8, expected: Expected::Digit });
    assert_eq!(error_of("int32[<3] a"), ParseError { offset: 6, expected: Expected::LessEqual });
    assert_eq!(error_of("int32[3 a"), ParseError { offset: 8, expected: Expected::CloseBracket });
    assert_eq!(error_of("int32[<=3"), ParseError { offset: 9, expected: Expected::CloseBracket });
    assert_eq!(error_of("int32 a = x"), ParseError { offset: 10, expected: Expected::Value });
    assert_eq!(error_of("int32 a ="), ParseError { offset: 9, expected: Expected::Value });
    assert_eq!(error_of("string s = \"a\\qb\""), ParseError { offset: 14, expected: Expected::Escape });
    assert_eq!(error_of("string s = \"a\\'b\""), ParseError { offset: 14, expected: Expected::Escape });
    assert_eq!(error_of("string s = 'a\\"), ParseError { offset: 14, expected: Expected::Escape });
    assert_eq!(error_of("int32 a # x\ry"), ParseError { offset: 9, expected: Expected::CommentText });
}

#[test]
fn a_comment_line_with_a_lone_carriage_return_is_no_line() {
    assert_eq!(error_of("# x\ry"), ParseError { offset: 0, expected: Expected::Identifier });
}

#[test]
fn the_error_in_words() {
    assert_eq!(
        error_of("int32[-1] a").message(),
        "at byte 6: expected a decimal number that fits in 64 bits"
    );
    assert_eq!(Expected::CloseBracket.describe(), "`]`");
}

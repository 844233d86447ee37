use ros2msg_to_rs::compile::{generate_msg, generate_srv, CompileError};
use ros2msg_to_rs::files::{
    gen_module_index, gen_package_index, gen_package_line, interface_name_of, module_file_of,
    module_name_of,
};
use ros2msg_to_rs::generator::{Generator, ResolveError};
use ros2msg_to_rs::parser::grammar::Expected;
use ros2msg_to_rs::parser::{parse_srv, ArrayInfo, Expr, ParseError, TypeName};

fn field(name: &str, var_name: &str) -> Expr {
    Expr::Variable {
        var_type: TypeName::Type { name: name.to_string(), array_info: ArrayInfo::NotArray },
        var_name: var_name.to_string(),
        value: None,
        comment: None,
    }
}

#[test]
fn module_names_are_in_snake_case() {
    assert_eq!(module_name_of("AddTwoInts"), "add_two_ints");
    assert_eq!(module_name_of("Header"), "header");
    assert_eq!(module_name_of("Bool"), "bool_");
    assert_eq!(module_name_of("Type"), "type_");
    assert_eq!(module_file_of("JointState"), "joint_state.rs");
    assert_eq!(module_file_of("Char"), "char_.rs");
}

#[test]
fn interface_names_end_at_the_first_dot() {
    assert_eq!(interface_name_of("Header.msg"), "Header");
    assert_eq!(interface_name_of("a.b.srv"), "a");
    assert_eq!(interface_name_of("plain"), "plain");
    assert_eq!(interface_name_of(".hidden"), "");
    assert_eq!(interface_name_of(""), "");
}

#[test]
fn index_files() {
    assert_eq!(
        gen_module_index(&vec!["header".to_string(), "bool_".to_string()]),
        "mod header;\nmod bool_;\n\npub use header::*;\npub use bool_::*;\n"
    );
    assert_eq!(gen_module_index(&vec![]), "\n");
    assert_eq!(
        gen_package_index(&vec!["msg".to_string(), "srv".to_string()]),
        "pub mod msg;\npub use msg::*;\npub mod srv;\n"
    );
    assert_eq!(gen_package_index(&vec!["srv".to_string()]), "pub mod srv;\n");
    assert_eq!(gen_package_index(&vec![]), "");
    assert_eq!(gen_package_line("std_msgs"), "pub mod std_msgs;\n");
}

#[test]
fn a_service_is_parted_at_its_separator() {
    assert_eq!(
        parse_srv("int64 a\nint64 b\n---\nint64 sum\n"),
        Ok((vec![field("int64", "a"), field("int64", "b")], vec![field("int64", "sum")]))
    );
    assert_eq!(parse_srv("---"), Ok((vec![], vec![])));
    assert_eq!(parse_srv("---  \r\nbool ok"), Ok((vec![], vec![field("bool", "ok")])));
    assert_eq!(
        parse_srv("# ---\nint8 a # ---\n---\n---x y\n"),
        Err(ParseError { offset: 23, expected: Expected::Identifier })
    );
}

#[test]
fn a_service_without_separator_fails_at_its_end() {
    assert_eq!(
        parse_srv("int64 a\n"),
        Err(ParseError { offset: 8, expected: Expected::Separator })
    );
    assert_eq!(parse_srv(""), Err(ParseError { offset: 0, expected: Expected::Separator }));
    assert_eq!(
        parse_srv("int64 a\n --- \nint64 b"),
        Err(ParseError { offset: 21, expected: Expected::Separator })
    );
    assert_eq!(
        parse_srv("\u{e9}---\n"),
        Err(ParseError { offset: 6, expected: Expected::Separator })
    );
}

#[test]
fn errors_of_a_service_count_from_the_start_of_the_text() {
    assert_eq!(
        parse_srv("int64[-1] a\n---\nint64 b"),
        Err(ParseError { offset: 6, expected: Expected::Digit })
    );
    assert_eq!(
        parse_srv("int64 \u{e9}\n---\nint64 b"),
        Err(ParseError { offset: 6, expected: Expected::Identifier })
    );
    assert_eq!(
        parse_srv("# \u{e9}\n---\nint64 b = \"x"),
        Err(ParseError { offset: 21, expected: Expected::Character })
    );
}

#[test]
fn compiling_a_message_file() {
    let mut g = Generator::new("demo".to_string(), "safe_drive".to_string(), false);
    let lines = generate_msg(&mut g, "std_msgs/Header h\nint32 a", "demo", "Sample").unwrap();
    assert_eq!(lines.len(), 16);
    assert_eq!(lines[11], "    pub h: std_msgs::msg::Header,");
    assert_eq!(lines[12], "    pub a: i32,");
    assert_eq!(g.libs, vec!["std_msgs".to_string()]);
    let again = generate_msg(&mut g, "std_msgs/Header h\nint32 a", "demo", "Sample").unwrap();
    assert_eq!(lines, again);
}

#[test]
fn compiling_a_service_file() {
    let mut g = Generator::new("demo".to_string(), "safe_drive".to_string(), false);
    let text = "int64 a\n---\nbuiltin_interfaces/Duration took\n";
    let lines = generate_srv(&mut g, text, "demo", "Add").unwrap();
    assert_eq!(lines.len(), 24);
    assert_eq!(lines[11], "    pub a: i64,");
    assert_eq!(lines[17], "    pub took: builtin_interfaces::UnsafeDuration,");
    assert_eq!(g.warnings.len(), 1);
    assert_eq!(generate_srv(&mut g, text, "demo", "Add").unwrap(), lines);
}

#[test]
fn files_that_do_not_compile() {
    let mut g = Generator::default();
    assert!(g.libs.is_empty() && g.lib_name.is_empty() && !g.disable_common_interfaces);
    let syntax = generate_msg(&mut g, "other/Thing t\nint32[-1] a", "demo", "Sample").unwrap_err();
    assert_eq!(syntax, CompileError::Syntax(ParseError { offset: 20, expected: Expected::Digit }));
    assert_eq!(syntax.message(), "at byte 20: expected a decimal number that fits in 64 bits");
    let ty = generate_srv(&mut g, "other/Thing t\n---\nbuiltin_interfaces/X x", "demo", "S")
        .unwrap_err();
    assert_eq!(
        ty,
        CompileError::Type(ResolveError {
            scope: "builtin_interfaces".to_string(),
            name: "X".to_string(),
        })
    );
    assert_eq!(ty.message(), "unsupported type: builtin_interfaces::X");
    assert!(g.libs.is_empty());
    assert_eq!(
        generate_srv(&mut g, "int32 a", "demo", "S"),
        Err(CompileError::Syntax(ParseError { offset: 7, expected: Expected::Separator }))
    );
}

use ros2msg_to_rs::generator::{gen_primitives, ExprType, Generator, ResolveError};
use ros2msg_to_rs::parser::{parse_msg, ArrayInfo, Expr, TypeName, Value, ValueType};

fn generator() -> Generator {
    Generator::new("demo".to_string(), "safe_drive".to_string(), false)
}

fn bare(name: &str, array_info: ArrayInfo) -> TypeName {
    TypeName::Type { name: name.to_string(), array_info }
}

fn scoped(scope: &str, name: &str, array_info: ArrayInfo) -> TypeName {
    TypeName::ScopedType { scope: scope.to_string(), name: name.to_string(), array_info }
}

fn lines_of(g: &mut Generator, text: &str) -> Vec<String> {
    let exprs = parse_msg(text).unwrap();
    g.gen_msg("demo", "Sample", &exprs).unwrap().into_iter().collect()
}

#[test]
fn a_message_with_one_field() {
    let mut g = generator();
    let lines = lines_of(&mut g, "int32 a");
    let expected: Vec<&str> = vec![
        "// This file was automatically generated by ros2msg_to_rs (https://github.com/tier4/ros2msg_to_rs).",
        "use super::*;",
        "use super::super::super::*;",
        "use safe_drive::msg::*;",
        "use safe_drive::rcl;",
        "use safe_drive::msg::common_interfaces::*;",
        "\nextern \"C\" {\n    fn demo__msg__Sample__init(msg: *mut Sample) -> bool;\n    fn demo__msg__Sample__fini(msg: *mut Sample);\n    fn demo__msg__Sample__are_equal(lhs: *const Sample, rhs: *const Sample) -> bool;\n    fn demo__msg__Sample__Sequence__init(msg: *mut SampleSeqRaw, size: usize) -> bool;\n    fn demo__msg__Sample__Sequence__fini(msg: *mut SampleSeqRaw);\n    fn demo__msg__Sample__Sequence__are_equal(lhs: *const SampleSeqRaw, rhs: *const SampleSeqRaw) -> bool;\n    fn rosidl_typesupport_c__get_message_type_support_handle__demo__msg__Sample() -> *const rcl::rosidl_message_type_support_t;\n}\n",
        "",
        "#[repr(C)]",
        "#[derive(Debug)]",
        "pub struct Sample {",
        "    pub a: i32,",
        "}",
        "\nimpl Sample {\n    pub fn new() -> Option<Self> {\n        let mut msg: Self = unsafe { std::mem::MaybeUninit::zeroed().assume_init() };\n        if unsafe { demo__msg__Sample__init(&mut msg) } {\n            Some(msg)\n        } else {\n            None\n        }\n    }\n}\n\nimpl Drop for Sample {\n    fn drop(&mut self) {\n        unsafe { demo__msg__Sample__fini(self) };\n    }\n}\n\n#[repr(C)]\n#[derive(Debug)]\nstruct SampleSeqRaw {\n    data: *mut Sample,\n    size: usize,\n    capacity: usize,\n}\n\n/// Sequence of Sample.\n/// `N` is the maximum number of elements.\n/// If `N` is `0`, the size is unlimited.\n#[repr(C)]\n#[derive(Debug)]\npub struct SampleSeq<const N: usize> {\n    data: *mut Sample,\n    size: usize,\n    capacity: usize,\n}\n\nimpl<const N: usize> SampleSeq<N> {\n    /// Create a sequence of.\n    /// `N` represents the maximum number of elements.\n    /// If `N` is `0`, the sequence is unlimited.\n    pub fn new(size: usize) -> Option<Self> {\n        if N != 0 && size > N {\n            // the size exceeds in the maximum number\n            return None;\n        }\n\n        let mut msg: SampleSeqRaw = unsafe { std::mem::MaybeUninit::zeroed().assume_init() };\n        if unsafe { demo__msg__Sample__Sequence__init(&mut msg, size) } {\n            Some(Self {data: msg.data, size: msg.size, capacity: msg.capacity })\n        } else {\n            None\n        }\n    }\n\n    pub fn null() -> Self {\n        let msg: SampleSeqRaw = unsafe { std::mem::MaybeUninit::zeroed().assume_init() };\n        Self {data: msg.data, size: msg.size, capacity: msg.capacity }\n    }\n\n    pub fn as_slice(&self) -> &[Sample] {\n        if self.data.is_null() {\n            &[]\n        } else {\n            let s = unsafe { std::slice::from_raw_parts(self.data, self.size) };\n            s\n        }\n    }\n\n    pub fn as_slice_mut(&mut self) -> &mut [Sample] {\n        if self.data.is_null() {\n            &mut []\n        } else {\n            let s = unsafe { std::slice::from_raw_parts_mut(self.data, self.size) };\n            s\n        }\n    }\n\n    pub fn iter(&self) -> std::slice::Iter<'_, Sample> {\n        self.as_slice().iter()\n    }\n\n    pub fn iter_mut(&mut self) -> std::slice::IterMut<'_, Sample> {\n        self.as_slice_mut().iter_mut()\n    }\n\n    pub fn len(&self) -> usize {\n        self.as_slice().len()\n    }\n\n    pub fn is_empty(&self) -> bool {\n        self.len() == 0\n    }\n}\n\nimpl<const N: usize> Drop for SampleSeq<N> {\n    fn drop(&mut self) {\n        let mut msg = SampleSeqRaw{data: self.data, size: self.size, capacity: self.capacity};\n        unsafe { demo__msg__Sample__Sequence__fini(&mut msg) };\n    }\n}\n\nunsafe impl<const N: usize> Send for SampleSeq<N> {}\nunsafe impl<const N: usize> Sync for SampleSeq<N> {}\n",
        "\nimpl TypeSupport for Sample {\n    fn type_support() -> *const rcl::rosidl_message_type_support_t {\n        unsafe {\n            rosidl_typesupport_c__get_message_type_support_handle__demo__msg__Sample()\n        }\n    }\n}\n\nimpl PartialEq for Sample {\n    fn eq(&self, other: &Self) -> bool {\n        unsafe {\n            demo__msg__Sample__are_equal(self, other)\n        }\n    }\n}\n\nimpl<const N: usize> PartialEq for SampleSeq<N> {\n    fn eq(&self, other: &Self) -> bool {\n        unsafe {\n            let msg1 = SampleSeqRaw{data: self.data, size: self.size, capacity: self.capacity};\n            let msg2 = SampleSeqRaw{data: other.data, size: other.size, capacity: other.capacity};\n            demo__msg__Sample__Sequence__are_equal(&msg1, &msg2)\n        }\n    }\n}\n",
    ];
    assert_eq!(lines, expected);
    assert!(lines.iter().all(|l| !l.starts_with("pub const")));
    assert!(lines[6].contains("fn demo__msg__Sample__init(msg: *mut Sample) -> bool;"));
    assert!(g.libs.is_empty());
    assert!(g.warnings.is_empty());
}

#[test]
fn every_primitive_resolves_to_its_scalar() {
    let table = [
        ("bool", "bool"),
        ("int8", "i8"),
        ("uint8", "u8"),
        ("int16", "i16"),
        ("uint16", "u16"),
        ("int32", "i32"),
        ("uint32", "u32"),
        ("int64", "i64"),
        ("uint64", "u64"),
        ("float32", "f32"),
        ("float64", "f64"),
    ];
    for (name, scalar) in table {
        assert_eq!(gen_primitives(name), Some(scalar));
        let mut g = generator();
        assert_eq!(g.gen_type(&bare(name, ArrayInfo::NotArray), "Sample"), Ok(scalar.to_string()));
    }
    assert_eq!(gen_primitives("Int8"), None);
    let mut g = generator();
    assert_eq!(g.gen_type(&bare("Pose", ArrayInfo::NotArray), "Sample"), Ok("Pose".to_string()));
}

#[test]
fn every_other_bare_name_is_a_type_of_the_package() {
    let mut g = generator();
    for name in ["byte", "char", "string8", "i64", "Bool", "float", "int", "uint128", ""] {
        assert_eq!(gen_primitives(name), None);
        assert_eq!(g.gen_type(&bare(name, ArrayInfo::NotArray), "Sample"), Ok(name.to_string()));
    }
    assert_eq!(g.gen_type(&bare("byte", ArrayInfo::Static(4)), "S"), Ok("[byte; 4]".to_string()));
    assert_eq!(g.gen_type(&bare("char", ArrayInfo::Dynamic), "S"), Ok("charSeq<0>".to_string()));
    assert!(g.libs.is_empty());
}

#[test]
fn string_constants_are_byte_views() {
    let mut g = generator();
    assert_eq!(
        g.gen_const_type(&TypeName::String(ArrayInfo::NotArray), "S"),
        Ok("&[u8]".to_string())
    );
    assert_eq!(
        g.gen_const_type(&TypeName::LimitedString { size: 10, array_info: ArrayInfo::NotArray }, "S"),
        Ok("&[u8]".to_string())
    );
    assert_eq!(
        g.gen_const_type(&TypeName::LimitedString { size: 1, array_info: ArrayInfo::Static(3) }, "S"),
        Ok("[&[u8]; 3]".to_string())
    );
    assert_eq!(
        g.gen_const_type(&TypeName::LimitedString { size: 0, array_info: ArrayInfo::Limited(2) }, "S"),
        Ok("&[u8]Seq<2>".to_string())
    );
    // A field of the same type keeps the owning string.
    assert_eq!(
        g.gen_type(&TypeName::LimitedString { size: 10, array_info: ArrayInfo::NotArray }, "S"),
        Ok("safe_drive::msg::RosString<10>".to_string())
    );
    assert_eq!(g.gen_const_type(&bare("int8", ArrayInfo::NotArray), "S"), Ok("i8".to_string()));
    let lines = lines_of(&mut g, "string<=10 NAME = \"abc\"\nstring<=10 field \"abc\"");
    assert_eq!(lines[6], "pub const NAME: &[u8] = b\"abc\0\";");
    assert_eq!(lines[12], "    pub field: safe_drive::msg::RosString<10>,");
}

#[test]
fn a_double_quote_between_single_quotes_is_escaped() {
    let mut g = generator();
    let lines = lines_of(&mut g, "string A = 'a\"b'\nstring B = \"a\\\"b\"\nstring C = '\"'");
    assert_eq!(lines[6], "pub const A: &[u8] = b\"a\\\"b\0\";");
    assert_eq!(lines[7], "pub const B: &[u8] = b\"a\\\"b\0\";");
    assert_eq!(lines[8], "pub const C: &[u8] = b\"\\\"\0\";");
}

#[test]
fn fixed_arrays_wrap_the_base_type() {
    let mut g = generator();
    assert_eq!(g.gen_type(&bare("int64", ArrayInfo::Static(3)), "S"), Ok("[i64; 3]".to_string()));
    assert_eq!(g.gen_type(&bare("Pose", ArrayInfo::Static(0)), "S"), Ok("[Pose; 0]".to_string()));
    assert_eq!(
        g.gen_type(&scoped("std_msgs", "Bool", ArrayInfo::Static(12)), "S"),
        Ok("[std_msgs::msg::Bool; 12]".to_string())
    );
    assert_eq!(
        g.gen_type(&TypeName::String(ArrayInfo::Static(2)), "S"),
        Ok("[safe_drive::msg::RosString<0>; 2]".to_string())
    );
}

#[test]
fn a_bounded_array_is_a_sequence() {
    let exprs = parse_msg("i64[<=3] arr").unwrap();
    let mut g = generator();
    match &exprs[0] {
        Expr::Variable { var_type, .. } => {
            assert_eq!(g.gen_type(var_type, "Sample"), Ok("safe_drive::msg::I64Seq<3>".to_string()));
        }
        other => panic!("no declaration: {:?}", other),
    }
}

#[test]
fn a_fixed_array_of_bounded_strings() {
    let exprs = parse_msg("string<=10[5] s4").unwrap();
    let mut g = generator();
    match &exprs[0] {
        Expr::Variable { var_type, .. } => {
            assert_eq!(
                g.gen_type(var_type, "Sample"),
                Ok("[safe_drive::msg::RosString<10>; 5]".to_string())
            );
        }
        other => panic!("no declaration: {:?}", other),
    }
}

#[test]
fn a_bound_of_zero_is_no_bound() {
    let mut g = generator();
    for ty in [
        (bare("int32", ArrayInfo::Limited(0)), bare("int32", ArrayInfo::Dynamic), "safe_drive::msg::I32Seq<0>"),
        (bare("Pose", ArrayInfo::Limited(0)), bare("Pose", ArrayInfo::Dynamic), "PoseSeq<0>"),
        (
            scoped("geo", "Pose", ArrayInfo::Limited(0)),
            scoped("geo", "Pose", ArrayInfo::Dynamic),
            "geo::msg::PoseSeq<0>",
        ),
        (
            TypeName::String(ArrayInfo::Limited(0)),
            TypeName::String(ArrayInfo::Dynamic),
            "safe_drive::msg::RosStringSeq<0, 0>",
        ),
        (
            TypeName::LimitedString { size: 7, array_info: ArrayInfo::Limited(0) },
            TypeName::LimitedString { size: 7, array_info: ArrayInfo::Dynamic },
            "safe_drive::msg::RosStringSeq<7, 0>",
        ),
    ] {
        assert_eq!(g.gen_type(&ty.0, "S"), Ok(ty.2.to_string()));
        assert_eq!(g.gen_type(&ty.1, "S"), Ok(ty.2.to_string()));
    }
}

#[test]
fn sequences_of_every_scalar() {
    let g = generator();
    for (base, wrapper) in [
        ("bool", "BoolSeq"),
        ("i8", "I8Seq"),
        ("i16", "I16Seq"),
        ("i32", "I32Seq"),
        ("i64", "I64Seq"),
        ("u8", "U8Seq"),
        ("u16", "U16Seq"),
        ("u32", "U32Seq"),
        ("u64", "U64Seq"),
        ("f32", "F32Seq"),
        ("f64", "F64Seq"),
    ] {
        assert_eq!(g.gen_seq_type(base, 4), format!("safe_drive::msg::{}<4>", wrapper));
    }
    assert_eq!(g.gen_seq_type("Pose", 18446744073709551615), "PoseSeq<18446744073709551615>");
}

#[test]
fn bounded_strings() {
    let mut g = generator();
    assert_eq!(
        g.gen_type(&TypeName::String(ArrayInfo::NotArray), "S"),
        Ok("safe_drive::msg::RosString<0>".to_string())
    );
    assert_eq!(
        g.gen_type(&TypeName::LimitedString { size: 10, array_info: ArrayInfo::NotArray }, "S"),
        Ok("safe_drive::msg::RosString<10>".to_string())
    );
    assert_eq!(
        g.gen_type(&TypeName::LimitedString { size: 10, array_info: ArrayInfo::Limited(3) }, "S"),
        Ok("safe_drive::msg::RosStringSeq<10, 3>".to_string())
    );
}

#[test]
fn scoped_types_become_dependencies_once() {
    let mut g = generator();
    assert_eq!(
        g.gen_type(&scoped("std_msgs", "Bool", ArrayInfo::NotArray), "S"),
        Ok("std_msgs::msg::Bool".to_string())
    );
    assert_eq!(
        g.gen_type(&scoped("geo", "Pose", ArrayInfo::Dynamic), "S"),
        Ok("geo::msg::PoseSeq<0>".to_string())
    );
    assert_eq!(
        g.gen_type(&scoped("std_msgs", "Header", ArrayInfo::NotArray), "S"),
        Ok("std_msgs::msg::Header".to_string())
    );
    assert_eq!(g.libs, vec!["std_msgs".to_string(), "geo".to_string()]);
    assert_eq!(g.gen_type(&scoped("demo", "Pose", ArrayInfo::NotArray), "S"), Ok("Pose".to_string()));
    assert_eq!(g.gen_type(&scoped("demo", "bool", ArrayInfo::Dynamic), "S"), Ok("safe_drive::msg::BoolSeq<0>".to_string()));
    assert_eq!(g.libs.len(), 2);
    assert!(g.warnings.is_empty());
}

#[test]
fn time_types_of_the_reserved_scope_are_replaced() {
    let mut g = generator();
    let exprs = parse_msg("builtin_interfaces/Time stamp").unwrap();
    let lines: Vec<String> = g.gen_msg("demo", "Sample", &exprs).unwrap().into_iter().collect();
    assert!(lines.contains(&"    pub stamp: builtin_interfaces::UnsafeTime,".to_string()));
    assert_eq!(
        g.warnings,
        vec![
            "Warning: demo::Sample uses builtin_interfaces::Time which causes the year-2038 problem."
                .to_string()
        ]
    );
    assert!(g.libs.is_empty());

    assert_eq!(
        g.gen_type(&scoped("builtin_interfaces", "Duration", ArrayInfo::Limited(2)), "Other"),
        Ok("builtin_interfaces::UnsafeDurationSeq<2>".to_string())
    );
    assert_eq!(g.warnings.len(), 2);
    assert_eq!(
        g.warnings[1],
        "Warning: demo::Other uses builtin_interfaces::Duration which causes the year-2038 problem."
    );
}

#[test]
fn an_unknown_type_of_the_reserved_scope_fails() {
    let mut g = generator();
    let exprs = parse_msg("std_msgs/Bool ok\nbuiltin_interfaces/Time t\nbuiltin_interfaces/Clock c").unwrap();
    let err = g.gen_msg("demo", "Sample", &exprs).unwrap_err();
    assert_eq!(
        err,
        ResolveError { scope: "builtin_interfaces".to_string(), name: "Clock".to_string() }
    );
    assert_eq!(err.message(), "unsupported type: builtin_interfaces::Clock");
    // Nothing of the failed file stays behind.
    assert!(g.libs.is_empty());
    assert!(g.warnings.is_empty());
}

#[test]
fn the_package_itself_may_be_the_reserved_scope() {
    let mut g = Generator::new("builtin_interfaces".to_string(), "crate".to_string(), true);
    assert_eq!(
        g.gen_type(&scoped("builtin_interfaces", "Time", ArrayInfo::Dynamic), "S"),
        Ok("TimeSeq<0>".to_string())
    );
    assert!(g.warnings.is_empty());
}

#[test]
fn a_record_without_fields_gets_a_placeholder() {
    let mut g = generator();
    let lines = lines_of(&mut g, "# nothing\n\nint32 LIMIT = 5\n");
    let at = lines.iter().position(|l| l == "pub struct Sample {").unwrap();
    assert_eq!(lines[at + 1], "    _unused: u8");
    assert_eq!(lines[at + 2], "}");
    assert_eq!(lines[6], "pub const LIMIT: i32 = 5;");
    let empty = lines_of(&mut g, "");
    assert_eq!(empty.len(), 15);
    assert_eq!(empty[11], "    _unused: u8");
}

#[test]
fn constants_and_fields() {
    let mut g = generator();
    let text = "int32 a 7 # seven\nstring NAME = 'x\\'y' #c\nfloat64 p = 10.2\nbool type = true\nint8 f = -5\nstd_msgs/Bool b\nint64[] arr = [10, -20, 3.5, true, 'q', [1]]";
    let lines = lines_of(&mut g, text);
    assert_eq!(lines[6], "pub const NAME: &[u8] = b\"x'y\0\"; //c");
    assert_eq!(lines[7], "pub const p: f64 = 10.2;");
    assert_eq!(lines[8], "pub const type_: bool = true;");
    assert_eq!(lines[9], "pub const f: i8 = -5;");
    assert_eq!(
        lines[10],
        "pub const arr: safe_drive::msg::I64Seq<0> = [Uint(10), Int(-20), Float(3.5), Bool(true), String(\"q\"), Array([Uint(1)])];"
    );
    let at = lines.iter().position(|l| l == "pub struct Sample {").unwrap();
    assert_eq!(lines[at + 1], "    pub a: i32, // seven");
    assert_eq!(lines[at + 2], "    pub b: std_msgs::msg::Bool,");
    assert_eq!(lines[at + 3], "}");
    assert_eq!(g.libs, vec!["std_msgs".to_string()]);
}

#[test]
fn one_declaration_at_a_time() {
    let mut g = generator();
    let field = Expr::Variable {
        var_type: bare("uint8", ArrayInfo::Limited(4)),
        var_name: "match".to_string(),
        value: Some(ValueType::Default(Value::Uint(1))),
        comment: None,
    };
    assert_eq!(
        g.gen_expr(&field, "S"),
        Ok(Some(ExprType::Variable("    pub match_: safe_drive::msg::U8Seq<4>,".to_string())))
    );
    let constant = Expr::Variable {
        var_type: TypeName::String(ArrayInfo::NotArray),
        var_name: "GREETING".to_string(),
        value: Some(ValueType::Const(Value::String("hi\\n".to_string()))),
        comment: Some(" said".to_string()),
    };
    assert_eq!(
        g.gen_expr(&constant, "S"),
        Ok(Some(ExprType::Const("pub const GREETING: &[u8] = b\"hi\\n\0\"; // said".to_string())))
    );
    assert_eq!(g.gen_expr(&Expr::Empty, "S"), Ok(None));
    assert_eq!(g.gen_expr(&Expr::Comment, "S"), Ok(None));
    assert_eq!(g.gen_expr(&Expr::Eof, "S"), Ok(None));
}

#[test]
fn values_as_the_generated_code_holds_them() {
    assert_eq!(Value::Uint(0).to_string(), "0");
    assert_eq!(Value::Uint(u64::MAX).to_string(), "18446744073709551615");
    assert_eq!(Value::Int(i64::MIN).to_string(), "-9223372036854775808");
    assert_eq!(Value::Int(42).to_string(), "42");
    assert_eq!(Value::Bool(false).to_string(), "false");
    assert_eq!(
        Value::Float { negative: true, whole: 0, fraction: "050".to_string() }.to_string(),
        "-0.050"
    );
    assert_eq!(Value::String("a\\\"b".to_string()).to_string(), "b\"a\\\"b\0\"");
    assert_eq!(
        Value::Array(vec![Value::String("a\\\"b".to_string()), Value::Int(-1)]).to_string(),
        "[String(\"a\\\\\\\"b\"), Int(-1)]"
    );
}

#[test]
fn compiling_twice_gives_the_same_lines() {
    let text = "std_msgs/Bool b\nbuiltin_interfaces/Time t\nint32[] xs\nstring NAME = \"n\"";
    let mut g = generator();
    let first = lines_of(&mut g, text);
    let second = lines_of(&mut g, text);
    assert_eq!(first, second);
    assert_eq!(g.libs, vec!["std_msgs".to_string()]);
    assert_eq!(g.warnings.len(), 2);
    let mut fresh = generator();
    assert_eq!(lines_of(&mut fresh, text), first);
}

#[test]
fn the_common_interfaces_can_be_left_out() {
    let mut g = Generator::new("demo".to_string(), "crate".to_string(), true);
    let lines = lines_of(&mut g, "int32 a");
    assert_eq!(lines[3], "use crate::msg::*;");
    assert_eq!(lines[4], "use crate::rcl;");
    assert!(lines[5].starts_with("\nextern \"C\" {\n"));
    assert_eq!(lines.len(), 14);
}

#[test]
fn a_service_has_two_records() {
    let mut g = Generator::new("demo".to_string(), "crate".to_string(), true);
    let req = parse_msg("int64 a\nint64 b\nint32 LIMIT = 3").unwrap();
    let resp = parse_msg("geo/Pose sum\nint32 OTHER = 4").unwrap();
    let lines: Vec<String> = g.gen_srv("demo", "Add", &req, &resp).unwrap().into_iter().collect();
    let head: Vec<&str> = lines[..8].iter().map(|l| l.as_str()).collect();
    assert_eq!(
        head,
        vec![
            "// This file was automatically generated by ros2msg_to_rs (https://github.com/tier4/ros2msg_to_rs).",
            "use super::super::*;",
            "use super::super::super::*;",
            "use crate::msg::*;",
            "use crate::rcl;",
            "use crate::msg::common_interfaces::*;",
            "pub const LIMIT: i32 = 3;",
            "pub const OTHER: i32 = 4;",
        ]
    );
    assert!(lines[8].contains("    fn demo__srv__Add_Request__init(msg: *mut AddRequest) -> bool;\n"));
    assert!(lines[8].contains("    fn demo__srv__Add_Response__Sequence__are_equal(lhs: *const AddResponseSeqRaw, rhs: *const AddResponseSeqRaw) -> bool;\n"));
    assert!(lines[8].contains("    fn rosidl_typesupport_c__get_service_type_support_handle__demo__srv__Add() -> *const rcl::rosidl_service_type_support_t;\n"));
    let body: Vec<&str> = lines[9..22].iter().map(|l| l.as_str()).collect();
    assert_eq!(
        body,
        vec![
            "",
            "#[repr(C)]",
            "#[derive(Debug)]",
            "pub struct AddRequest {",
            "    pub a: i64,",
            "    pub b: i64,",
            "}",
            "",
            "#[repr(C)]",
            "#[derive(Debug)]",
            "pub struct AddResponse {",
            "    pub sum: geo::msg::Pose,",
            "}",
        ]
    );
    assert_eq!(lines.len(), 27);
    assert!(lines[22].starts_with("\nimpl AddRequest {\n"));
    assert!(lines[22].contains("if unsafe { demo__srv__Add_Request__init(&mut msg) } {"));
    assert!(lines[22].contains("if N != 0 && size > N {"));
    assert!(lines[23].starts_with("\nimpl AddResponse {\n"));
    assert!(lines[24].starts_with("\npub struct Add;\n\nimpl ServiceMsg for Add {\n    type Request = AddRequest;\n"));
    assert!(lines[25].starts_with("\nimpl PartialEq for AddRequest {\n"));
    assert!(lines[25].contains("            demo__srv__Add_Request__Sequence__are_equal(&msg1, &msg2)\n"));
    assert!(lines[26].starts_with("\nimpl PartialEq for AddResponse {\n"));
    assert_eq!(g.libs, vec!["geo".to_string()]);
}

#[test]
fn a_service_that_fails_leaves_nothing_behind() {
    let mut g = generator();
    let req = parse_msg("geo/Pose p\nbuiltin_interfaces/Time t").unwrap();
    let resp = parse_msg("builtin_interfaces/Nope n").unwrap();
    assert_eq!(
        g.gen_srv("demo", "Add", &req, &resp),
        Err(ResolveError { scope: "builtin_interfaces".to_string(), name: "Nope".to_string() })
    );
    assert!(g.libs.is_empty());
    assert!(g.warnings.is_empty());
    let empty: Vec<String> = g.gen_srv("demo", "E", &[], &[]).unwrap().into_iter().collect();
    assert_eq!(empty[11], "    _unused: u8");
    assert_eq!(empty[17], "    _unused: u8");
}

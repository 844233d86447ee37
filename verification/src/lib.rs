//! A compiler from ROS 2 interface definitions (`.msg` and `.srv` files) to
//! Rust declarations that match the layout of the native runtime's types.

use vstd::prelude::*;
use crate::text::text_eq;

pub mod compile;
pub mod files;
pub mod generator;
pub mod parser;
pub mod template;
pub mod text;

verus! {

/// Whether a name cannot stand as an identifier in the generated code: it is
/// a keyword of Rust or the name of one of its scalar types.
pub open spec fn is_reserved(name: Seq<char>) -> bool {
    ||| name == "type"@
    ||| name == "pub"@
    ||| name == "fn"@
    ||| name == "match"@
    ||| name == "if"@
    ||| name == "while"@
    ||| name == "break"@
    ||| name == "continue"@
    ||| name == "unsafe"@
    ||| name == "async"@
    ||| name == "move"@
    ||| name == "trait"@
    ||| name == "impl"@
    ||| name == "for"@
    ||| name == "i8"@
    ||| name == "u8"@
    ||| name == "i16"@
    ||| name == "u16"@
    ||| name == "i32"@
    ||| name == "u32"@
    ||| name == "i64"@
    ||| name == "u64"@
    ||| name == "bool"@
    ||| name == "char"@
}

/// A name as the generated code writes it: a reserved name gets an
/// underscore at its end, every other name stays as it is.
pub open spec fn mangled(name: Seq<char>) -> Seq<char> {
    if is_reserved(name) {
        name + "_"@
    } else {
        name
    }
}

/// Whether `name` is reserved.
fn reserved(name: &str) -> (r: bool)
    ensures
        r == is_reserved(name@),
{
    text_eq(name, "type") || text_eq(name, "pub") || text_eq(name, "fn") || text_eq(name, "match")
        || text_eq(name, "if") || text_eq(name, "while") || text_eq(name, "break") || text_eq(
        name,
        "continue",
    ) || text_eq(name, "unsafe") || text_eq(name, "async") || text_eq(name, "move") || text_eq(
        name,
        "trait",
    ) || text_eq(name, "impl") || text_eq(name, "for") || text_eq(name, "i8") || text_eq(
        name,
        "u8",
    ) || text_eq(name, "i16") || text_eq(name, "u16") || text_eq(name, "i32") || text_eq(
        name,
        "u32",
    ) || text_eq(name, "i64") || text_eq(name, "u64") || text_eq(name, "bool") || text_eq(
        name,
        "char",
    )
}

/// The name as the generated code writes it.
pub fn mangle(var_name: &str) -> (name: String)
    ensures
        name@ == mangled(var_name@),
{
    let mut name = String::from_str(var_name);
    if reserved(var_name) {
        name.append("_");
    }
    name
}

} // verus!

//! What a declared type resolves to: the rules, as functions on text.

use vstd::prelude::*;
use crate::parser::{ArrayInfo, TypeNameView};
use crate::text::decimal;

verus! {

/// The Rust scalar that a primitive name of the interface language stands
/// for: there are eleven such names, one for each scalar. `None` for every
/// other name.
pub open spec fn primitive(name: Seq<char>) -> Option<Seq<char>> {
    if name == "bool"@ {
        Some("bool"@)
    } else if name == "int8"@ {
        Some("i8"@)
    } else if name == "uint8"@ {
        Some("u8"@)
    } else if name == "int16"@ {
        Some("i16"@)
    } else if name == "uint16"@ {
        Some("u16"@)
    } else if name == "int32"@ {
        Some("i32"@)
    } else if name == "uint32"@ {
        Some("u32"@)
    } else if name == "int64"@ {
        Some("i64"@)
    } else if name == "uint64"@ {
        Some("u64"@)
    } else if name == "float32"@ {
        Some("f32"@)
    } else if name == "float64"@ {
        Some("f64"@)
    } else {
        None
    }
}

/// The base type of a bare name: its scalar if it is a primitive, else the
/// name itself, as a type of the same package.
pub open spec fn bare_base(name: Seq<char>) -> Seq<char> {
    match primitive(name) {
        Some(scalar) => scalar,
        None => name,
    }
}

/// The runtime's sequence type for a Rust scalar; `None` for every other
/// base type.
pub open spec fn scalar_sequence(base: Seq<char>) -> Option<Seq<char>> {
    if base == "bool"@ {
        Some("BoolSeq"@)
    } else if base == "i8"@ {
        Some("I8Seq"@)
    } else if base == "i16"@ {
        Some("I16Seq"@)
    } else if base == "i32"@ {
        Some("I32Seq"@)
    } else if base == "i64"@ {
        Some("I64Seq"@)
    } else if base == "u8"@ {
        Some("U8Seq"@)
    } else if base == "u16"@ {
        Some("U16Seq"@)
    } else if base == "u32"@ {
        Some("U32Seq"@)
    } else if base == "u64"@ {
        Some("U64Seq"@)
    } else if base == "f32"@ {
        Some("F32Seq"@)
    } else if base == "f64"@ {
        Some("F64Seq"@)
    } else {
        None
    }
}

/// The growable sequence of `base` with room for `size` items, 0 meaning no
/// limit: the runtime's own sequence for a scalar, `<base>Seq<size>` for
/// everything else. `path` is the path of the runtime crate.
pub open spec fn seq_type(path: Seq<char>, base: Seq<char>, size: nat) -> Seq<char> {
    match scalar_sequence(base) {
        Some(wrapper) => path + "::msg::"@ + wrapper + "<"@ + decimal(size) + ">"@,
        None => base + "Seq<"@ + decimal(size) + ">"@,
    }
}

/// The array of exactly `n` items of `base`.
pub open spec fn fixed_array(base: Seq<char>, n: nat) -> Seq<char> {
    "["@ + base + "; "@ + decimal(n) + "]"@
}

/// `base` collected as `info` says.
pub open spec fn array_type(path: Seq<char>, base: Seq<char>, info: ArrayInfo) -> Seq<char> {
    match info {
        ArrayInfo::Dynamic => seq_type(path, base, 0),
        ArrayInfo::Limited(n) => seq_type(path, base, n as nat),
        ArrayInfo::Static(n) => fixed_array(base, n as nat),
        ArrayInfo::NotArray => base,
    }
}

/// The runtime's string of at most `bound` characters, 0 meaning no limit.
pub open spec fn string_type(path: Seq<char>, bound: nat) -> Seq<char> {
    path + "::msg::RosString<"@ + decimal(bound) + ">"@
}

/// The runtime's sequence of strings of at most `bound` characters, with
/// room for `size` strings.
pub open spec fn string_seq_type(path: Seq<char>, bound: nat, size: nat) -> Seq<char> {
    path + "::msg::RosStringSeq<"@ + decimal(bound) + ", "@ + decimal(size) + ">"@
}

/// The string type `base`, of bound `bound`, collected as `info` says.
pub open spec fn string_array_type(
    path: Seq<char>,
    base: Seq<char>,
    bound: nat,
    info: ArrayInfo,
) -> Seq<char> {
    match info {
        ArrayInfo::Dynamic => string_seq_type(path, bound, 0),
        ArrayInfo::Limited(n) => string_seq_type(path, bound, n as nat),
        ArrayInfo::Static(n) => fixed_array(base, n as nat),
        ArrayInfo::NotArray => base,
    }
}

/// The scope whose time types are replaced.
pub open spec fn reserved_scope() -> Seq<char> {
    "builtin_interfaces"@
}

/// What stands in for a type of the reserved scope; `None` where the scope
/// has no such type.
pub open spec fn reserved_substitute(name: Seq<char>) -> Option<Seq<char>> {
    if name == "Time"@ {
        Some("builtin_interfaces::UnsafeTime"@)
    } else if name == "Duration"@ {
        Some("builtin_interfaces::UnsafeDuration"@)
    } else {
        None
    }
}

/// The warning that a replaced time type gives rise to.
pub open spec fn warning_text(lib: Seq<char>, msg_type: Seq<char>, name: Seq<char>) -> Seq<char> {
    "Warning: "@ + lib + "::"@ + msg_type + " uses builtin_interfaces::"@ + name
        + " which causes the year-2038 problem."@
}

/// A type for which no representation is defined.
pub struct Unsupported {
    pub scope: Seq<char>,
    pub name: Seq<char>,
}

/// What resolving one declared type yields.
pub struct Resolved {
    /// The Rust type, as text.
    pub text: Seq<char>,
    /// The other package that the type comes from, if any.
    pub dependency: Option<Seq<char>>,
    /// The warning that the resolution gives rise to, if any.
    pub warning: Option<Seq<char>>,
}

/// A resolution that touches no other package and warns of nothing.
pub open spec fn plain(text: Seq<char>) -> Resolved {
    Resolved { text, dependency: None, warning: None }
}

/// The same declared type, collected as `info` says.
pub open spec fn with_shape(ty: TypeNameView, info: ArrayInfo) -> TypeNameView {
    match ty {
        TypeNameView::Type { name, .. } => TypeNameView::Type { name, array_info: info },
        TypeNameView::ScopedType { scope, name, .. } => TypeNameView::ScopedType {
            scope,
            name,
            array_info: info,
        },
        TypeNameView::LimitedString { size, .. } => TypeNameView::LimitedString {
            size,
            array_info: info,
        },
        TypeNameView::String(_) => TypeNameView::String(info),
    }
}

/// The type of a field declared as `ty` in the message `msg_type` of the
/// package `lib`, with the runtime crate at `path`.
///
/// A bare name is a primitive or a type of the same package. A scoped name
/// of the package itself is a type of the same package; one of the reserved
/// scope is replaced by its substitute, with a warning, and fails where the
/// scope has no such type; one of any other package is qualified by that
/// package, which becomes a dependency.
pub open spec fn resolve(
    lib: Seq<char>,
    path: Seq<char>,
    ty: TypeNameView,
    msg_type: Seq<char>,
) -> Result<Resolved, Unsupported> {
    match ty {
        TypeNameView::Type { name, array_info } => Ok(
            plain(array_type(path, bare_base(name), array_info)),
        ),
        TypeNameView::String(array_info) => Ok(
            plain(string_array_type(path, string_type(path, 0), 0, array_info)),
        ),
        TypeNameView::LimitedString { size, array_info } => Ok(
            plain(string_array_type(path, string_type(path, size as nat), size as nat, array_info)),
        ),
        TypeNameView::ScopedType { scope, name, array_info } => {
            if scope == lib {
                Ok(plain(array_type(path, name, array_info)))
            } else if scope == reserved_scope() {
                match reserved_substitute(name) {
                    Some(substitute) => Ok(
                        Resolved {
                            text: array_type(path, substitute, array_info),
                            dependency: None,
                            warning: Some(warning_text(lib, msg_type, name)),
                        },
                    ),
                    None => Err(Unsupported { scope, name }),
                }
            } else {
                Ok(
                    Resolved {
                        text: array_type(path, scope + "::msg::"@ + name, array_info),
                        dependency: Some(scope),
                        warning: None,
                    },
                )
            }
        },
    }
}

/// The type of a constant declared as `ty`: a borrowed byte view for a
/// string, bounded or not, and the type of a field for everything else.
pub open spec fn resolve_const(
    lib: Seq<char>,
    path: Seq<char>,
    ty: TypeNameView,
    msg_type: Seq<char>,
) -> Result<Resolved, Unsupported> {
    match ty {
        TypeNameView::String(array_info) => Ok(plain(array_type(path, "&[u8]"@, array_info))),
        TypeNameView::LimitedString { array_info, .. } => Ok(
            plain(array_type(path, "&[u8]"@, array_info)),
        ),
        _ => resolve(lib, path, ty, msg_type),
    }
}

/// The list of dependencies after `scope` has been recorded: each package
/// stands in it once, in the order of its first use.
pub open spec fn record(libs: Seq<Seq<char>>, scope: Seq<char>) -> Seq<Seq<char>> {
    if libs.contains(scope) {
        libs
    } else {
        libs.push(scope)
    }
}

/// The list of dependencies after a resolution.
pub open spec fn libs_after(libs: Seq<Seq<char>>, r: Resolved) -> Seq<Seq<char>> {
    match r.dependency {
        Some(scope) => record(libs, scope),
        None => libs,
    }
}

/// The list of warnings after a resolution.
pub open spec fn warnings_after(warnings: Seq<Seq<char>>, r: Resolved) -> Seq<Seq<char>> {
    match r.warning {
        Some(w) => warnings.push(w),
        None => warnings,
    }
}

} // verus!

//! What holds of every resolution and of every generated file.

use vstd::prelude::*;
use crate::generator::resolve::{
    array_type,
    fixed_array,
    plain,
    primitive,
    record,
    resolve,
    resolve_const,
    seq_type,
    string_seq_type,
    with_shape,
    Resolved,
    Unsupported,
};
use crate::generator::{collect, emit, msg_file, srv_file, Collected, GeneratorView};
use crate::parser::{ArrayInfo, ExprView, TypeNameView};

verus! {

/// The primitive names of the interface language, each with the Rust scalar
/// that it stands for.
pub open spec fn primitive_table() -> Seq<(Seq<char>, Seq<char>)> {
    seq![
        ("bool"@, "bool"@),
        ("int8"@, "i8"@),
        ("uint8"@, "u8"@),
        ("int16"@, "i16"@),
        ("uint16"@, "u16"@),
        ("int32"@, "i32"@),
        ("uint32"@, "u32"@),
        ("int64"@, "i64"@),
        ("uint64"@, "u64"@),
        ("float32"@, "f32"@),
        ("float64"@, "f64"@),
    ]
}

/// A field of a primitive type that is no array resolves to the scalar of
/// that type and to nothing else: no wrapper, no dependency, no warning.
pub proof fn law_primitive_resolves_to_its_scalar(
    lib: Seq<char>,
    path: Seq<char>,
    msg_type: Seq<char>,
    k: int,
)
    requires
        0 <= k < primitive_table().len(),
    ensures
        resolve(
            lib,
            path,
            TypeNameView::Type { name: primitive_table()[k].0, array_info: ArrayInfo::NotArray },
            msg_type,
        ) == Ok::<Resolved, Unsupported>(plain(primitive_table()[k].1)),
{
    reveal_strlit("bool");
    reveal_strlit("int8");
    reveal_strlit("uint8");
    reveal_strlit("int16");
    reveal_strlit("uint16");
    reveal_strlit("int32");
    reveal_strlit("uint32");
    reveal_strlit("int64");
    reveal_strlit("uint64");
    reveal_strlit("float32");
    reveal_strlit("float64");
    let table = primitive_table();
    assert(table[0].0 == "bool"@);
    assert(table[1].0 == "int8"@);
    assert(table[2].0 == "uint8"@);
    assert(table[3].0 == "int16"@);
    assert(table[4].0 == "uint16"@);
    assert(table[5].0 == "int32"@);
    assert(table[6].0 == "uint32"@);
    assert(table[7].0 == "int64"@);
    assert(table[8].0 == "uint64"@);
    assert(table[9].0 == "float32"@);
    assert(table[10].0 == "float64"@);
    assert("bool"@[0] == 'b');
    assert("int8"@[0] == 'i' && "int8"@.len() == 4);
    assert("uint8"@[0] == 'u' && "uint8"@.len() == 5);
    assert("int16"@[0] == 'i' && "int16"@[3] == '1');
    assert("uint16"@[0] == 'u' && "uint16"@[4] == '1');
    assert("int32"@[0] == 'i' && "int32"@[3] == '3');
    assert("uint32"@[0] == 'u' && "uint32"@[4] == '3');
    assert("int64"@[0] == 'i' && "int64"@[3] == '6');
    assert("uint64"@[0] == 'u' && "uint64"@[4] == '6');
    assert("float32"@[0] == 'f' && "float32"@[5] == '3');
    assert("float64"@[0] == 'f' && "float64"@[5] == '6');
    assert("int16"@.len() == 5 && "int32"@.len() == 5 && "int64"@.len() == 5);
    assert("uint16"@.len() == 6 && "uint32"@.len() == 6 && "uint64"@.len() == 6);
    assert("float32"@.len() == 7 && "float64"@.len() == 7 && "bool"@.len() == 4);
}

/// A bare name that is none of the primitive names is no primitive: as a
/// field that is no array it resolves to itself, a type of the same
/// package.
pub proof fn law_other_names_are_types_of_the_package(
    lib: Seq<char>,
    path: Seq<char>,
    msg_type: Seq<char>,
    name: Seq<char>,
)
    requires
        forall|k: int| 0 <= k < primitive_table().len() ==> primitive_table()[k].0 != name,
    ensures
        primitive(name) is None,
        resolve(
            lib,
            path,
            TypeNameView::Type { name, array_info: ArrayInfo::NotArray },
            msg_type,
        ) == Ok::<Resolved, Unsupported>(plain(name)),
{
    let table = primitive_table();
    assert(table[0].0 == "bool"@);
    assert(table[1].0 == "int8"@);
    assert(table[2].0 == "uint8"@);
    assert(table[3].0 == "int16"@);
    assert(table[4].0 == "uint16"@);
    assert(table[5].0 == "int32"@);
    assert(table[6].0 == "uint32"@);
    assert(table[7].0 == "int64"@);
    assert(table[8].0 == "uint64"@);
    assert(table[9].0 == "float32"@);
    assert(table[10].0 == "float64"@);
}

/// A constant of string type, bounded or not, is a borrowed byte view and
/// never the owning string of a field, with no dependency and no warning.
pub proof fn law_string_constants_are_byte_views(
    lib: Seq<char>,
    path: Seq<char>,
    msg_type: Seq<char>,
    bound: usize,
    info: ArrayInfo,
)
    ensures
        resolve_const(lib, path, TypeNameView::String(info), msg_type) == Ok::<
            Resolved,
            Unsupported,
        >(plain(array_type(path, "&[u8]"@, info))),
        resolve_const(
            lib,
            path,
            TypeNameView::LimitedString { size: bound, array_info: info },
            msg_type,
        ) == Ok::<Resolved, Unsupported>(plain(array_type(path, "&[u8]"@, info))),
        array_type(path, "&[u8]"@, ArrayInfo::NotArray) == "&[u8]"@,
{
}

/// The same resolution with another text.
pub open spec fn with_text(r: Resolved, text: Seq<char>) -> Resolved {
    Resolved { text, ..r }
}

/// An array of exactly `n` items resolves to the fixed array of length `n`
/// of what the same type resolves to when it is no array, with the same
/// dependency and warning; it fails where that type fails. No sequence
/// type takes part in it.
pub proof fn law_fixed_array_wraps_the_base(
    lib: Seq<char>,
    path: Seq<char>,
    ty: TypeNameView,
    msg_type: Seq<char>,
    n: usize,
)
    ensures
        match resolve(lib, path, with_shape(ty, ArrayInfo::NotArray), msg_type) {
            Ok(base) => resolve(lib, path, with_shape(ty, ArrayInfo::Static(n)), msg_type) == Ok::<
                Resolved,
                Unsupported,
            >(with_text(base, fixed_array(base.text, n as nat))),
            Err(e) => resolve(lib, path, with_shape(ty, ArrayInfo::Static(n)), msg_type) == Err::<
                Resolved,
                Unsupported,
            >(e),
        },
{
}

/// The growable sequence of the declared type `ty`, whose base type
/// resolves to `base`, with room for `size` items: the sequence of strings
/// for a string, the sequence of `base` for everything else.
pub open spec fn sequence_of(path: Seq<char>, ty: TypeNameView, base: Seq<char>, size: nat) -> Seq<
    char,
> {
    match ty {
        TypeNameView::String(_) => string_seq_type(path, 0, size),
        TypeNameView::LimitedString { size: bound, .. } => string_seq_type(
            path,
            bound as nat,
            size,
        ),
        _ => seq_type(path, base, size),
    }
}

/// An array of at most `n` items resolves to the growable sequence with
/// room for `n` items, and an array without bound to the one with room for
/// 0, which stands for no limit: a bound of 0 and no bound are the same.
pub proof fn law_bounded_and_unbounded_are_sequences(
    lib: Seq<char>,
    path: Seq<char>,
    ty: TypeNameView,
    msg_type: Seq<char>,
    n: usize,
)
    ensures
        match resolve(lib, path, with_shape(ty, ArrayInfo::NotArray), msg_type) {
            Ok(base) => {
                &&& resolve(lib, path, with_shape(ty, ArrayInfo::Limited(n)), msg_type) == Ok::<
                    Resolved,
                    Unsupported,
                >(with_text(base, sequence_of(path, ty, base.text, n as nat)))
                &&& resolve(lib, path, with_shape(ty, ArrayInfo::Dynamic), msg_type) == Ok::<
                    Resolved,
                    Unsupported,
                >(with_text(base, sequence_of(path, ty, base.text, 0)))
            },
            Err(e) => {
                &&& resolve(lib, path, with_shape(ty, ArrayInfo::Limited(n)), msg_type) == Err::<
                    Resolved,
                    Unsupported,
                >(e)
                &&& resolve(lib, path, with_shape(ty, ArrayInfo::Dynamic), msg_type) == Err::<
                    Resolved,
                    Unsupported,
                >(e)
            },
        },
        resolve(lib, path, with_shape(ty, ArrayInfo::Limited(0)), msg_type) == resolve(
            lib,
            path,
            with_shape(ty, ArrayInfo::Dynamic),
            msg_type,
        ),
        resolve_const(lib, path, with_shape(ty, ArrayInfo::Limited(0)), msg_type) == resolve_const(
            lib,
            path,
            with_shape(ty, ArrayInfo::Dynamic),
            msg_type,
        ),
{
}

/// Whether no package stands twice in a list of dependencies.
pub open spec fn distinct(libs: Seq<Seq<char>>) -> bool {
    forall|i: int, j: int| 0 <= i < j < libs.len() ==> libs[i] != libs[j]
}

/// Recording a dependency keeps the dependencies distinct, and puts the
/// package among them.
pub proof fn law_record_keeps_distinct(libs: Seq<Seq<char>>, scope: Seq<char>)
    requires
        distinct(libs),
    ensures
        distinct(record(libs, scope)),
        record(libs, scope).contains(scope),
        forall|other: Seq<char>| libs.contains(other) ==> record(libs, scope).contains(other),
{
    if libs.contains(scope) {
    } else {
        let after = libs.push(scope);
        assert(after[libs.len() as int] == scope);
        assert forall|other: Seq<char>| libs.contains(other) implies after.contains(other) by {
            let k = choose|k: int| 0 <= k < libs.len() && libs[k] == other;
            assert(after[k] == other);
        }
    }
}

/// Compiling declarations keeps the dependencies of the generator distinct.
pub proof fn law_dependencies_stay_distinct(
    start: GeneratorView,
    exprs: Seq<ExprView>,
    msg_type: Seq<char>,
    n: int,
)
    requires
        distinct(start.libs),
    ensures
        collect(start, exprs, msg_type, n) matches Ok(c) ==> distinct(c.state.libs),
    decreases n,
{
    if n > 0 {
        law_dependencies_stay_distinct(start, exprs, msg_type, n - 1);
        if let Ok(c) = collect(start, exprs, msg_type, n - 1) {
            if let Some(Ok(em)) = emit(
                c.state.lib_name,
                c.state.safe_drive_path,
                exprs[n - 1],
                msg_type,
            ) {
                if let Some(scope) = em.resolved.dependency {
                    law_record_keeps_distinct(c.state.libs, scope);
                }
            }
        }
    }
}

/// Whether two generators compile for the same package, with the same
/// runtime crate and the same imports.
pub open spec fn same_settings(a: GeneratorView, b: GeneratorView) -> bool {
    &&& a.lib_name == b.lib_name
    &&& a.safe_drive_path == b.safe_drive_path
    &&& a.disable_common_interfaces == b.disable_common_interfaces
}

/// The lines of declarations depend on the settings of the generator
/// alone, not on what it has recorded.
pub proof fn law_lines_depend_on_settings(
    a: GeneratorView,
    b: GeneratorView,
    exprs: Seq<ExprView>,
    msg_type: Seq<char>,
    n: int,
)
    requires
        same_settings(a, b),
    ensures
        match collect(a, exprs, msg_type, n) {
            Ok(x) => {
                &&& collect(b, exprs, msg_type, n) matches Ok(y)
                &&& x.consts == y.consts
                &&& x.fields == y.fields
                &&& same_settings(x.state, y.state)
                &&& same_settings(x.state, a)
            },
            Err(e) => collect(b, exprs, msg_type, n) == Err::<Collected, Unsupported>(e),
        },
    decreases n,
{
    if n > 0 {
        law_lines_depend_on_settings(a, b, exprs, msg_type, n - 1);
    }
}

/// Compiling the same message again, with the generator as the first time
/// left it, gives the same lines.
pub proof fn law_same_message_same_lines(
    g: GeneratorView,
    module: Seq<char>,
    msg_type: Seq<char>,
    exprs: Seq<ExprView>,
)
    ensures
        msg_file(g, module, msg_type, exprs) matches Ok(first) ==> {
            &&& msg_file(first.1, module, msg_type, exprs) matches Ok(second)
            &&& second.0 == first.0
        },
{
    law_lines_depend_on_settings(g, g, exprs, msg_type, exprs.len() as int);
    if let Ok(c) = collect(g, exprs, msg_type, exprs.len() as int) {
        law_lines_depend_on_settings(g, c.state, exprs, msg_type, exprs.len() as int);
    }
}

/// Compiling the same service again, with the generator as the first time
/// left it, gives the same lines.
pub proof fn law_same_service_same_lines(
    g: GeneratorView,
    module: Seq<char>,
    srv_type: Seq<char>,
    exprs_req: Seq<ExprView>,
    exprs_resp: Seq<ExprView>,
)
    ensures
        srv_file(g, module, srv_type, exprs_req, exprs_resp) matches Ok(first) ==> {
            &&& srv_file(first.1, module, srv_type, exprs_req, exprs_resp) matches Ok(second)
            &&& second.0 == first.0
        },
{
    let n = exprs_req.len() as int;
    let m = exprs_resp.len() as int;
    law_lines_depend_on_settings(g, g, exprs_req, srv_type, n);
    if let Ok(req) = collect(g, exprs_req, srv_type, n) {
        law_lines_depend_on_settings(req.state, req.state, exprs_resp, srv_type, m);
        if let Ok(resp) = collect(req.state, exprs_resp, srv_type, m) {
            law_lines_depend_on_settings(g, resp.state, exprs_req, srv_type, n);
            let again = collect(resp.state, exprs_req, srv_type, n)->Ok_0;
            law_lines_depend_on_settings(req.state, again.state, exprs_resp, srv_type, m);
        }
    }
}

} // verus!

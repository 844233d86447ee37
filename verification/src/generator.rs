//! The generator: from the declarations of one interface file to the lines
//! of the Rust file that stands for it.

use std::collections::VecDeque;
use vstd::prelude::*;
use crate::generator::emit::{
    cfun_msg,
    cfun_srv,
    const_line,
    field_line,
    gen_cfun_msg,
    gen_cfun_srv,
    gen_impl_and_seq_msg,
    gen_impl_and_seq_srv,
    gen_record,
    impl_and_seq_msg,
    impl_and_seq_srv,
    msg_imports,
    push_line,
    push_lines,
    record_lines,
    srv_imports,
    BANNER,
};
use crate::mangle;
use crate::mangled;
use crate::parser::display::display_text;
use crate::parser::{expr_views, ArrayInfo, Expr, ExprView, TypeName, Value, ValueType, ValueTypeView};
use crate::text::{push_decimal, text_eq, texts};
use crate::generator::resolve::{
    array_type,
    bare_base,
    fixed_array,
    libs_after,
    primitive,
    record,
    resolve,
    resolve_const,
    scalar_sequence,
    seq_type,
    string_array_type,
    string_seq_type,
    string_type,
    warning_text,
    warnings_after,
    Resolved,
    Unsupported,
};

pub mod emit;
pub mod laws;
pub mod resolve;

verus! {

/// Compiles the interface files of one package.
pub struct Generator {
    /// The other packages that the compiled files refer to, each once, in
    /// the order of their first use.
    pub libs: Vec<String>,
    /// The warnings that the compiled files gave rise to, in their order.
    pub warnings: Vec<String>,
    /// The package that the compiled files belong to.
    pub lib_name: String,
    /// The path of the runtime crate in the generated code.
    pub safe_drive_path: String,
    /// Whether the generated message files leave out the import of the
    /// common interfaces.
    pub disable_common_interfaces: bool,
}

/// The mathematical model of a [`Generator`].
pub struct GeneratorView {
    pub libs: Seq<Seq<char>>,
    pub warnings: Seq<Seq<char>>,
    pub lib_name: Seq<char>,
    pub safe_drive_path: Seq<char>,
    pub disable_common_interfaces: bool,
}

impl GeneratorView {
    /// The generator after a resolution: its dependency and its warning are
    /// recorded, the rest is as before.
    pub open spec fn after(self, r: Resolved) -> GeneratorView {
        GeneratorView {
            libs: libs_after(self.libs, r),
            warnings: warnings_after(self.warnings, r),
            ..self
        }
    }
}

impl View for Generator {
    type V = GeneratorView;

    open spec fn view(&self) -> GeneratorView {
        GeneratorView {
            libs: texts(self.libs@),
            warnings: texts(self.warnings@),
            lib_name: self.lib_name@,
            safe_drive_path: self.safe_drive_path@,
            disable_common_interfaces: self.disable_common_interfaces,
        }
    }
}

/// A declared type for which no representation is defined.
#[derive(Debug, PartialEq, Eq)]
pub struct ResolveError {
    /// The package that the type was looked for in.
    pub scope: String,
    /// The name of the type.
    pub name: String,
}

impl View for ResolveError {
    type V = Unsupported;

    open spec fn view(&self) -> Unsupported {
        Unsupported { scope: self.scope@, name: self.name@ }
    }
}

impl ResolveError {
    /// The error in words.
    pub open spec fn in_words(self) -> Seq<char> {
        "unsupported type: "@ + self.scope@ + "::"@ + self.name@
    }

    /// The error in words.
    pub fn message(&self) -> (text: String)
        ensures
            text@ == self.in_words(),
    {
        let mut text = String::new();
        text.append("unsupported type: ");
        text.append(self.scope.as_str());
        text.append("::");
        text.append(self.name.as_str());
        assert(text@ =~= "unsupported type: "@ + self.scope@ + "::"@ + self.name@);
        text
    }
}

/// The Rust scalar that a primitive name stands for.
pub fn gen_primitives(name: &str) -> (scalar: Option<&'static str>)
    ensures
        match scalar {
            Some(t) => primitive(name@) == Some(t@),
            None => primitive(name@) is None,
        },
{
    if text_eq(name, "bool") {
        Some("bool")
    } else if text_eq(name, "int8") {
        Some("i8")
    } else if text_eq(name, "uint8") {
        Some("u8")
    } else if text_eq(name, "int16") {
        Some("i16")
    } else if text_eq(name, "uint16") {
        Some("u16")
    } else if text_eq(name, "int32") {
        Some("i32")
    } else if text_eq(name, "uint32") {
        Some("u32")
    } else if text_eq(name, "int64") {
        Some("i64")
    } else if text_eq(name, "uint64") {
        Some("u64")
    } else if text_eq(name, "float32") {
        Some("f32")
    } else if text_eq(name, "float64") {
        Some("f64")
    } else {
        None
    }
}

/// The runtime's sequence type for a Rust scalar.
fn scalar_sequence_of(base: &str) -> (wrapper: Option<&'static str>)
    ensures
        match wrapper {
            Some(w) => scalar_sequence(base@) == Some(w@),
            None => scalar_sequence(base@) is None,
        },
{
    if text_eq(base, "bool") {
        Some("BoolSeq")
    } else if text_eq(base, "i8") {
        Some("I8Seq")
    } else if text_eq(base, "i16") {
        Some("I16Seq")
    } else if text_eq(base, "i32") {
        Some("I32Seq")
    } else if text_eq(base, "i64") {
        Some("I64Seq")
    } else if text_eq(base, "u8") {
        Some("U8Seq")
    } else if text_eq(base, "u16") {
        Some("U16Seq")
    } else if text_eq(base, "u32") {
        Some("U32Seq")
    } else if text_eq(base, "u64") {
        Some("U64Seq")
    } else if text_eq(base, "f32") {
        Some("F32Seq")
    } else if text_eq(base, "f64") {
        Some("F64Seq")
    } else {
        None
    }
}

/// The array of exactly `n` items of `base`.
fn gen_fixed_array(base: &str, n: usize) -> (text: String)
    ensures
        text@ == fixed_array(base@, n as nat),
{
    let mut text = String::new();
    text.append("[");
    text.append(base);
    text.append("; ");
    push_decimal(&mut text, n as u64);
    text.append("]");
    assert(text@ =~= fixed_array(base@, n as nat));
    text
}

impl Default for Generator {
    /// A generator without names that has compiled nothing yet.
    fn default() -> (g: Self)
        ensures
            g@ == (GeneratorView {
                libs: Seq::empty(),
                warnings: Seq::empty(),
                lib_name: Seq::empty(),
                safe_drive_path: Seq::empty(),
                disable_common_interfaces: false,
            }),
    {
        Generator::new(String::new(), String::new(), false)
    }
}

impl Generator {
    /// A generator for the package `lib_name` that has compiled nothing yet.
    pub fn new(lib_name: String, safe_drive_path: String, disable_common_interfaces: bool) -> (g:
        Self)
        ensures
            g@ == (GeneratorView {
                libs: Seq::empty(),
                warnings: Seq::empty(),
                lib_name: lib_name@,
                safe_drive_path: safe_drive_path@,
                disable_common_interfaces,
            }),
    {
        let g = Generator {
            libs: Vec::new(),
            warnings: Vec::new(),
            lib_name,
            safe_drive_path,
            disable_common_interfaces,
        };
        assert(texts(g.libs@) =~= Seq::empty());
        assert(texts(g.warnings@) =~= Seq::empty());
        g
    }

    /// The growable sequence of `type_str` with room for `size` items.
    pub fn gen_seq_type(&self, type_str: &str, size: usize) -> (text: String)
        ensures
            text@ == seq_type(self.safe_drive_path@, type_str@, size as nat),
    {
        let mut text = String::new();
        match scalar_sequence_of(type_str) {
            Some(wrapper) => {
                text.append(self.safe_drive_path.as_str());
                text.append("::msg::");
                text.append(wrapper);
                text.append("<");
            },
            None => {
                text.append(type_str);
                text.append("Seq<");
            },
        }
        push_decimal(&mut text, size as u64);
        text.append(">");
        assert(text@ =~= seq_type(self.safe_drive_path@, type_str@, size as nat));
        text
    }

    /// `type_str` collected as `array_info` says.
    pub fn gen_array_type(&self, type_str: String, array_info: &ArrayInfo) -> (text: String)
        ensures
            text@ == array_type(self.safe_drive_path@, type_str@, *array_info),
    {
        match array_info {
            ArrayInfo::Dynamic => self.gen_seq_type(type_str.as_str(), 0),
            ArrayInfo::Limited(n) => self.gen_seq_type(type_str.as_str(), *n),
            ArrayInfo::Static(n) => gen_fixed_array(type_str.as_str(), *n),
            ArrayInfo::NotArray => type_str,
        }
    }

    /// The string type `type_str`, of bound `strlen`, collected as
    /// `array_info` says.
    pub fn gen_string_array_type(
        &self,
        type_str: String,
        strlen: usize,
        array_info: &ArrayInfo,
    ) -> (text: String)
        ensures
            text@ == string_array_type(
                self.safe_drive_path@,
                type_str@,
                strlen as nat,
                *array_info,
            ),
    {
        match array_info {
            ArrayInfo::Dynamic => self.gen_string_seq(strlen, 0),
            ArrayInfo::Limited(n) => self.gen_string_seq(strlen, *n),
            ArrayInfo::Static(n) => gen_fixed_array(type_str.as_str(), *n),
            ArrayInfo::NotArray => type_str,
        }
    }

    /// The runtime's sequence of strings of at most `strlen` characters,
    /// with room for `size` strings.
    fn gen_string_seq(&self, strlen: usize, size: usize) -> (text: String)
        ensures
            text@ == string_seq_type(self.safe_drive_path@, strlen as nat, size as nat),
    {
        let mut text = String::new();
        text.append(self.safe_drive_path.as_str());
        text.append("::msg::RosStringSeq<");
        push_decimal(&mut text, strlen as u64);
        text.append(", ");
        push_decimal(&mut text, size as u64);
        text.append(">");
        assert(text@ =~= string_seq_type(self.safe_drive_path@, strlen as nat, size as nat));
        text
    }

    /// The runtime's string of at most `strlen` characters.
    fn gen_string(&self, strlen: usize) -> (text: String)
        ensures
            text@ == string_type(self.safe_drive_path@, strlen as nat),
    {
        let mut text = String::new();
        text.append(self.safe_drive_path.as_str());
        text.append("::msg::RosString<");
        push_decimal(&mut text, strlen as u64);
        text.append(">");
        assert(text@ =~= string_type(self.safe_drive_path@, strlen as nat));
        text
    }

    /// Records `scope` as a dependency, unless it is one already.
    fn record_lib(&mut self, scope: &String)
        ensures
            final(self)@ == (GeneratorView {
                libs: record(old(self)@.libs, scope@),
                ..old(self)@
            }),
    {
        let mut i: usize = 0;
        while i < self.libs.len()
            invariant
                i <= self.libs.len(),
                *self == *old(self),
                forall|k: int| 0 <= k < i ==> self.libs@[k]@ != scope@,
            decreases self.libs.len() - i,
        {
            if text_eq(self.libs[i].as_str(), scope.as_str()) {
                assert(texts(self.libs@)[i as int] == scope@);
                return ;
            }
            i += 1;
        }
        assert(!texts(self.libs@).contains(scope@));
        self.libs.push(scope.clone());
        assert(texts(self.libs@) =~= texts(old(self).libs@).push(scope@));
    }

    /// Records the warning that the type `name` of the reserved scope gives
    /// rise to in the message `msg_type_name`.
    fn warn(&mut self, msg_type_name: &str, name: &str)
        ensures
            final(self)@ == (GeneratorView {
                warnings: old(self)@.warnings.push(
                    warning_text(old(self).lib_name@, msg_type_name@, name@),
                ),
                ..old(self)@
            }),
    {
        let mut text = String::new();
        text.append("Warning: ");
        text.append(self.lib_name.as_str());
        text.append("::");
        text.append(msg_type_name);
        text.append(" uses builtin_interfaces::");
        text.append(name);
        text.append(" which causes the year-2038 problem.");
        assert(text@ =~= warning_text(self.lib_name@, msg_type_name@, name@));
        self.warnings.push(text);
        assert(texts(self.warnings@) =~= texts(old(self).warnings@).push(
            warning_text(old(self).lib_name@, msg_type_name@, name@),
        ));
    }

    /// The type of a field declared as `ty` in the message `msg_type_name`.
    ///
    /// A dependency on another package and the warning for a replaced time
    /// type are recorded in the generator. A type of the reserved scope that
    /// has no substitute is an error, and leaves the generator as it was.
    pub fn gen_type(&mut self, ty: &TypeName, msg_type_name: &str) -> (r: Result<
        String,
        ResolveError,
    >)
        ensures
            match r {
                Ok(text) => {
                    &&& resolve(
                        old(self).lib_name@,
                        old(self).safe_drive_path@,
                        ty@,
                        msg_type_name@,
                    ) matches Ok(res)
                    &&& text@ == res.text
                    &&& final(self)@ == old(self)@.after(res)
                },
                Err(e) => {
                    &&& resolve(
                        old(self).lib_name@,
                        old(self).safe_drive_path@,
                        ty@,
                        msg_type_name@,
                    ) == Err::<Resolved, Unsupported>(e@)
                    &&& final(self)@ == old(self)@
                },
            },
    {
        match ty {
            TypeName::Type { name, array_info } => {
                let base = match gen_primitives(name.as_str()) {
                    Some(scalar) => String::from_str(scalar),
                    None => name.clone(),
                };
                assert(base@ == bare_base(name@));
                Ok(self.gen_array_type(base, array_info))
            },
            TypeName::String(array_info) => {
                let base = self.gen_string(0);
                Ok(self.gen_string_array_type(base, 0, array_info))
            },
            TypeName::LimitedString { size, array_info } => {
                let base = self.gen_string(*size);
                Ok(self.gen_string_array_type(base, *size, array_info))
            },
            TypeName::ScopedType { scope, name, array_info } => {
                if text_eq(self.lib_name.as_str(), scope.as_str()) {
                    Ok(self.gen_array_type(name.clone(), array_info))
                } else if text_eq(scope.as_str(), "builtin_interfaces") {
                    let substitute = if text_eq(name.as_str(), "Time") {
                        "builtin_interfaces::UnsafeTime"
                    } else if text_eq(name.as_str(), "Duration") {
                        "builtin_interfaces::UnsafeDuration"
                    } else {
                        return Err(ResolveError { scope: scope.clone(), name: name.clone() });
                    };
                    self.warn(msg_type_name, name.as_str());
                    Ok(self.gen_array_type(String::from_str(substitute), array_info))
                } else {
                    self.record_lib(scope);
                    let mut base = scope.clone();
                    base.append("::msg::");
                    base.append(name.as_str());
                    Ok(self.gen_array_type(base, array_info))
                }
            },
        }
    }

    /// The type of a constant declared as `ty` in the message
    /// `msg_type_name`: a borrowed byte view for a string, bounded or not,
    /// and the type of a field for everything else.
    pub fn gen_const_type(&mut self, ty: &TypeName, msg_type_name: &str) -> (r: Result<
        String,
        ResolveError,
    >)
        ensures
            match r {
                Ok(text) => {
                    &&& resolve_const(
                        old(self).lib_name@,
                        old(self).safe_drive_path@,
                        ty@,
                        msg_type_name@,
                    ) matches Ok(res)
                    &&& text@ == res.text
                    &&& final(self)@ == old(self)@.after(res)
                },
                Err(e) => {
                    &&& resolve_const(
                        old(self).lib_name@,
                        old(self).safe_drive_path@,
                        ty@,
                        msg_type_name@,
                    ) == Err::<Resolved, Unsupported>(e@)
                    &&& final(self)@ == old(self)@
                },
            },
    {
        match ty {
            TypeName::String(array_info) => Ok(
                self.gen_array_type(String::from_str("&[u8]"), array_info),
            ),
            TypeName::LimitedString { array_info, .. } => Ok(
                self.gen_array_type(String::from_str("&[u8]"), array_info),
            ),
            _ => self.gen_type(ty, msg_type_name),
        }
    }
}


/// One line of generated code, and where it belongs.
#[derive(Debug, PartialEq, Eq)]
pub enum ExprType {
    /// A constant, which stands before the record.
    Const(String),
    /// A field of the record.
    Variable(String),
}

/// The mathematical model of an [`ExprType`].
pub enum ExprTypeView {
    Const(Seq<char>),
    Variable(Seq<char>),
}

impl View for ExprType {
    type V = ExprTypeView;

    open spec fn view(&self) -> ExprTypeView {
        match self {
            ExprType::Const(line) => ExprTypeView::Const(line@),
            ExprType::Variable(line) => ExprTypeView::Variable(line@),
        }
    }
}

/// What one declaration yields: its line, and the resolution of its type.
pub struct Emitted {
    pub line: ExprTypeView,
    pub resolved: Resolved,
}

/// The line of a declaration of the message `msg_type` in the package
/// `lib`: a constant where the declaration binds a value with `=`, a field
/// otherwise (a default value is not part of the layout and leaves no
/// trace). `None` for a line that declares nothing.
pub open spec fn emit(lib: Seq<char>, path: Seq<char>, expr: ExprView, msg_type: Seq<char>) -> Option<
    Result<Emitted, Unsupported>,
> {
    match expr {
        ExprView::Variable { var_type, var_name, value, comment } => Some(
            match value {
                Some(ValueTypeView::Const(val)) => match resolve_const(
                    lib,
                    path,
                    var_type,
                    msg_type,
                ) {
                    Ok(res) => Ok(
                        Emitted {
                            line: ExprTypeView::Const(
                                const_line(mangled(var_name), res.text, display_text(val), comment),
                            ),
                            resolved: res,
                        },
                    ),
                    Err(e) => Err(e),
                },
                _ => match resolve(lib, path, var_type, msg_type) {
                    Ok(res) => Ok(
                        Emitted {
                            line: ExprTypeView::Variable(
                                field_line(mangled(var_name), res.text, comment),
                            ),
                            resolved: res,
                        },
                    ),
                    Err(e) => Err(e),
                },
            },
        ),
        _ => None,
    }
}

/// The lines of a list of declarations, sorted into constants and fields,
/// and the generator after them.
pub struct Collected {
    pub consts: Seq<Seq<char>>,
    pub fields: Seq<Seq<char>>,
    pub state: GeneratorView,
}

/// The lines of the first `n` declarations of `exprs`, starting from the
/// generator `start`; the first declaration whose type has no
/// representation makes the whole an error.
pub open spec fn collect(
    start: GeneratorView,
    exprs: Seq<ExprView>,
    msg_type: Seq<char>,
    n: int,
) -> Result<Collected, Unsupported>
    decreases n,
{
    if n <= 0 {
        Ok(Collected { consts: Seq::empty(), fields: Seq::empty(), state: start })
    } else {
        match collect(start, exprs, msg_type, n - 1) {
            Err(e) => Err(e),
            Ok(c) => match emit(c.state.lib_name, c.state.safe_drive_path, exprs[n - 1], msg_type) {
                None => Ok(c),
                Some(Err(e)) => Err(e),
                Some(Ok(em)) => Ok(
                    match em.line {
                        ExprTypeView::Const(line) => Collected {
                            consts: c.consts.push(line),
                            fields: c.fields,
                            state: c.state.after(em.resolved),
                        },
                        ExprTypeView::Variable(line) => Collected {
                            consts: c.consts,
                            fields: c.fields.push(line),
                            state: c.state.after(em.resolved),
                        },
                    },
                ),
            },
        }
    }
}

/// The file of the message `msg_type` of the package `module`, and the
/// generator after it: the banner, the imports, the constants, the
/// declarations of the native functions, the record, and its lifecycle,
/// type support and equality.
pub open spec fn msg_file(
    g: GeneratorView,
    module: Seq<char>,
    msg_type: Seq<char>,
    exprs: Seq<ExprView>,
) -> Result<(Seq<Seq<char>>, GeneratorView), Unsupported> {
    match collect(g, exprs, msg_type, exprs.len() as int) {
        Err(e) => Err(e),
        Ok(c) => Ok(
            (
                seq![BANNER@] + msg_imports(g.safe_drive_path, g.disable_common_interfaces)
                    + c.consts + seq![cfun_msg(module, msg_type)] + record_lines(
                    msg_type,
                    c.fields,
                ) + impl_and_seq_msg(module, msg_type),
                c.state,
            ),
        ),
    }
}

/// The file of the service `srv_type` of the package `module`, and the
/// generator after it: the banner, the imports, the constants of both
/// halves, the declarations of the native functions, the record of the
/// request, the record of the response, and their lifecycle, type support
/// and equality.
pub open spec fn srv_file(
    g: GeneratorView,
    module: Seq<char>,
    srv_type: Seq<char>,
    exprs_req: Seq<ExprView>,
    exprs_resp: Seq<ExprView>,
) -> Result<(Seq<Seq<char>>, GeneratorView), Unsupported> {
    match collect(g, exprs_req, srv_type, exprs_req.len() as int) {
        Err(e) => Err(e),
        Ok(req) => match collect(req.state, exprs_resp, srv_type, exprs_resp.len() as int) {
            Err(e) => Err(e),
            Ok(resp) => Ok(
                (
                    seq![BANNER@] + srv_imports(g.safe_drive_path) + req.consts + resp.consts
                        + seq![cfun_srv(module, srv_type)] + record_lines(
                        srv_type + "Request"@,
                        req.fields,
                    ) + record_lines(srv_type + "Response"@, resp.fields) + impl_and_seq_srv(
                        module,
                        srv_type,
                    ),
                    resp.state,
                ),
            ),
        },
    }
}

/// A resolution only adds to the dependencies and to the warnings.
pub proof fn lemma_after_extends(g: GeneratorView, r: Resolved)
    ensures
        g.libs.len() <= g.after(r).libs.len(),
        g.after(r).libs.take(g.libs.len() as int) == g.libs,
        g.warnings.len() <= g.after(r).warnings.len(),
        g.after(r).warnings.take(g.warnings.len() as int) == g.warnings,
        g.after(r).lib_name == g.lib_name,
        g.after(r).safe_drive_path == g.safe_drive_path,
        g.after(r).disable_common_interfaces == g.disable_common_interfaces,
{
    assert(g.after(r).libs.take(g.libs.len() as int) =~= g.libs);
    assert(g.after(r).warnings.take(g.warnings.len() as int) =~= g.warnings);
}

/// Compiling declarations only adds to the dependencies and to the
/// warnings of the generator, and leaves the rest of it as it was.
pub proof fn lemma_collect_extends(
    start: GeneratorView,
    exprs: Seq<ExprView>,
    msg_type: Seq<char>,
    n: int,
)
    ensures
        collect(start, exprs, msg_type, n) matches Ok(c) ==> {
            &&& start.libs.len() <= c.state.libs.len()
            &&& c.state.libs.take(start.libs.len() as int) == start.libs
            &&& start.warnings.len() <= c.state.warnings.len()
            &&& c.state.warnings.take(start.warnings.len() as int) == start.warnings
            &&& c.state.lib_name == start.lib_name
            &&& c.state.safe_drive_path == start.safe_drive_path
            &&& c.state.disable_common_interfaces == start.disable_common_interfaces
        },
    decreases n,
{
    if n <= 0 {
        assert(start.libs.take(start.libs.len() as int) =~= start.libs);
        assert(start.warnings.take(start.warnings.len() as int) =~= start.warnings);
    } else {
        lemma_collect_extends(start, exprs, msg_type, n - 1);
        if let Ok(c) = collect(start, exprs, msg_type, n - 1) {
            if let Some(Ok(em)) = emit(
                c.state.lib_name,
                c.state.safe_drive_path,
                exprs[n - 1],
                msg_type,
            ) {
                lemma_after_extends(c.state, em.resolved);
                let next = c.state.after(em.resolved);
                assert(next.libs.take(start.libs.len() as int) =~= c.state.libs.take(
                    start.libs.len() as int,
                ));
                assert(next.warnings.take(start.warnings.len() as int)
                    =~= c.state.warnings.take(start.warnings.len() as int));
            }
        }
    }
}

/// A declaration whose type has no representation fails every list that
/// holds it.
pub proof fn lemma_collect_error_stays(
    start: GeneratorView,
    exprs: Seq<ExprView>,
    msg_type: Seq<char>,
    k: int,
    n: int,
)
    requires
        k <= n,
        collect(start, exprs, msg_type, k) is Err,
    ensures
        collect(start, exprs, msg_type, n) == collect(start, exprs, msg_type, k),
    decreases n - k,
{
    if k < n {
        lemma_collect_error_stays(start, exprs, msg_type, k, n - 1);
    }
}

impl Generator {
    /// Takes the dependencies and the warnings back to their first `n_libs`
    /// and `n_warnings` entries.
    fn restore(&mut self, n_libs: usize, n_warnings: usize)
        requires
            n_libs <= old(self).libs.len(),
            n_warnings <= old(self).warnings.len(),
        ensures
            final(self)@ == (GeneratorView {
                libs: old(self)@.libs.take(n_libs as int),
                warnings: old(self)@.warnings.take(n_warnings as int),
                ..old(self)@
            }),
    {
        self.libs.truncate(n_libs);
        self.warnings.truncate(n_warnings);
        assert(texts(self.libs@) =~= texts(old(self).libs@).take(n_libs as int));
        assert(texts(self.warnings@) =~= texts(old(self).warnings@).take(n_warnings as int));
    }

    /// The line of one declaration of the message `msg_type_name`; `None`
    /// for a line that declares nothing.
    ///
    /// What the resolution of the type asks for is recorded in the
    /// generator. An error leaves the generator as it was.
    pub fn gen_expr(&mut self, expr: &Expr, msg_type_name: &str) -> (r: Result<
        Option<ExprType>,
        ResolveError,
    >)
        ensures
            match emit(old(self).lib_name@, old(self).safe_drive_path@, expr@, msg_type_name@) {
                None => r matches Ok(None) && final(self)@ == old(self)@,
                Some(Err(u)) => r matches Err(e) && e@ == u && final(self)@ == old(self)@,
                Some(Ok(em)) => {
                    &&& r matches Ok(Some(line))
                    &&& line@ == em.line
                    &&& final(self)@ == old(self)@.after(em.resolved)
                },
            },
    {
        match expr {
            Expr::Variable { var_type, var_name, value, comment } => {
                let name = mangle(var_name.as_str());
                match value {
                    Some(ValueType::Const(val)) => {
                        let ty = match self.gen_const_type(var_type, msg_type_name) {
                            Ok(ty) => ty,
                            Err(e) => {
                                return Err(e);
                            },
                        };
                        let v = gen_value(val);
                        let mut line = String::from_str("pub const ");
                        line.append(name.as_str());
                        line.append(": ");
                        line.append(ty.as_str());
                        line.append(" = ");
                        line.append(v.as_str());
                        line.append(";");
                        match comment {
                            Some(c) => {
                                line.append(" //");
                                line.append(c.as_str());
                            },
                            None => {},
                        }
                        assert(line@ =~= const_line(
                            mangled(var_name@),
                            ty@,
                            display_text(val@),
                            crate::parser::option_text(*comment),
                        ));
                        Ok(Some(ExprType::Const(line)))
                    },
                    _ => {
                        let ty = match self.gen_type(var_type, msg_type_name) {
                            Ok(ty) => ty,
                            Err(e) => {
                                return Err(e);
                            },
                        };
                        let mut line = String::from_str("    pub ");
                        line.append(name.as_str());
                        line.append(": ");
                        line.append(ty.as_str());
                        line.append(",");
                        match comment {
                            Some(c) => {
                                line.append(" //");
                                line.append(c.as_str());
                            },
                            None => {},
                        }
                        assert(line@ =~= field_line(
                            mangled(var_name@),
                            ty@,
                            crate::parser::option_text(*comment),
                        ));
                        Ok(Some(ExprType::Variable(line)))
                    },
                }
            },
            _ => Ok(None),
        }
    }

    /// The lines of the declarations `exprs` of the message
    /// `msg_type_name`, sorted into constants and fields. An error leaves
    /// the generator as it was.
    fn gen_exprs(&mut self, exprs: &[Expr], msg_type_name: &str) -> (r: Result<
        (Vec<String>, Vec<String>),
        ResolveError,
    >)
        ensures
            match r {
                Ok((consts, fields)) => collect(
                    old(self)@,
                    expr_views(exprs@),
                    msg_type_name@,
                    exprs@.len() as int,
                ) == Ok::<Collected, Unsupported>(
                    Collected {
                        consts: texts(consts@),
                        fields: texts(fields@),
                        state: final(self)@,
                    },
                ),
                Err(e) => {
                    &&& collect(
                        old(self)@,
                        expr_views(exprs@),
                        msg_type_name@,
                        exprs@.len() as int,
                    ) == Err::<Collected, Unsupported>(e@)
                    &&& final(self)@ == old(self)@
                },
            },
    {
        let n_libs = self.libs.len();
        let n_warnings = self.warnings.len();
        let mut consts: Vec<String> = Vec::new();
        let mut fields: Vec<String> = Vec::new();
        let ghost views = expr_views(exprs@);
        let ghost msg_type = msg_type_name@;
        let mut i: usize = 0;
        assert(texts(consts@) =~= Seq::empty());
        assert(texts(fields@) =~= Seq::empty());
        while i < exprs.len()
            invariant
                i <= exprs.len(),
                views == expr_views(exprs@),
                msg_type == msg_type_name@,
                n_libs == old(self).libs.len(),
                n_warnings == old(self).warnings.len(),
                collect(old(self)@, views, msg_type, i as int) == Ok::<Collected, Unsupported>(
                    Collected {
                        consts: texts(consts@),
                        fields: texts(fields@),
                        state: self@,
                    },
                ),
            decreases exprs.len() - i,
        {
            let ghost consts_before = texts(consts@);
            let ghost fields_before = texts(fields@);
            proof {
                lemma_collect_extends(old(self)@, views, msg_type, i as int);
            }
            match self.gen_expr(&exprs[i], msg_type_name) {
                Err(e) => {
                    proof {
                        lemma_collect_error_stays(
                            old(self)@,
                            views,
                            msg_type,
                            i as int + 1,
                            exprs@.len() as int,
                        );
                    }
                    self.restore(n_libs, n_warnings);
                    return Err(e);
                },
                Ok(None) => {},
                Ok(Some(ExprType::Const(line))) => {
                    consts.push(line);
                    assert(texts(consts@) =~= consts_before.push(line@));
                },
                Ok(Some(ExprType::Variable(line))) => {
                    fields.push(line);
                    assert(texts(fields@) =~= fields_before.push(line@));
                },
            }
            i += 1;
        }
        Ok((consts, fields))
    }

    /// The file of the message `msg_type_name` of the package
    /// `module_name`, line by line. Lines of `exprs` that declare nothing
    /// are passed over.
    ///
    /// The other packages that the fields refer to, and the warnings for
    /// replaced time types, are recorded in the generator. A type without
    /// representation is an error, and leaves the generator as it was.
    pub fn gen_msg(&mut self, module_name: &str, msg_type_name: &str, exprs: &[Expr]) -> (r: Result<
        VecDeque<String>,
        ResolveError,
    >)
        ensures
            match r {
                Ok(lines) => msg_file(
                    old(self)@,
                    module_name@,
                    msg_type_name@,
                    expr_views(exprs@),
                ) == Ok::<(Seq<Seq<char>>, GeneratorView), Unsupported>(
                    (texts(lines@), final(self)@),
                ),
                Err(e) => {
                    &&& msg_file(old(self)@, module_name@, msg_type_name@, expr_views(exprs@))
                        == Err::<(Seq<Seq<char>>, GeneratorView), Unsupported>(e@)
                    &&& final(self)@ == old(self)@
                },
            },
    {
        let (consts, fields) = match self.gen_exprs(exprs, msg_type_name) {
            Ok(sorted) => sorted,
            Err(e) => {
                return Err(e);
            },
        };
        let mut lines: VecDeque<String> = VecDeque::new();
        assert(texts(lines@) =~= Seq::empty());
        push_line(&mut lines, String::from_str(BANNER));
        push_line(&mut lines, String::from_str("use super::*;"));
        push_line(&mut lines, String::from_str("use super::super::super::*;"));
        proof {
            lemma_collect_extends(
                old(self)@,
                expr_views(exprs@),
                msg_type_name@,
                exprs@.len() as int,
            );
        }
        let path = self.safe_drive_path.as_str();
        push_line(&mut lines, import(path, "::msg::*;"));
        push_line(&mut lines, import(path, "::rcl;"));
        if !self.disable_common_interfaces {
            push_line(&mut lines, import(path, "::msg::common_interfaces::*;"));
        }
        assert(texts(lines@) =~= seq![BANNER@] + msg_imports(
            old(self).safe_drive_path@,
            old(self).disable_common_interfaces,
        ));
        push_lines(&mut lines, &consts);
        gen_cfun_msg(&mut lines, module_name, msg_type_name);
        gen_record(&mut lines, msg_type_name, "", fields);
        gen_impl_and_seq_msg(&mut lines, module_name, msg_type_name);
        proof {
            reveal_strlit("");
            assert(msg_type_name@ + ""@ =~= msg_type_name@);
            assert(texts(lines@) =~= seq![BANNER@] + msg_imports(
                old(self).safe_drive_path@,
                old(self).disable_common_interfaces,
            ) + texts(consts@) + seq![cfun_msg(module_name@, msg_type_name@)] + record_lines(
                msg_type_name@,
                texts(fields@),
            ) + impl_and_seq_msg(module_name@, msg_type_name@));
        }
        Ok(lines)
    }

    /// The file of the service `srv_type_name` of the package
    /// `module_name`, line by line: `exprs_req` declares the request,
    /// `exprs_resp` the response. Lines that declare nothing are passed
    /// over.
    ///
    /// The other packages that the fields refer to, and the warnings for
    /// replaced time types, are recorded in the generator. A type without
    /// representation is an error, and leaves the generator as it was.
    pub fn gen_srv(
        &mut self,
        module_name: &str,
        srv_type_name: &str,
        exprs_req: &[Expr],
        exprs_resp: &[Expr],
    ) -> (r: Result<VecDeque<String>, ResolveError>)
        ensures
            match r {
                Ok(lines) => srv_file(
                    old(self)@,
                    module_name@,
                    srv_type_name@,
                    expr_views(exprs_req@),
                    expr_views(exprs_resp@),
                ) == Ok::<(Seq<Seq<char>>, GeneratorView), Unsupported>(
                    (texts(lines@), final(self)@),
                ),
                Err(e) => {
                    &&& srv_file(
                        old(self)@,
                        module_name@,
                        srv_type_name@,
                        expr_views(exprs_req@),
                        expr_views(exprs_resp@),
                    ) == Err::<(Seq<Seq<char>>, GeneratorView), Unsupported>(e@)
                    &&& final(self)@ == old(self)@
                },
            },
    {
        let n_libs = self.libs.len();
        let n_warnings = self.warnings.len();
        let (consts_req, var_req) = match self.gen_exprs(exprs_req, srv_type_name) {
            Ok(sorted) => sorted,
            Err(e) => {
                return Err(e);
            },
        };
        proof {
            lemma_collect_extends(
                old(self)@,
                expr_views(exprs_req@),
                srv_type_name@,
                exprs_req@.len() as int,
            );
        }
        let ghost after_req = self@;
        let (consts_resp, var_resp) = match self.gen_exprs(exprs_resp, srv_type_name) {
            Ok(sorted) => sorted,
            Err(e) => {
                self.restore(n_libs, n_warnings);
                return Err(e);
            },
        };
        proof {
            lemma_collect_extends(
                after_req,
                expr_views(exprs_resp@),
                srv_type_name@,
                exprs_resp@.len() as int,
            );
        }
        let mut lines: VecDeque<String> = VecDeque::new();
        assert(texts(lines@) =~= Seq::empty());
        push_line(&mut lines, String::from_str(BANNER));
        push_line(&mut lines, String::from_str("use super::super::*;"));
        push_line(&mut lines, String::from_str("use super::super::super::*;"));
        let path = self.safe_drive_path.as_str();
        push_line(&mut lines, import(path, "::msg::*;"));
        push_line(&mut lines, import(path, "::rcl;"));
        push_line(&mut lines, import(path, "::msg::common_interfaces::*;"));
        assert(texts(lines@) =~= seq![BANNER@] + srv_imports(old(self).safe_drive_path@));
        push_lines(&mut lines, &consts_req);
        push_lines(&mut lines, &consts_resp);
        gen_cfun_srv(&mut lines, module_name, srv_type_name);
        gen_record(&mut lines, srv_type_name, "Request", var_req);
        gen_record(&mut lines, srv_type_name, "Response", var_resp);
        gen_impl_and_seq_srv(&mut lines, module_name, srv_type_name);
        assert(texts(lines@) =~= seq![BANNER@] + srv_imports(old(self).safe_drive_path@)
            + texts(consts_req@) + texts(consts_resp@) + seq![
            cfun_srv(module_name@, srv_type_name@),
        ] + record_lines(srv_type_name@ + "Request"@, texts(var_req@)) + record_lines(
            srv_type_name@ + "Response"@,
            texts(var_resp@),
        ) + impl_and_seq_srv(module_name@, srv_type_name@));
        Ok(lines)
    }
}

/// The import of `what` from the runtime crate at `path`.
fn import(path: &str, what: &str) -> (line: String)
    ensures
        line@ == "use "@ + path@ + what@,
{
    let mut line = String::from_str("use ");
    line.append(path);
    line.append(what);
    line
}

/// The value as the generated code holds it.
pub fn gen_value(value: &Value) -> (text: String)
    ensures
        text@ == display_text(value@),
{
    value.to_string()
}

} // verus!

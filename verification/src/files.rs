//! The names and the index files of the generated modules.

use vstd::prelude::*;
use crate::mangle;
use crate::mangled;
use crate::text::{push_range, text_eq, texts, to_chars};

verus! {

/// The name in snake case, as `convert_case` forms it: the words of the
/// name in lower case, with an underscore between them.
pub uninterp spec fn snake_case(name: Seq<char>) -> Seq<char>;

/// `Casing::to_case` of `convert_case`, with `Case::Snake`: the result
/// depends on the characters of the name alone.
#[verifier::external_body]
fn to_snake_case(name: &str) -> (snake: String)
    ensures
        snake@ == snake_case(name@),
{
    convert_case::Casing::to_case(&name, convert_case::Case::Snake)
}

/// The module that holds the code generated for the interface
/// `interface`: its name in snake case, made fit to be an identifier.
pub fn module_name_of(interface: &str) -> (module: String)
    ensures
        module@ == mangled(snake_case(interface@)),
{
    let snake = to_snake_case(interface);
    mangle(snake.as_str())
}

/// The file that holds the code generated for the interface `interface`.
pub fn module_file_of(interface: &str) -> (file: String)
    ensures
        file@ == mangled(snake_case(interface@)) + ".rs"@,
{
    let mut file = module_name_of(interface);
    file.append(".rs");
    file
}

/// The position of the first `.` in `s` at or behind `i`; the length of
/// `s` where there is none.
pub open spec fn first_dot(s: Seq<char>, i: int) -> int
    decreases s.len() - i,
{
    if 0 <= i < s.len() && s[i] != '.' {
        first_dot(s, i + 1)
    } else {
        i
    }
}

/// The name of the interface that the file `file_name` declares: the file
/// name up to its first `.`.
pub fn interface_name_of(file_name: &str) -> (name: String)
    ensures
        name@ == file_name@.take(first_dot(file_name@, 0)),
{
    let chars = to_chars(file_name);
    let mut end: usize = 0;
    while end < chars.len() && chars[end] != '.'
        invariant
            end <= chars.len(),
            first_dot(chars@, 0) == first_dot(chars@, end as int),
        decreases chars.len() - end,
    {
        end += 1;
    }
    let mut name = String::new();
    push_range(&mut name, &chars, 0, end);
    assert(name@ =~= chars@.take(end as int));
    name
}

/// The lines that declare the first `n` of the modules.
pub open spec fn declared(modules: Seq<Seq<char>>, n: int) -> Seq<char>
    decreases n,
{
    if n <= 0 {
        Seq::empty()
    } else {
        declared(modules, n - 1) + "mod "@ + modules[n - 1] + ";\n"@
    }
}

/// The lines that export the first `n` of the modules.
pub open spec fn exported(modules: Seq<Seq<char>>, n: int) -> Seq<char>
    decreases n,
{
    if n <= 0 {
        Seq::empty()
    } else {
        exported(modules, n - 1) + "pub use "@ + modules[n - 1] + "::*;\n"@
    }
}

/// The index of the modules of one kind of one package: each module is
/// declared, and after an empty line each is exported.
pub open spec fn module_index(modules: Seq<Seq<char>>) -> Seq<char> {
    declared(modules, modules.len() as int) + "\n"@ + exported(modules, modules.len() as int)
}

/// The text of the index file of the modules `modules`.
pub fn gen_module_index(modules: &Vec<String>) -> (text: String)
    ensures
        text@ == module_index(texts(modules@)),
{
    let ghost all = texts(modules@);
    let mut text = String::new();
    let mut i: usize = 0;
    while i < modules.len()
        invariant
            i <= modules.len(),
            all == texts(modules@),
            text@ == declared(all, i as int),
        decreases modules.len() - i,
    {
        let ghost before = text@;
        text.append("mod ");
        text.append(modules[i].as_str());
        text.append(";\n");
        i += 1;
        assert(text@ =~= before + "mod "@ + all[i - 1] + ";\n"@);
    }
    text.append("\n");
    let ghost head = text@;
    let mut i: usize = 0;
    assert(text@ =~= head + exported(all, 0));
    while i < modules.len()
        invariant
            i <= modules.len(),
            all == texts(modules@),
            text@ == head + exported(all, i as int),
        decreases modules.len() - i,
    {
        let ghost before = text@;
        text.append("pub use ");
        text.append(modules[i].as_str());
        text.append("::*;\n");
        i += 1;
        assert(text@ =~= head + (exported(all, i - 1) + "pub use "@ + all[i - 1] + "::*;\n"@));
    }
    text
}

/// The lines of the index of a package for one of its kinds of
/// interfaces: the kind is declared, and the messages are exported too.
pub open spec fn kind_lines(kind: Seq<char>) -> Seq<char> {
    let line = "pub mod "@ + kind + ";\n"@;
    if kind == "msg"@ {
        line + "pub use msg::*;\n"@
    } else {
        line
    }
}

/// The index of a package for the first `n` of its kinds of interfaces.
pub open spec fn package_index(kinds: Seq<Seq<char>>, n: int) -> Seq<char>
    decreases n,
{
    if n <= 0 {
        Seq::empty()
    } else {
        package_index(kinds, n - 1) + kind_lines(kinds[n - 1])
    }
}

/// The text of the index file of a package that holds the kinds `kinds`
/// of interfaces (`msg`, `srv`).
pub fn gen_package_index(kinds: &Vec<String>) -> (text: String)
    ensures
        text@ == package_index(texts(kinds@), kinds@.len() as int),
{
    let ghost all = texts(kinds@);
    let mut text = String::new();
    let mut i: usize = 0;
    while i < kinds.len()
        invariant
            i <= kinds.len(),
            all == texts(kinds@),
            text@ == package_index(all, i as int),
        decreases kinds.len() - i,
    {
        let ghost before = text@;
        text.append("pub mod ");
        text.append(kinds[i].as_str());
        text.append(";\n");
        if text_eq(kinds[i].as_str(), "msg") {
            text.append("pub use msg::*;\n");
        }
        i += 1;
        assert(text@ =~= before + kind_lines(all[i - 1]));
    }
    text
}

/// The line of the index of all packages that declares the package
/// `package`.
pub fn gen_package_line(package: &str) -> (line: String)
    ensures
        line@ == "pub mod "@ + package@ + ";\n"@,
{
    let mut line = String::from_str("pub mod ");
    line.append(package);
    line.append(";\n");
    line
}

} // verus!

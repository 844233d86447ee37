//! From the text of an interface file to the lines of its Rust file.

use std::collections::VecDeque;
use vstd::prelude::*;
use crate::generator::laws::{law_same_message_same_lines, law_same_service_same_lines};
use crate::generator::resolve::Unsupported;
use crate::generator::{msg_file, srv_file, Generator, GeneratorView, ResolveError};
use crate::parser::grammar::{message, service, Miss};
use crate::parser::{parse_msg, parse_srv, ParseError};
use crate::text::{texts, utf8_len};

verus! {

/// Why a file was not compiled.
#[derive(Debug, PartialEq, Eq)]
pub enum CompileError {
    /// The text does not meet the grammar.
    Syntax(ParseError),
    /// A declared type has no representation.
    Type(ResolveError),
}

/// The mathematical model of a [`CompileError`].
pub enum CompileFailure {
    Syntax(Miss),
    Type(Unsupported),
}

impl CompileError {
    /// Whether the error stands for the failure `f` of compiling `text`: a
    /// syntax error carries the byte offset of the place where the grammar
    /// is not met.
    pub open spec fn stands_for(self, f: CompileFailure, text: Seq<char>) -> bool {
        match (self, f) {
            (CompileError::Syntax(e), CompileFailure::Syntax(m)) => {
                &&& e.expected == m.expected
                &&& 0 <= m.at <= text.len()
                &&& e.offset == utf8_len(text.take(m.at))
            },
            (CompileError::Type(e), CompileFailure::Type(u)) => e@ == u,
            _ => false,
        }
    }

    /// The error in words.
    pub open spec fn in_words(self) -> Seq<char> {
        match self {
            CompileError::Syntax(e) => e.in_words(),
            CompileError::Type(e) => e.in_words(),
        }
    }

    /// The error in words.
    pub fn message(&self) -> (text: String)
        ensures
            text@ == self.in_words(),
    {
        match self {
            CompileError::Syntax(e) => e.message(),
            CompileError::Type(e) => e.message(),
        }
    }
}

/// The file of the message `msg_type` that the text `contents` declares,
/// and the generator after it.
pub open spec fn compiled_msg(
    g: GeneratorView,
    contents: Seq<char>,
    module: Seq<char>,
    msg_type: Seq<char>,
) -> Result<(Seq<Seq<char>>, GeneratorView), CompileFailure> {
    match message(contents) {
        Err(m) => Err(CompileFailure::Syntax(m)),
        Ok(exprs) => match msg_file(g, module, msg_type, exprs) {
            Err(u) => Err(CompileFailure::Type(u)),
            Ok(file) => Ok(file),
        },
    }
}

/// The file of the service `srv_type` that the text `contents` declares,
/// and the generator after it.
pub open spec fn compiled_srv(
    g: GeneratorView,
    contents: Seq<char>,
    module: Seq<char>,
    srv_type: Seq<char>,
) -> Result<(Seq<Seq<char>>, GeneratorView), CompileFailure> {
    match service(contents) {
        Err(m) => Err(CompileFailure::Syntax(m)),
        Ok((request, response)) => match srv_file(g, module, srv_type, request, response) {
            Err(u) => Err(CompileFailure::Type(u)),
            Ok(file) => Ok(file),
        },
    }
}

/// Compiles the message `msg_type_name` of the package `module_name` from
/// the text `contents` of its file.
///
/// A text that does not meet the grammar, and a declared type without
/// representation, are errors: the file yields no line then, and the
/// generator stays as it was.
pub fn generate_msg(
    generator: &mut Generator,
    contents: &str,
    module_name: &str,
    msg_type_name: &str,
) -> (r: Result<VecDeque<String>, CompileError>)
    ensures
        match compiled_msg(old(generator)@, contents@, module_name@, msg_type_name@) {
            Ok((lines, after)) => {
                &&& r matches Ok(out)
                &&& texts(out@) == lines
                &&& final(generator)@ == after
            },
            Err(f) => {
                &&& r matches Err(e)
                &&& e.stands_for(f, contents@)
                &&& final(generator)@ == old(generator)@
            },
        },
{
    match parse_msg(contents) {
        Err(e) => Err(CompileError::Syntax(e)),
        Ok(exprs) => match generator.gen_msg(module_name, msg_type_name, exprs.as_slice()) {
            Ok(lines) => Ok(lines),
            Err(e) => Err(CompileError::Type(e)),
        },
    }
}

/// Compiles the service `srv_type_name` of the package `module_name` from
/// the text `contents` of its file.
///
/// A text that does not meet the grammar, and a declared type without
/// representation, are errors: the file yields no line then, and the
/// generator stays as it was.
pub fn generate_srv(
    generator: &mut Generator,
    contents: &str,
    module_name: &str,
    srv_type_name: &str,
) -> (r: Result<VecDeque<String>, CompileError>)
    ensures
        match compiled_srv(old(generator)@, contents@, module_name@, srv_type_name@) {
            Ok((lines, after)) => {
                &&& r matches Ok(out)
                &&& texts(out@) == lines
                &&& final(generator)@ == after
            },
            Err(f) => {
                &&& r matches Err(e)
                &&& e.stands_for(f, contents@)
                &&& final(generator)@ == old(generator)@
            },
        },
{
    match parse_srv(contents) {
        Err(e) => Err(CompileError::Syntax(e)),
        Ok((request, response)) => match generator.gen_srv(
            module_name,
            srv_type_name,
            request.as_slice(),
            response.as_slice(),
        ) {
            Ok(lines) => Ok(lines),
            Err(e) => Err(CompileError::Type(e)),
        },
    }
}

/// Compiling the same file twice gives the same lines: what a file
/// compiles to depends on its text, on its names and on the settings of the
/// generator, not on what the generator has compiled before.
pub proof fn law_compiling_twice_gives_the_same_lines(
    g: GeneratorView,
    contents: Seq<char>,
    module: Seq<char>,
    type_of_file: Seq<char>,
)
    ensures
        compiled_msg(g, contents, module, type_of_file) matches Ok(first) ==> {
            &&& compiled_msg(first.1, contents, module, type_of_file) matches Ok(second)
            &&& second.0 == first.0
        },
        compiled_srv(g, contents, module, type_of_file) matches Ok(first) ==> {
            &&& compiled_srv(first.1, contents, module, type_of_file) matches Ok(second)
            &&& second.0 == first.0
        },
{
    if let Ok(exprs) = message(contents) {
        law_same_message_same_lines(g, module, type_of_file, exprs);
    }
    if let Ok((request, response)) = service(contents) {
        law_same_service_same_lines(g, module, type_of_file, request, response);
    }
}

} // verus!

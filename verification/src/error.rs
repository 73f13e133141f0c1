//! The ways a compilation can fail.

use vstd::prelude::*;
use vstd::string::StringExecFns;

verus! {

/// `std::io::Error`, opaque: the library only carries it.
#[verifier::external_type_specification]
#[verifier::external_body]
pub struct ExIoError(std::io::Error);

/// A failed compilation.
#[derive(Debug)]
pub enum CompErr {
    /// A command-line argument is missing; the payload names it.
    Cli(String),
    /// Reading the input or writing the output failed.
    Io(std::io::Error),
    /// The compilation unit has no function named `main`.
    NoEntryPoint,
    /// The parser rejected the source text; the payload is its report.
    ParseError(String),
    /// A construct outside the supported subset; the payload names it.
    Unimplemented(String),
}

/// What a `CompErr` says, with its text as a sequence of characters.
pub enum CompErrView {
    Cli(Seq<char>),
    Io(std::io::Error),
    NoEntryPoint,
    ParseError(Seq<char>),
    Unimplemented(Seq<char>),
}

impl View for CompErr {
    type V = CompErrView;

    open spec fn view(&self) -> CompErrView {
        match self {
            CompErr::Cli(s) => CompErrView::Cli(s@),
            CompErr::Io(e) => CompErrView::Io(*e),
            CompErr::NoEntryPoint => CompErrView::NoEntryPoint,
            CompErr::ParseError(s) => CompErrView::ParseError(s@),
            CompErr::Unimplemented(s) => CompErrView::Unimplemented(s@),
        }
    }
}

/// The message of a failure: what went wrong, and the argument, report or
/// construct it is about.
pub open spec fn message_of(e: CompErrView) -> Seq<char> {
    match e {
        CompErrView::Cli(what) => "missing argument: "@ + what,
        CompErrView::Io(_) => "input or output failed"@,
        CompErrView::NoEntryPoint => "no function named main"@,
        CompErrView::ParseError(report) => "parse error: "@ + report,
        CompErrView::Unimplemented(what) => "unimplemented: "@ + what,
    }
}

impl CompErr {
    /// The message to show for this failure. For an unsupported construct it
    /// names the construct.
    pub fn message(&self) -> (s: String)
        ensures
            s@ == message_of(self@),
    {
        match self {
            CompErr::Cli(what) => String::from_str("missing argument: ").concat(what.as_str()),
            CompErr::Io(_) => String::from_str("input or output failed"),
            CompErr::NoEntryPoint => String::from_str("no function named main"),
            CompErr::ParseError(report) => String::from_str("parse error: ").concat(
                report.as_str(),
            ),
            CompErr::Unimplemented(what) => String::from_str("unimplemented: ").concat(
                what.as_str(),
            ),
        }
    }
}

} // verus!

//! The command line: a mode, an input path and an output path.

use crate::error::{CompErr, CompErrView};
use vstd::prelude::*;
use vstd::string::StringExecFns;

verus! {

/// The arguments of one invocation.
#[derive(Debug, Default)]
pub struct CliArgs {
    pub mode: String,
    pub input: String,
    pub output: String,
}

/// What the arguments say, or which of them is missing.
///
/// The list starts with the program's own name. The mode follows, then the
/// input path, then one argument that is passed over, then the output path.
pub open spec fn parsed(args: Seq<String>) -> Result<(Seq<char>, Seq<char>, Seq<char>), CompErrView> {
    if args.len() < 2 {
        Err(CompErrView::Cli("mode"@))
    } else if args.len() < 3 {
        Err(CompErrView::Cli("input"@))
    } else if args.len() < 5 {
        Err(CompErrView::Cli("output"@))
    } else {
        Ok((args[1]@, args[2]@, args[4]@))
    }
}

/// Reads the mode, the input path and the output path from the argument
/// list, or names the first that is missing.
pub fn parse_args(args: &Vec<String>) -> (r: Result<CliArgs, CompErr>)
    ensures
        match parsed(args@) {
            Ok((mode, input, output)) => r is Ok && r->Ok_0.mode@ == mode && r->Ok_0.input@
                == input && r->Ok_0.output@ == output,
            Err(e) => r is Err && r->Err_0@ == e,
        },
{
    if args.len() < 2 {
        return Err(CompErr::Cli(String::from_str("mode")));
    }
    if args.len() < 3 {
        return Err(CompErr::Cli(String::from_str("input")));
    }
    if args.len() < 5 {
        return Err(CompErr::Cli(String::from_str("output")));
    }
    Ok(CliArgs { mode: args[1].clone(), input: args[2].clone(), output: args[4].clone() })
}

} // verus!

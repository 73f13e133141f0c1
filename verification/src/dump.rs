//! The text forms of the intermediate representation itself.

use crate::error::{CompErr, CompErrView};
use crate::ir::{koopa_ir_text, koopa_text, llvm_ir_text, llvm_printable, llvm_text, printable};
use koopa::ir::Program;
use vstd::prelude::*;

verus! {

/// What a dump returns for each outcome of the generator: its text as it is,
/// or its write error as `Io`.
pub fn dump_outcome(written: Result<Vec<u8>, std::io::Error>) -> (r: Result<Vec<u8>, CompErr>)
    ensures
        written is Ok ==> r is Ok && r->Ok_0 == written->Ok_0,
        written is Err ==> r is Err && r->Err_0@ == CompErrView::Io(written->Err_0),
{
    match written {
        Ok(text) => Ok(text),
        Err(e) => Err(CompErr::Io(e)),
    }
}

/// The programs that `mem_to_ir` can write in the chosen form.
pub open spec fn dumpable(program: Program, llvm: bool) -> bool {
    if llvm {
        llvm_printable(program)
    } else {
        printable(program)
    }
}

/// The text that `koopa`'s generator of the chosen form writes for a program.
pub open spec fn dumped(program: Program, llvm: bool) -> Seq<u8> {
    if llvm {
        llvm_text(program)
    } else {
        koopa_text(program)
    }
}

/// Writes the program in Koopa's text form, or, with `llvm`, as LLVM IR.
///
/// The text goes into memory, where no write fails, so the dump succeeds and
/// is the text `koopa`'s generator gives for this program.
pub fn mem_to_ir(program: &Program, llvm: bool) -> (r: Result<Vec<u8>, CompErr>)
    requires
        dumpable(*program, llvm),
    ensures
        r is Ok,
        r->Ok_0@ == dumped(*program, llvm),
{
    if llvm {
        dump_outcome(llvm_ir_text(program))
    } else {
        dump_outcome(koopa_ir_text(program))
    }
}

} // verus!

//! Lowering: from the syntax tree to a Koopa IR program.

use crate::ast::CompUnit;
use crate::error::{CompErr, CompErrView};
use crate::ir::{
    function_model, new_basic_block, new_function, new_integer, new_return, program_funcs,
    program_globals, program_layout, program_linked, push_block, push_inst, FunctionModel,
    InstKindView,
};
use koopa::ir::{BasicBlock, Function, Program, Value};
use vstd::prelude::*;
use vstd::string::StringExecFns;

verus! {

/// Whether the compilation unit defines the entry point: a function named
/// `main`.
pub open spec fn has_entry_point(ast: CompUnit) -> bool {
    ast.func_def.ident@ == "main"@
}

/// The one function of a lowered program: `@main`, returning `i32`, without
/// parameters, with the single block `%entry`, whose single instruction
/// `ret` returns the integer constant `operand` of value `n`.
pub open spec fn constant_return_function(
    bb: BasicBlock,
    operand: Value,
    ret: Value,
    n: i32,
) -> FunctionModel {
    FunctionModel {
        name: "@main"@,
        params: Seq::empty(),
        returns_i32: true,
        blocks: seq![bb],
        insts: Map::empty().insert(bb, seq![ret]),
        block_names: Map::empty().insert(bb, Some("%entry"@)),
        values: Map::empty().insert(operand, InstKindView::Integer(n)).insert(
            ret,
            InstKindView::Return(Some(operand)),
        ),
        typed_values: Set::empty().insert(operand),
        intact: true,
    }
}

/// `p` holds nothing but the function `f`, which returns the constant `n`.
pub open spec fn constant_return_program(
    p: Program,
    f: Function,
    bb: BasicBlock,
    operand: Value,
    ret: Value,
    n: i32,
) -> bool {
    &&& program_layout(p) == seq![f]
    &&& program_funcs(p).dom() == Set::<Function>::empty().insert(f)
    &&& program_globals(p).len() == 0
    &&& program_linked(p) == Set::<Function>::empty().insert(f)
    &&& operand != ret
    &&& function_model(program_funcs(p)[f]) == constant_return_function(bb, operand, ret, n)
}

/// `p` is what lowering makes of `ast`: one function that returns the
/// literal of the `return` statement, whatever handles `koopa` gave out.
pub open spec fn lowered(ast: CompUnit, p: Program) -> bool {
    exists|f: Function, bb: BasicBlock, operand: Value, ret: Value|
        constant_return_program(p, f, bb, operand, ret, ast.func_def.block.stmt.num)
}

/// Every function of a lowered program has a basic block, the first of them
/// named `%entry`, and every block holds exactly one instruction, a return:
/// its single terminator.
pub proof fn lemma_lowered_blocks_terminate(ast: CompUnit, p: Program)
    requires
        lowered(ast, p),
    ensures
        forall|i: int|
            0 <= i < program_layout(p).len() ==> {
                let m = function_model(program_funcs(p)[#[trigger] program_layout(p)[i]]);
                &&& m.blocks.len() >= 1
                &&& m.block_names[m.blocks[0]] == Some("%entry"@)
                &&& forall|j: int|
                    0 <= j < m.blocks.len() ==> {
                        &&& (#[trigger] m.insts[m.blocks[j]]).len() == 1
                        &&& m.values[m.insts[m.blocks[j]][0]] is Return
                    }
            },
{
    let n = ast.func_def.block.stmt.num;
    let (f, bb, operand, ret) = choose|f: Function, bb: BasicBlock, operand: Value, ret: Value|
        constant_return_program(p, f, bb, operand, ret, n);
    let m = function_model(program_funcs(p)[f]);
    assert(m.blocks[0] == bb);
    assert(m.insts[bb] == seq![ret]);
    assert forall|i: int| 0 <= i < program_layout(p).len() implies {
        let m = function_model(program_funcs(p)[#[trigger] program_layout(p)[i]]);
        &&& m.blocks.len() >= 1
        &&& m.block_names[m.blocks[0]] == Some("%entry"@)
        &&& forall|j: int|
            0 <= j < m.blocks.len() ==> {
                &&& (#[trigger] m.insts[m.blocks[j]]).len() == 1
                &&& m.values[m.insts[m.blocks[j]][0]] is Return
            }
    } by {
        assert(program_layout(p)[i] == f);
    }
}

/// Lowers a compilation unit to a program.
///
/// Fails with `NoEntryPoint`, before anything is built, exactly when the
/// function is not named `main`. Otherwise the program holds the function
/// `@main` with the declared return type, no parameters, and the entry block
/// `%entry`, in which a `ret` instruction returns the statement's literal.
pub fn ast_to_mem(ast: &CompUnit) -> (r: Result<Program, CompErr>)
    ensures
        has_entry_point(*ast) ==> r is Ok && lowered(*ast, r->Ok_0),
        !has_entry_point(*ast) ==> r is Err && r->Err_0@ == CompErrView::NoEntryPoint,
{
    let entry_point = String::from_str("main");
    if ast.func_def.ident != entry_point {
        return Err(CompErr::NoEntryPoint);
    }
    proof {
        reveal_strlit("@main");
        reveal_strlit("%entry");
    }
    let mut program = Program::new();
    let main = new_function(&mut program, String::from_str("@main"), ast.func_def.func_type);
    let entry = new_basic_block(&mut program, main, String::from_str("%entry"));
    let pushed = push_block(&mut program, main, entry);
    assert(pushed is Ok);
    let retval = new_integer(&mut program, main, ast.func_def.block.stmt.num);
    let ret = new_return(&mut program, main, Some(retval));
    let pushed = push_inst(&mut program, main, entry, ret);
    assert(pushed is Ok);
    proof {
        let n = ast.func_def.block.stmt.num;
        let m = function_model(program_funcs(program)[main]);
        let want = constant_return_function(entry, retval, ret, n);
        assert(m.blocks =~= want.blocks);
        assert(m.insts =~= want.insts);
        assert(m.block_names =~= want.block_names);
        assert(m.values =~= want.values);
        assert(m.typed_values =~= want.typed_values);
        assert(m.params =~= want.params);
        assert(program_layout(program) =~= seq![main]);
        assert(program_funcs(program).dom() =~= Set::<Function>::empty().insert(main));
        assert(program_linked(program) =~= Set::<Function>::empty().insert(main));
        assert(constant_return_program(program, main, entry, retval, ret, n));
    }
    Ok(program)
}

} // verus!

//! The whole way from a syntax tree to output text.

use crate::ast::CompUnit;
use crate::backend::{
    blocks_emission, chain, function_emission, function_renderable, functions_emission,
    inst_emission, insts_emission, label, lemma_rendered_by_kind, nothing, program_emission,
    program_renderable, renderable, rendered, resolves, written, GenerateAsm,
};
use crate::decimal::decimal;
use crate::dump::{dumped, mem_to_ir};
use crate::error::{CompErr, CompErrView};
use crate::ir::{
    function_model, llvm_printable, llvm_printable_function, llvm_printable_inst, printable,
    printable_function, printable_inst, program_funcs, program_layout, short_name, InstKindView,
};
use crate::lower::{
    ast_to_mem, constant_return_function, constant_return_program, has_entry_point, lowered,
};
use koopa::ir::{BasicBlock, Function, Program, Value};
use vstd::prelude::*;

verus! {

/// The assembly of a program whose `main` returns the constant `n`.
pub open spec fn constant_return_asm(n: i32) -> Seq<char> {
    "  .text\n  .globl main\nmain:\n  li a0, "@ + decimal(n as int) + "\n  ret\n"@
}

/// What compiling a unit to assembly gives: the text, or `NoEntryPoint`.
pub open spec fn compiled_asm(ast: CompUnit) -> Result<Seq<char>, CompErrView> {
    if has_entry_point(ast) {
        Ok(constant_return_asm(ast.func_def.block.stmt.num))
    } else {
        Err(CompErrView::NoEntryPoint)
    }
}

/// `r` is what compiling `ast` to assembly gives.
pub open spec fn compiles_to(ast: CompUnit, r: Result<String, CompErr>) -> bool {
    match compiled_asm(ast) {
        Ok(text) => r is Ok && r->Ok_0@ == text,
        Err(e) => r is Err && r->Err_0@ == e,
    }
}

/// Compiling is repeatable: two runs on the same unit give the same text, or
/// fail alike.
pub proof fn lemma_compile_repeatable(
    ast: CompUnit,
    first: Result<String, CompErr>,
    second: Result<String, CompErr>,
)
    requires
        compiles_to(ast, first),
        compiles_to(ast, second),
    ensures
        first is Ok <==> second is Ok,
        first is Ok ==> first->Ok_0@ == second->Ok_0@,
        first is Err ==> first->Err_0@ == second->Err_0@,
{
}

/// The label of `@main` is `main`.
pub proof fn lemma_main_label()
    ensures
        label("@main"@) == "main"@,
{
    reveal_strlit("@main");
    reveal_strlit("main");
    let name = "@main"@;
    assert(name.drop_first() =~= "main"@);
    assert(label(name) == label(name.drop_first()));
    assert(label("main"@) == "main"@);
}

/// A program that holds one constant-returning `main` can be emitted and
/// printed, and its assembly is the header, the label `main`, the load of the
/// constant into `a0`, and `ret`.
pub proof fn lemma_constant_return_program(
    p: Program,
    f: Function,
    bb: BasicBlock,
    operand: Value,
    ret: Value,
    n: i32,
)
    requires
        constant_return_program(p, f, bb, operand, ret, n),
    ensures
        program_renderable(p),
        printable(p),
        llvm_printable(p),
        program_emission(p) == written(constant_return_asm(n)),
{
    let m = function_model(program_funcs(p)[f]);
    assert(m == constant_return_function(bb, operand, ret, n));
    let values = m.values;
    assert(values[operand] == InstKindView::Integer(n));
    assert(values[ret] == InstKindView::Return(Some(operand)));
    assert(m.insts[bb] == seq![ret]);
    assert(resolves(values, operand, 0));
    assert(resolves(values, ret, 1));
    lemma_rendered_by_kind(values, operand);
    lemma_rendered_by_kind(values, ret);
    let line = "  li a0, "@ + decimal(n as int) + "\n  ret"@;
    assert(rendered(values, ret) == Ok::<Seq<char>, Seq<char>>(line));
    assert(function_renderable(m)) by {
        assert forall|j: int, k: int|
            0 <= j < m.blocks.len() && 0 <= k < m.insts[m.blocks[j]].len() implies renderable(
            m.values,
            #[trigger] m.insts[#[trigger] m.blocks[j]][k],
        ) by {
            assert(m.blocks[j] == bb);
            assert(m.insts[bb][k] == ret);
        }
    }
    assert(printable_inst(m, ret));
    assert(printable_function(m)) by {
        assert forall|j: int| 0 <= j < m.blocks.len() implies {
            &&& m.block_names.dom().contains(#[trigger] m.blocks[j])
            &&& m.insts.dom().contains(m.blocks[j])
            &&& forall|k: int|
                0 <= k < m.insts[m.blocks[j]].len() ==> printable_inst(
                    m,
                    #[trigger] m.insts[m.blocks[j]][k],
                )
        } by {
            assert(m.blocks[j] == bb);
        }
    }
    assert(llvm_printable_inst(m, ret));
    assert(llvm_printable_function(m)) by {
        reveal_strlit("@main");
        reveal_strlit("%entry");
        assert(short_name(m.name));
        assert forall|j: int| 0 <= j < m.blocks.len() implies {
            &&& m.block_names[#[trigger] m.blocks[j]] matches Some(name) ==> short_name(name)
            &&& forall|k: int|
                0 <= k < m.insts[m.blocks[j]].len() ==> llvm_printable_inst(
                    m,
                    #[trigger] m.insts[m.blocks[j]][k],
                )
        } by {
            assert(m.blocks[j] == bb);
        }
    }
    // the instructions of the block
    let insts = seq![ret];
    assert(insts.drop_last() =~= Seq::<Value>::empty());
    assert(insts_emission(values, insts.drop_last()) == nothing());
    assert(inst_emission(values, ret) == written(line + "\n"@));
    assert(insts_emission(values, insts) == chain(nothing(), written(line + "\n"@)));
    let body = Seq::<char>::empty() + (line + "\n"@);
    assert(insts_emission(values, insts) == written(body));
    // the blocks of the function
    let blocks = seq![bb];
    assert(blocks.drop_last() =~= Seq::<BasicBlock>::empty());
    assert(blocks_emission(m, blocks.drop_last()) == nothing());
    assert(blocks_emission(m, blocks) == chain(nothing(), written(body)));
    let block_text = Seq::<char>::empty() + body;
    assert(blocks_emission(m, m.blocks) == written(block_text));
    // the function
    lemma_main_label();
    let function_text = ("main"@ + ":\n"@) + block_text;
    assert(function_emission(m) == written(function_text));
    // the program
    let funcs = seq![f];
    assert(program_layout(p) == funcs);
    assert(funcs.drop_last() =~= Seq::<Function>::empty());
    assert(functions_emission(p, funcs.drop_last()) == nothing());
    assert(functions_emission(p, funcs) == chain(nothing(), written(function_text)));
    let program_text = "  .text\n  .globl main\n"@ + (Seq::<char>::empty() + function_text);
    assert(program_emission(p) == written(program_text));
    assert(program_text =~= constant_return_asm(n)) by {
        reveal_strlit("  .text\n  .globl main\n");
        reveal_strlit("main");
        reveal_strlit(":\n");
        reveal_strlit("  li a0, ");
        reveal_strlit("\n  ret");
        reveal_strlit("\n");
        reveal_strlit("  .text\n  .globl main\nmain:\n  li a0, ");
        reveal_strlit("\n  ret\n");
    }
}

/// Whatever handles lowering was given, the program it made of `ast` can be
/// emitted and printed, and its assembly depends on the returned literal
/// alone.
pub proof fn lemma_lowered_program(ast: CompUnit, p: Program)
    requires
        lowered(ast, p),
    ensures
        program_renderable(p),
        printable(p),
        llvm_printable(p),
        program_emission(p) == written(constant_return_asm(ast.func_def.block.stmt.num)),
{
    let n = ast.func_def.block.stmt.num;
    let (f, bb, operand, ret) = choose|f: Function, bb: BasicBlock, operand: Value, ret: Value|
        constant_return_program(p, f, bb, operand, ret, n);
    lemma_constant_return_program(p, f, bb, operand, ret, n);
}

/// Compiles a unit to RISC-V assembly.
///
/// A unit whose function is not named `main` fails with `NoEntryPoint`. Any
/// other gives the header, the label `main:`, `li a0,` with the literal in
/// decimal, and `ret`, one per line.
pub fn compile_asm(ast: &CompUnit) -> (r: Result<String, CompErr>)
    ensures
        compiles_to(*ast, r),
{
    let program = match ast_to_mem(ast) {
        Ok(program) => program,
        Err(e) => {
            return Err(e);
        },
    };
    proof {
        lemma_lowered_program(*ast, program);
    }
    let mut out = String::new();
    match program.generate(&mut out) {
        Ok(()) => {
            assert(out@ =~= constant_return_asm(ast.func_def.block.stmt.num));
            Ok(out)
        },
        Err(e) => Err(e),
    }
}

/// Compiles a unit to a text form of its intermediate representation:
/// Koopa's own, or, with `llvm`, LLVM IR.
///
/// A unit whose function is not named `main` fails with `NoEntryPoint`. Any
/// other gives the text that `koopa`'s generator writes for the lowered
/// program.
pub fn compile_ir(ast: &CompUnit, llvm: bool) -> (r: Result<Vec<u8>, CompErr>)
    ensures
        !has_entry_point(*ast) ==> r is Err && r->Err_0@ == CompErrView::NoEntryPoint,
        has_entry_point(*ast) ==> r is Ok && exists|p: Program|
            lowered(*ast, p) && r->Ok_0@ == dumped(p, llvm),
{
    let program = match ast_to_mem(ast) {
        Ok(program) => program,
        Err(e) => {
            return Err(e);
        },
    };
    proof {
        lemma_lowered_program(*ast, program);
    }
    mem_to_ir(&program, llvm)
}

} // verus!

//! Code generation: from a Koopa IR program to RISC-V assembly text.

use crate::decimal::{decimal, i32_to_string};
use crate::error::{CompErr, CompErrView};
use crate::ir::{
    block_insts, function_insts, function_model, function_values, layout_blocks, program_funcs,
    program_layout, value_kind, FunctionModel, InstKind, InstKindView,
};
use koopa::ir::{BasicBlock, Function, FunctionData, Program, Value};
use vstd::prelude::*;
use vstd::string::{StrSliceExecFns, StringExecFns};

verus! {

/// What an emitter writes: the text that reaches the sink, and, where it
/// stopped early, the construct it could not translate.
pub struct Emission {
    pub text: Seq<char>,
    pub failure: Option<Seq<char>>,
}

/// Nothing written, nothing failed.
pub open spec fn nothing() -> Emission {
    Emission { text: Seq::empty(), failure: None }
}

/// A piece of text written in full.
pub open spec fn written(text: Seq<char>) -> Emission {
    Emission { text, failure: None }
}

/// `first`, then `second` unless `first` stopped early: what was written
/// before a failure stays, and nothing follows it.
pub open spec fn chain(first: Emission, second: Emission) -> Emission {
    if first.failure is Some {
        first
    } else {
        Emission { text: first.text + second.text, failure: second.failure }
    }
}

/// Following operands from `v` stays inside the value table and ends within
/// `depth` steps.
pub open spec fn resolves(values: Map<Value, InstKindView>, v: Value, depth: nat) -> bool
    decreases depth,
{
    &&& values.dom().contains(v)
    &&& values[v] matches InstKindView::Return(Some(operand)) ==> depth > 0 && resolves(
        values,
        operand,
        (depth - 1) as nat,
    )
}

/// The assembly text of the value `v`, or the description of the construct
/// that has none, following operands for at most `depth` steps.
pub open spec fn rendering(values: Map<Value, InstKindView>, v: Value, depth: nat) -> Result<
    Seq<char>,
    Seq<char>,
>
    decreases depth,
{
    match values[v] {
        InstKindView::Integer(n) => Ok(decimal(n as int)),
        InstKindView::Return(None) => Err("return value is None"@),
        InstKindView::Return(Some(operand)) => if depth == 0 {
            Err(Seq::empty())
        } else {
            match rendering(values, operand, (depth - 1) as nat) {
                Ok(text) => Ok("  li a0, "@ + text + "\n  ret"@),
                Err(what) => Err(what),
            }
        },
        InstKindView::Other(kind) => Err("value kind: "@ + kind),
    }
}

/// `v` and every operand reached from it are in the value table, and the
/// chain of operands ends.
pub open spec fn renderable(values: Map<Value, InstKindView>, v: Value) -> bool {
    exists|depth: nat| resolves(values, v, depth)
}

/// The assembly text of a renderable value: an integer is its decimal text; a
/// return with an operand loads the operand's text into `a0` and returns; a
/// return without operand, and every other kind, has none.
pub open spec fn rendered(values: Map<Value, InstKindView>, v: Value) -> Result<Seq<char>, Seq<char>> {
    rendering(values, v, choose|depth: nat| resolves(values, v, depth))
}

/// Once the chain of operands ends within a depth, a larger allowance changes
/// nothing.
pub proof fn lemma_rendering_depth(values: Map<Value, InstKindView>, v: Value, d1: nat, d2: nat)
    requires
        resolves(values, v, d1),
        resolves(values, v, d2),
    ensures
        rendering(values, v, d1) == rendering(values, v, d2),
    decreases d1,
{
    match values[v] {
        InstKindView::Return(Some(operand)) => {
            lemma_rendering_depth(values, operand, (d1 - 1) as nat, (d2 - 1) as nat);
        },
        _ => {},
    }
}

/// One rule per kind of value.
pub proof fn lemma_rendered_by_kind(values: Map<Value, InstKindView>, v: Value)
    requires
        renderable(values, v),
    ensures
        values[v] matches InstKindView::Integer(n) ==> rendered(values, v) == Ok::<
            Seq<char>,
            Seq<char>,
        >(decimal(n as int)),
        values[v] == InstKindView::Return(None) ==> rendered(values, v) == Err::<
            Seq<char>,
            Seq<char>,
        >("return value is None"@),
        values[v] matches InstKindView::Other(kind) ==> rendered(values, v) == Err::<
            Seq<char>,
            Seq<char>,
        >("value kind: "@ + kind),
        values[v] matches InstKindView::Return(Some(operand)) ==> renderable(values, operand) && (
        match rendered(values, operand) {
            Ok(text) => rendered(values, v) == Ok::<Seq<char>, Seq<char>>(
                "  li a0, "@ + text + "\n  ret"@,
            ),
            Err(what) => rendered(values, v) == Err::<Seq<char>, Seq<char>>(what),
        }),
{
    let d = choose|depth: nat| resolves(values, v, depth);
    match values[v] {
        InstKindView::Return(Some(operand)) => {
            assert(resolves(values, operand, (d - 1) as nat));
            let e = choose|depth: nat| resolves(values, operand, depth);
            lemma_rendering_depth(values, operand, (d - 1) as nat, e);
        },
        _ => {},
    }
}

/// The line of one instruction: its text and a line break, or the failure.
pub open spec fn inst_emission(values: Map<Value, InstKindView>, inst: Value) -> Emission {
    match rendered(values, inst) {
        Ok(text) => written(text + "\n"@),
        Err(what) => Emission { text: Seq::empty(), failure: Some(what) },
    }
}

/// The lines of a list of instructions, in order.
pub open spec fn insts_emission(values: Map<Value, InstKindView>, insts: Seq<Value>) -> Emission
    decreases insts.len(),
{
    if insts.len() == 0 {
        nothing()
    } else {
        chain(insts_emission(values, insts.drop_last()), inst_emission(values, insts.last()))
    }
}

/// The lines of a list of blocks of the function `m`, in order.
pub open spec fn blocks_emission(m: FunctionModel, blocks: Seq<BasicBlock>) -> Emission
    decreases blocks.len(),
{
    if blocks.len() == 0 {
        nothing()
    } else {
        chain(
            blocks_emission(m, blocks.drop_last()),
            insts_emission(m.values, m.insts[blocks.last()]),
        )
    }
}

/// A function's name without the `@` and `%` markers in front of it.
pub open spec fn label(name: Seq<char>) -> Seq<char>
    decreases name.len(),
{
    if name.len() > 0 && (name[0] == '@' || name[0] == '%') {
        label(name.drop_first())
    } else {
        name
    }
}

/// The assembly of one function: its label, then its blocks in layout order.
pub open spec fn function_emission(m: FunctionModel) -> Emission {
    chain(written(label(m.name) + ":\n"@), blocks_emission(m, m.blocks))
}

/// The assembly of a list of functions of the program `p`, in order.
pub open spec fn functions_emission(p: Program, funcs: Seq<Function>) -> Emission
    decreases funcs.len(),
{
    if funcs.len() == 0 {
        nothing()
    } else {
        chain(
            functions_emission(p, funcs.drop_last()),
            function_emission(function_model(program_funcs(p)[funcs.last()])),
        )
    }
}

/// The assembly of a program: the header, then its functions in declaration
/// order.
pub open spec fn program_emission(p: Program) -> Emission {
    chain(written("  .text\n  .globl main\n"@), functions_emission(p, program_layout(p)))
}

/// The function's layout is intact, and every instruction in it can be
/// rendered.
pub open spec fn function_renderable(m: FunctionModel) -> bool {
    &&& m.intact
    &&& forall|j: int, k: int|
        0 <= j < m.blocks.len() && 0 <= k < m.insts[m.blocks[j]].len() ==> renderable(
            m.values,
            #[trigger] m.insts[#[trigger] m.blocks[j]][k],
        )
}

/// The program holds every function of its layout, and each can be rendered.
pub open spec fn program_renderable(p: Program) -> bool {
    forall|i: int|
        0 <= i < program_layout(p).len() ==> {
            &&& program_funcs(p).dom().contains(#[trigger] program_layout(p)[i])
            &&& function_renderable(function_model(program_funcs(p)[program_layout(p)[i]]))
        }
}

/// What `generate` returns for an emission: success, or `Unimplemented` with
/// the construct that stopped it.
pub open spec fn reports(r: Result<(), CompErr>, e: Emission) -> bool {
    match e.failure {
        None => r is Ok,
        Some(what) => r is Err && r->Err_0@ == CompErrView::Unimplemented(what),
    }
}

/// The assembly text of the value `inst` of the function `f`.
fn render_within(inst: Value, f: &FunctionData, Ghost(depth): Ghost<nat>) -> (r: Result<
    String,
    CompErr,
>)
    requires
        resolves(function_values(*f), inst, depth),
    ensures
        match rendering(function_values(*f), inst, depth) {
            Ok(text) => r is Ok && r->Ok_0@ == text,
            Err(what) => r is Err && r->Err_0@ == CompErrView::Unimplemented(what),
        },
    decreases depth,
{
    match value_kind(f, inst) {
        InstKind::Integer(n) => Ok(i32_to_string(n)),
        InstKind::Return(Some(operand)) => {
            match render_within(operand, f, Ghost((depth - 1) as nat)) {
                Ok(text) => {
                    let line = String::from_str("  li a0, ").concat(text.as_str()).concat(
                        "\n  ret",
                    );
                    Ok(line)
                },
                Err(e) => Err(e),
            }
        },
        InstKind::Return(None) => Err(
            CompErr::Unimplemented(String::from_str("return value is None")),
        ),
        InstKind::Other(kind) => Err(
            CompErr::Unimplemented(String::from_str("value kind: ").concat(kind.as_str())),
        ),
    }
}

/// Renders one value of a function as assembly text.
///
/// An integer constant gives its decimal text. A return with an operand gives
/// two lines: the operand's text loaded into `a0`, then `ret`. A return
/// without operand fails with `Unimplemented("return value is None")`, and
/// every other kind with `Unimplemented` naming the kind.
pub fn value_to_string(inst: Value, f: &FunctionData) -> (r: Result<String, CompErr>)
    requires
        renderable(function_values(*f), inst),
    ensures
        match rendered(function_values(*f), inst) {
            Ok(text) => r is Ok && r->Ok_0@ == text,
            Err(what) => r is Err && r->Err_0@ == CompErrView::Unimplemented(what),
        },
{
    let ghost depth = choose|depth: nat| resolves(function_values(*f), inst, depth);
    render_within(inst, f, Ghost(depth))
}

/// The emission of a list is that of any prefix that failed.
pub proof fn lemma_insts_failure_stays(values: Map<Value, InstKindView>, insts: Seq<Value>, k: int)
    requires
        0 <= k <= insts.len(),
        insts_emission(values, insts.take(k)).failure is Some,
    ensures
        insts_emission(values, insts) == insts_emission(values, insts.take(k)),
    decreases insts.len(),
{
    if k == insts.len() {
        assert(insts.take(k) =~= insts);
    } else {
        assert(insts.drop_last().take(k) =~= insts.take(k));
        lemma_insts_failure_stays(values, insts.drop_last(), k);
    }
}

/// The emission of a list of blocks is that of any prefix that failed.
pub proof fn lemma_blocks_failure_stays(m: FunctionModel, blocks: Seq<BasicBlock>, k: int)
    requires
        0 <= k <= blocks.len(),
        blocks_emission(m, blocks.take(k)).failure is Some,
    ensures
        blocks_emission(m, blocks) == blocks_emission(m, blocks.take(k)),
    decreases blocks.len(),
{
    if k == blocks.len() {
        assert(blocks.take(k) =~= blocks);
    } else {
        assert(blocks.drop_last().take(k) =~= blocks.take(k));
        lemma_blocks_failure_stays(m, blocks.drop_last(), k);
    }
}

/// The emission of a list of functions is that of any prefix that failed.
pub proof fn lemma_functions_failure_stays(p: Program, funcs: Seq<Function>, k: int)
    requires
        0 <= k <= funcs.len(),
        functions_emission(p, funcs.take(k)).failure is Some,
    ensures
        functions_emission(p, funcs) == functions_emission(p, funcs.take(k)),
    decreases funcs.len(),
{
    if k == funcs.len() {
        assert(funcs.take(k) =~= funcs);
    } else {
        assert(funcs.drop_last().take(k) =~= funcs.take(k));
        lemma_functions_failure_stays(p, funcs.drop_last(), k);
    }
}

/// Chaining three emissions gives the same whichever two are joined first.
pub proof fn lemma_chain_associative(a: Emission, b: Emission, c: Emission)
    ensures
        chain(chain(a, b), c) == chain(a, chain(b, c)),
{
    if a.failure is None && b.failure is None {
        assert((a.text + b.text) + c.text =~= a.text + (b.text + c.text));
    }
}

/// Chaining with nothing changes nothing.
pub proof fn lemma_chain_nothing(a: Emission)
    ensures
        chain(a, nothing()) == a,
        chain(nothing(), a) == a,
{
    assert(a.text + Seq::<char>::empty() =~= a.text);
    assert(Seq::<char>::empty() + a.text =~= a.text);
}

/// Instructions come out in the order of their list: the lines of `front`
/// followed by `back` are the lines of `front`, then the lines of `back`.
pub proof fn lemma_insts_in_order(values: Map<Value, InstKindView>, front: Seq<Value>, back: Seq<Value>)
    ensures
        insts_emission(values, front + back) == chain(
            insts_emission(values, front),
            insts_emission(values, back),
        ),
    decreases back.len(),
{
    if back.len() == 0 {
        assert(front + back =~= front);
        lemma_chain_nothing(insts_emission(values, front));
    } else {
        assert((front + back).drop_last() =~= front + back.drop_last());
        assert((front + back).last() == back.last());
        lemma_insts_in_order(values, front, back.drop_last());
        lemma_chain_associative(
            insts_emission(values, front),
            insts_emission(values, back.drop_last()),
            inst_emission(values, back.last()),
        );
    }
}

/// Basic blocks come out in the order of the layout: the text of `front`
/// followed by `back` is the text of `front`, then the text of `back`.
pub proof fn lemma_blocks_in_order(m: FunctionModel, front: Seq<BasicBlock>, back: Seq<BasicBlock>)
    ensures
        blocks_emission(m, front + back) == chain(
            blocks_emission(m, front),
            blocks_emission(m, back),
        ),
    decreases back.len(),
{
    if back.len() == 0 {
        assert(front + back =~= front);
        lemma_chain_nothing(blocks_emission(m, front));
    } else {
        assert((front + back).drop_last() =~= front + back.drop_last());
        assert((front + back).last() == back.last());
        lemma_blocks_in_order(m, front, back.drop_last());
        lemma_chain_associative(
            blocks_emission(m, front),
            blocks_emission(m, back.drop_last()),
            insts_emission(m.values, m.insts[back.last()]),
        );
    }
}

/// Functions come out in the order of declaration: the text of `front`
/// followed by `back` is the text of `front`, then the text of `back`. So
/// declaring functions in another order moves their labels with them.
pub proof fn lemma_functions_in_order(p: Program, front: Seq<Function>, back: Seq<Function>)
    ensures
        functions_emission(p, front + back) == chain(
            functions_emission(p, front),
            functions_emission(p, back),
        ),
    decreases back.len(),
{
    if back.len() == 0 {
        assert(front + back =~= front);
        lemma_chain_nothing(functions_emission(p, front));
    } else {
        assert((front + back).drop_last() =~= front + back.drop_last());
        assert((front + back).last() == back.last());
        lemma_functions_in_order(p, front, back.drop_last());
        lemma_chain_associative(
            functions_emission(p, front),
            functions_emission(p, back.drop_last()),
            function_emission(function_model(program_funcs(p)[back.last()])),
        );
    }
}

/// Emission is repeatable: two runs of `generate` on the same value, into
/// sinks that held the same text, leave the same text and report the same.
pub proof fn lemma_generate_repeatable<T: GenerateAsm>(
    source: &T,
    before: Seq<char>,
    first_text: Seq<char>,
    first: Result<(), CompErr>,
    second_text: Seq<char>,
    second: Result<(), CompErr>,
)
    requires
        first_text == before + source.emission().text,
        reports(first, source.emission()),
        second_text == before + source.emission().text,
        reports(second, source.emission()),
    ensures
        first_text == second_text,
        first is Ok <==> second is Ok,
        first is Err ==> first->Err_0@ == second->Err_0@,
{
}

/// Cutting the markers off the front of a name leaves its label.
proof fn lemma_label_skips(name: Seq<char>, k: int)
    requires
        0 <= k <= name.len(),
        forall|i: int| 0 <= i < k ==> name[i] == '@' || name[i] == '%',
    ensures
        label(name) == label(name.subrange(k, name.len() as int)),
    decreases k,
{
    if k == 0 {
        assert(name.subrange(0, name.len() as int) =~= name);
    } else {
        let rest = name.drop_first();
        assert(forall|i: int| 0 <= i < k - 1 ==> rest[i] == name[i + 1]);
        lemma_label_skips(rest, k - 1);
        assert(rest.subrange(k - 1, rest.len() as int) =~= name.subrange(k, name.len() as int));
    }
}

/// Appends a function's label to `out`.
fn write_label(name: &str, out: &mut String)
    ensures
        final(out)@ == old(out)@ + label(name@),
{
    let len = name.unicode_len();
    let mut start: usize = 0;
    while start < len && (name.get_char(start) == '@' || name.get_char(start) == '%')
        invariant
            len == name@.len(),
            start <= len,
            forall|i: int| 0 <= i < start ==> name@[i] == '@' || name@[i] == '%',
        decreases len - start,
    {
        start += 1;
    }
    proof {
        lemma_label_skips(name@, start as int);
    }
    out.append(name.substring_char(start, len));
}

/// Appends the lines of a list of instructions to `out`, up to the first that
/// cannot be rendered.
fn write_insts(f: &FunctionData, insts: &Vec<Value>, out: &mut String) -> (r: Result<(), CompErr>)
    requires
        forall|k: int| 0 <= k < insts@.len() ==> renderable(function_values(*f), #[trigger] insts@[k]),
    ensures
        final(out)@ == old(out)@ + insts_emission(function_values(*f), insts@).text,
        reports(r, insts_emission(function_values(*f), insts@)),
{
    let ghost values = function_values(*f);
    let mut k: usize = 0;
    while k < insts.len()
        invariant
            k <= insts@.len(),
            values == function_values(*f),
            forall|i: int| 0 <= i < insts@.len() ==> renderable(values, #[trigger] insts@[i]),
            insts_emission(values, insts@.take(k as int)).failure is None,
            out@ == old(out)@ + insts_emission(values, insts@.take(k as int)).text,
        decreases insts@.len() - k,
    {
        proof {
            assert(insts@.take(k + 1).drop_last() =~= insts@.take(k as int));
            assert(insts@.take(k + 1).last() == insts@[k as int]);
        }
        match value_to_string(insts[k], f) {
            Ok(text) => {
                out.append(text.concat("\n").as_str());
            },
            Err(e) => {
                proof {
                    lemma_insts_failure_stays(values, insts@, k + 1);
                }
                return Err(e);
            },
        }
        k += 1;
    }
    proof {
        assert(insts@.take(k as int) =~= insts@);
    }
    Ok(())
}

/// Writes a program, or a part of one, as assembly text.
pub trait GenerateAsm {
    /// Whether every value the emitter will look up is there to be found.
    spec fn can_generate(&self) -> bool;

    /// What `generate` writes, and whether it stops early.
    spec fn emission(&self) -> Emission;

    /// Appends the assembly text to `out`.
    ///
    /// On a construct that has no translation, it stops and reports it; the
    /// text written up to then stays in `out`.
    fn generate(&self, out: &mut String) -> (r: Result<(), CompErr>)
        requires
            self.can_generate(),
        ensures
            final(out)@ == old(out)@ + self.emission().text,
            reports(r, self.emission()),
    ;
}

impl GenerateAsm for FunctionData {
    open spec fn can_generate(&self) -> bool {
        function_renderable(function_model(*self))
    }

    open spec fn emission(&self) -> Emission {
        function_emission(function_model(*self))
    }

    /// The label, then the instructions of each basic block, one per line, in
    /// the order of the layout.
    fn generate(&self, out: &mut String) -> (r: Result<(), CompErr>) {
        let ghost m = function_model(*self);
        write_label(self.name(), out);
        out.append(":\n");
        let blocks = layout_blocks(self);
        let mut j: usize = 0;
        while j < blocks.len()
            invariant
                j <= blocks@.len(),
                blocks@ == m.blocks,
                m == function_model(*self),
                function_renderable(m),
                forall|i: int| 0 <= i < blocks@.len() ==> function_insts(*self).dom().contains(#[trigger] blocks@[i]),
                blocks_emission(m, blocks@.take(j as int)).failure is None,
                out@ == old(out)@ + label(m.name) + ":\n"@ + blocks_emission(
                    m,
                    blocks@.take(j as int),
                ).text,
            decreases blocks@.len() - j,
        {
            proof {
                assert(blocks@.take(j + 1).drop_last() =~= blocks@.take(j as int));
                assert(blocks@.take(j + 1).last() == blocks@[j as int]);
                assert(m.blocks[j as int] == blocks@[j as int]);
            }
            let insts = block_insts(self, blocks[j]);
            match write_insts(self, &insts, out) {
                Ok(()) => {},
                Err(e) => {
                    proof {
                        lemma_blocks_failure_stays(m, blocks@, j + 1);
                    }
                    return Err(e);
                },
            }
            j += 1;
        }
        proof {
            assert(blocks@.take(j as int) =~= blocks@);
        }
        Ok(())
    }
}

impl GenerateAsm for Program {
    open spec fn can_generate(&self) -> bool {
        program_renderable(*self)
    }

    open spec fn emission(&self) -> Emission {
        program_emission(*self)
    }

    /// The header, then each function in the order of declaration.
    fn generate(&self, out: &mut String) -> (r: Result<(), CompErr>) {
        out.append("  .text\n  .globl main\n");
        let funcs = self.func_layout();
        let mut i: usize = 0;
        while i < funcs.len()
            invariant
                i <= funcs@.len(),
                funcs@ == program_layout(*self),
                program_renderable(*self),
                functions_emission(*self, funcs@.take(i as int)).failure is None,
                out@ == old(out)@ + "  .text\n  .globl main\n"@ + functions_emission(
                    *self,
                    funcs@.take(i as int),
                ).text,
            decreases funcs@.len() - i,
        {
            proof {
                assert(funcs@.take(i + 1).drop_last() =~= funcs@.take(i as int));
                assert(funcs@.take(i + 1).last() == funcs@[i as int]);
                assert(program_layout(*self)[i as int] == funcs@[i as int]);
            }
            match self.func(funcs[i]).generate(out) {
                Ok(()) => {},
                Err(e) => {
                    proof {
                        lemma_functions_failure_stays(*self, funcs@, i + 1);
                    }
                    return Err(e);
                },
            }
            i += 1;
        }
        proof {
            assert(funcs@.take(i as int) =~= funcs@);
        }
        Ok(())
    }
}

} // verus!

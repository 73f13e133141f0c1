//! The intermediate representation: Koopa IR programs, held in `koopa`'s own
//! data structures.
//!
//! Verus cannot look inside a `koopa` value, so this module gives what a
//! program holds a name in specifications, and states for each `koopa`
//! operation the library uses what it does to those contents. Nothing here is
//! proved: the statements follow `koopa`'s source and are what every proof in
//! the other modules rests on.
//!
//! `koopa` hands out `&mut` to its lists and nodes, so a caller can exchange
//! them by hand and leave a layout that its operations would never make. The
//! statements on the lists are made of intact layouts only
//! (`function_intact`), and of functions that the program itself created
//! (`program_linked`) where an operation needs the program's global table.

use crate::ast::FuncType;
use koopa::back::{KoopaGenerator, LlvmGenerator};
use koopa::ir::builder::{BasicBlockBuilder, LocalInstBuilder, ValueBuilder};
use koopa::ir::{BasicBlock, Function, FunctionData, Program, Type, Value, ValueKind};
use vstd::prelude::*;

verus! {

/// `koopa::ir::Program`, opaque: specifications reach its contents through
/// `program_layout`, `program_funcs`, `program_globals` and `program_linked`.
#[verifier::external_type_specification]
#[verifier::external_body]
pub struct ExProgram(Program);

/// `koopa::ir::FunctionData`, opaque: specifications reach its contents
/// through the `function_` names below.
#[verifier::external_type_specification]
#[verifier::external_body]
pub struct ExFunctionData(FunctionData);

/// `koopa::ir::Function`, the handle of a function.
#[verifier::external_type_specification]
#[verifier::external_body]
pub struct ExFunction(Function);

/// `koopa::ir::BasicBlock`, the handle of a basic block.
#[verifier::external_type_specification]
#[verifier::external_body]
pub struct ExBasicBlock(BasicBlock);

/// `koopa::ir::Value`, the handle of a value.
#[verifier::external_type_specification]
#[verifier::external_body]
pub struct ExValue(Value);

/// What a value of a function's data-flow graph is, as far as code generation
/// tells kinds apart.
#[derive(Debug)]
pub enum InstKind {
    /// An integer constant.
    Integer(i32),
    /// A return, with the value it returns if it has one.
    Return(Option<Value>),
    /// Any other kind of value; the payload is `koopa`'s debug text of it.
    Other(String),
}

/// An `InstKind` with its text as a sequence of characters.
pub enum InstKindView {
    Integer(i32),
    Return(Option<Value>),
    Other(Seq<char>),
}

impl View for InstKind {
    type V = InstKindView;

    open spec fn view(&self) -> InstKindView {
        match self {
            InstKind::Integer(n) => InstKindView::Integer(*n),
            InstKind::Return(v) => InstKindView::Return(*v),
            InstKind::Other(s) => InstKindView::Other(s@),
        }
    }
}

/// The functions of a program, in the order they were declared.
pub uninterp spec fn program_layout(p: Program) -> Seq<Function>;

/// The data of each function the program holds, by handle.
pub uninterp spec fn program_funcs(p: Program) -> Map<Function, FunctionData>;

/// The global allocations of a program, in order.
pub uninterp spec fn program_globals(p: Program) -> Seq<Value>;

/// The functions whose data-flow graph refers to this program's own table of
/// global values: those the program itself created.
pub uninterp spec fn program_linked(p: Program) -> Set<Function>;

/// The name of a function, with its `@` or `%` marker.
pub uninterp spec fn function_name(f: FunctionData) -> Seq<char>;

/// The parameters of a function.
pub uninterp spec fn function_params(f: FunctionData) -> Seq<Value>;

/// Whether the function's declared return type is the 32-bit integer.
pub uninterp spec fn function_returns_i32(f: FunctionData) -> bool;

/// The basic blocks in a function's layout, in order; the first is the entry.
pub uninterp spec fn function_blocks(f: FunctionData) -> Seq<BasicBlock>;

/// The instructions of each basic block in a function's layout, in order.
pub uninterp spec fn function_insts(f: FunctionData) -> Map<BasicBlock, Seq<Value>>;

/// The basic blocks without parameters that a function's data-flow graph
/// holds, each with its name.
pub uninterp spec fn function_block_names(f: FunctionData) -> Map<BasicBlock, Option<Seq<char>>>;

/// The local values a function's data-flow graph holds, each with its kind.
pub uninterp spec fn function_values(f: FunctionData) -> Map<Value, InstKindView>;

/// The local values of a function whose type is not `unit`: those an
/// instruction may take as an operand.
pub uninterp spec fn function_typed_values(f: FunctionData) -> Set<Value>;

/// Whether the function's layout is as `koopa`'s own list operations leave
/// it: the chain of each list runs from head to tail through every key of the
/// list once, and each instruction list still belongs to this layout. `koopa`
/// keeps it so; only exchanging lists or nodes by hand, through a `&mut` that
/// `koopa` hands out, breaks it.
pub uninterp spec fn function_intact(f: FunctionData) -> bool;

/// The text form of a program, as `koopa`'s generator writes it.
pub uninterp spec fn koopa_text(p: Program) -> Seq<u8>;

/// The LLVM form of a program, as `koopa`'s generator writes it.
pub uninterp spec fn llvm_text(p: Program) -> Seq<u8>;

/// All that the specifications say of one function, gathered.
pub struct FunctionModel {
    pub name: Seq<char>,
    pub params: Seq<Value>,
    pub returns_i32: bool,
    pub blocks: Seq<BasicBlock>,
    pub insts: Map<BasicBlock, Seq<Value>>,
    pub block_names: Map<BasicBlock, Option<Seq<char>>>,
    pub values: Map<Value, InstKindView>,
    pub typed_values: Set<Value>,
    pub intact: bool,
}

pub open spec fn function_model(f: FunctionData) -> FunctionModel {
    FunctionModel {
        name: function_name(f),
        params: function_params(f),
        returns_i32: function_returns_i32(f),
        blocks: function_blocks(f),
        insts: function_insts(f),
        block_names: function_block_names(f),
        values: function_values(f),
        typed_values: function_typed_values(f),
        intact: function_intact(f),
    }
}

/// A function as `new_func_def` makes it: a name, a return type, and nothing
/// else yet.
pub open spec fn empty_function(name: Seq<char>, returns_i32: bool) -> FunctionModel {
    FunctionModel {
        name,
        params: Seq::empty(),
        returns_i32,
        blocks: Seq::empty(),
        insts: Map::empty(),
        block_names: Map::empty(),
        values: Map::empty(),
        typed_values: Set::empty(),
        intact: true,
    }
}

pub open spec fn with_block_name(m: FunctionModel, bb: BasicBlock, name: Option<Seq<char>>) -> FunctionModel {
    FunctionModel { block_names: m.block_names.insert(bb, name), ..m }
}

pub open spec fn with_block(m: FunctionModel, bb: BasicBlock) -> FunctionModel {
    FunctionModel { blocks: m.blocks.push(bb), insts: m.insts.insert(bb, Seq::empty()), ..m }
}

pub open spec fn with_inst(m: FunctionModel, bb: BasicBlock, inst: Value) -> FunctionModel {
    FunctionModel { insts: m.insts.insert(bb, m.insts[bb].push(inst)), ..m }
}

pub open spec fn with_integer(m: FunctionModel, v: Value, n: i32) -> FunctionModel {
    FunctionModel {
        values: m.values.insert(v, InstKindView::Integer(n)),
        typed_values: m.typed_values.insert(v),
        ..m
    }
}

pub open spec fn with_return(m: FunctionModel, v: Value, operand: Option<Value>) -> FunctionModel {
    FunctionModel { values: m.values.insert(v, InstKindView::Return(operand)), ..m }
}

/// `after` is `before` with the data of function `f` replaced and nothing
/// else touched.
pub open spec fn changed_at(before: Program, after: Program, f: Function) -> bool {
    &&& program_layout(after) == program_layout(before)
    &&& program_globals(after) == program_globals(before)
    &&& program_linked(after) == program_linked(before)
    &&& program_funcs(after) == program_funcs(before).insert(f, program_funcs(after)[f])
}

/// A name `koopa` accepts for a function or a basic block: `@` or `%`, then
/// at least one more character.
pub open spec fn valid_name(name: Seq<char>) -> bool {
    name.len() > 1 && (name[0] == '@' || name[0] == '%')
}

/// The programs whose text form `koopa_ir_text` can write: no global
/// allocations, every function with an intact layout and without parameters,
/// every block of a layout known to the data-flow graph, and every
/// instruction a return whose operand, if any, is an integer constant or
/// another return.
pub open spec fn printable(p: Program) -> bool {
    &&& program_globals(p).len() == 0
    &&& forall|i: int|
        0 <= i < program_layout(p).len() ==> {
            &&& program_funcs(p).dom().contains(#[trigger] program_layout(p)[i])
            &&& printable_function(function_model(program_funcs(p)[program_layout(p)[i]]))
        }
}

pub open spec fn printable_function(m: FunctionModel) -> bool {
    &&& m.intact
    &&& m.params.len() == 0
    &&& forall|j: int|
        0 <= j < m.blocks.len() ==> {
            &&& m.block_names.dom().contains(#[trigger] m.blocks[j])
            &&& m.insts.dom().contains(m.blocks[j])
            &&& forall|k: int|
                0 <= k < m.insts[m.blocks[j]].len() ==> printable_inst(
                    m,
                    #[trigger] m.insts[m.blocks[j]][k],
                )
        }
}

pub open spec fn printable_inst(m: FunctionModel, inst: Value) -> bool {
    &&& m.values.dom().contains(inst)
    &&& m.values[inst] matches InstKindView::Return(operand)
    &&& operand matches Some(v) ==> {
        &&& m.values.dom().contains(v)
        &&& m.values[v] is Integer || m.values[v] is Return
    }
}

/// A name short enough that the LLVM generator, which cuts names at 513
/// bytes, leaves it whole: 128 characters have at most 512 bytes.
pub open spec fn short_name(name: Seq<char>) -> bool {
    valid_name(name) && name.len() <= 128
}

/// The programs whose LLVM form `llvm_ir_text` can write: those whose text
/// form can be written, in which moreover every function and every named
/// block has a short name, every instruction has type `unit`, and every
/// operand is an integer constant.
pub open spec fn llvm_printable(p: Program) -> bool {
    &&& printable(p)
    &&& forall|i: int|
        0 <= i < program_layout(p).len() ==> llvm_printable_function(
            function_model(program_funcs(p)[#[trigger] program_layout(p)[i]]),
        )
}

pub open spec fn llvm_printable_function(m: FunctionModel) -> bool {
    &&& short_name(m.name)
    &&& forall|j: int|
        0 <= j < m.blocks.len() ==> {
            &&& m.block_names[#[trigger] m.blocks[j]] matches Some(name) ==> short_name(name)
            &&& forall|k: int|
                0 <= k < m.insts[m.blocks[j]].len() ==> llvm_printable_inst(
                    m,
                    #[trigger] m.insts[m.blocks[j]][k],
                )
        }
}

pub open spec fn llvm_printable_inst(m: FunctionModel, inst: Value) -> bool {
    &&& !m.typed_values.contains(inst)
    &&& m.values[inst] matches InstKindView::Return(Some(v)) ==> m.values[v] is Integer
}

/// `Program::new`: a program without functions or global allocations.
pub assume_specification[ Program::new ]() -> (p: Program)
    ensures
        program_layout(p) == Seq::<Function>::empty(),
        program_funcs(p).dom() == Set::<Function>::empty(),
        program_globals(p) == Seq::<Value>::empty(),
        program_linked(p) == Set::<Function>::empty(),
;

/// `Program::func_layout`: the function handles in declaration order.
pub assume_specification[ Program::func_layout ](p: &Program) -> (r: &[Function])
    ensures
        r@ == program_layout(*p),
;

/// `Program::func`: the data of a function the program holds. It panics on a
/// handle the program does not hold, which `requires` leaves out.
pub assume_specification[ Program::func ](p: &Program, func: Function) -> (r: &FunctionData)
    requires
        program_funcs(*p).dom().contains(func),
    ensures
        *r == program_funcs(*p)[func],
;

/// `FunctionData::name`: the function's name.
pub assume_specification[ FunctionData::name ](f: &FunctionData) -> (r: &str)
    ensures
        r@ == function_name(*f),
;

/// `Program::new_func_def` with no parameters: adds a function definition to
/// the end of the program's layout and returns its handle. `koopa` numbers
/// handles from a counter and documents them as unique, so the program did
/// not hold this one before. The new function has the given name and return
/// type and nothing else, its layout is intact, and it is linked to the
/// program. `koopa` panics on a name that does not start with `@` or `%` or
/// has nothing after it, which `requires` leaves out.
#[verifier::external_body]
pub(crate) fn new_function(p: &mut Program, name: String, ret: FuncType) -> (r: Function)
    requires
        valid_name(name@),
    ensures
        !program_funcs(*old(p)).dom().contains(r),
        program_layout(*final(p)) == program_layout(*old(p)).push(r),
        program_funcs(*final(p)) == program_funcs(*old(p)).insert(r, program_funcs(*final(p))[r]),
        program_globals(*final(p)) == program_globals(*old(p)),
        program_linked(*final(p)) == program_linked(*old(p)).insert(r),
        function_model(program_funcs(*final(p))[r]) == empty_function(name@, ret is Int),
        function_params(program_funcs(*final(p))[r]).len() == 0,
        function_returns_i32(program_funcs(*final(p))[r]) == (ret is Int),
        function_intact(program_funcs(*final(p))[r]),
{
    let ret_ty = match ret {
        FuncType::Int => Type::get_i32(),
    };
    p.new_func_def(name, Vec::new(), ret_ty)
}

/// `BasicBlockBuilder::basic_block` on the data-flow graph of function `f`:
/// adds a basic block without parameters, with the given name, to the graph,
/// not yet to the layout, and returns its handle. `koopa` numbers handles
/// from a counter and documents them as unique, so the graph did not hold
/// this one before. `koopa` panics on a function the program does not hold and on
/// a name that does not start with `@` or `%`; `requires` leaves both out.
#[verifier::external_body]
pub(crate) fn new_basic_block(p: &mut Program, f: Function, name: String) -> (r: BasicBlock)
    requires
        program_funcs(*old(p)).dom().contains(f),
        valid_name(name@),
    ensures
        changed_at(*old(p), *final(p), f),
        !function_block_names(program_funcs(*old(p))[f]).dom().contains(r),
        function_model(program_funcs(*final(p))[f]) == with_block_name(
            function_model(program_funcs(*old(p))[f]),
            r,
            Some(name@),
        ),
{
    p.func_mut(f).dfg_mut().new_bb().basic_block(Some(name))
}

/// `KeyNodeList::push_key_back` on the block list of function `f`'s layout:
/// appends the block with an empty instruction list, or, where the layout
/// already has the block, changes nothing and hands the block back as the
/// error. `koopa` panics on a function the program does not hold, which
/// `requires` leaves out, as it does a layout that is not intact.
#[verifier::external_body]
pub(crate) fn push_block(p: &mut Program, f: Function, bb: BasicBlock) -> (r: Result<(), BasicBlock>)
    requires
        program_funcs(*old(p)).dom().contains(f),
        function_intact(program_funcs(*old(p))[f]),
    ensures
        changed_at(*old(p), *final(p), f),
        r is Err <==> function_insts(program_funcs(*old(p))[f]).dom().contains(bb),
        r is Err ==> function_model(program_funcs(*final(p))[f]) == function_model(
            program_funcs(*old(p))[f],
        ),
        r is Ok ==> function_model(program_funcs(*final(p))[f]) == with_block(
            function_model(program_funcs(*old(p))[f]),
            bb,
        ),
{
    p.func_mut(f).layout_mut().bbs_mut().push_key_back(bb)
}

/// `KeyNodeList::push_key_back` on the instruction list of block `bb` in
/// function `f`'s layout: appends the instruction, or, where the list already
/// has it, changes nothing and hands it back as the error. `koopa` panics on
/// a function the program does not hold, on a block the layout does not
/// have, and on an instruction list that was moved out of its layout;
/// `requires` leaves these out.
#[verifier::external_body]
pub(crate) fn push_inst(p: &mut Program, f: Function, bb: BasicBlock, inst: Value) -> (r: Result<(), Value>)
    requires
        program_funcs(*old(p)).dom().contains(f),
        function_intact(program_funcs(*old(p))[f]),
        function_insts(program_funcs(*old(p))[f]).dom().contains(bb),
    ensures
        changed_at(*old(p), *final(p), f),
        r is Err <==> function_insts(program_funcs(*old(p))[f])[bb].contains(inst),
        r is Err ==> function_model(program_funcs(*final(p))[f]) == function_model(
            program_funcs(*old(p))[f],
        ),
        r is Ok ==> function_model(program_funcs(*final(p))[f]) == with_inst(
            function_model(program_funcs(*old(p))[f]),
            bb,
            inst,
        ),
{
    p.func_mut(f).layout_mut().bb_mut(bb).insts_mut().push_key_back(inst)
}

/// `ValueBuilder::integer` on the data-flow graph of function `f`: adds an
/// integer constant, of type `i32`, and returns its handle, which the graph
/// did not hold before. `koopa` panics on a function the program does not
/// hold, which `requires` leaves out.
#[verifier::external_body]
pub(crate) fn new_integer(p: &mut Program, f: Function, n: i32) -> (r: Value)
    requires
        program_funcs(*old(p)).dom().contains(f),
    ensures
        changed_at(*old(p), *final(p), f),
        !function_values(program_funcs(*old(p))[f]).dom().contains(r),
        function_typed_values(program_funcs(*final(p))[f]).contains(r),
        function_model(program_funcs(*final(p))[f]) == with_integer(
            function_model(program_funcs(*old(p))[f]),
            r,
            n,
        ),
{
    p.func_mut(f).dfg_mut().new_value().integer(n)
}

/// `LocalInstBuilder::ret` on the data-flow graph of function `f`: adds a
/// return instruction, of type `unit`, with the given operand, and returns
/// its handle, which the graph did not hold before. `koopa` panics on a
/// function the program does not hold or did not create, and on an operand
/// that does not exist or has type `unit`; `requires` leaves these out.
#[verifier::external_body]
pub(crate) fn new_return(p: &mut Program, f: Function, operand: Option<Value>) -> (r: Value)
    requires
        program_funcs(*old(p)).dom().contains(f),
        program_linked(*old(p)).contains(f),
        operand matches Some(v) ==> function_typed_values(program_funcs(*old(p))[f]).contains(v),
    ensures
        changed_at(*old(p), *final(p), f),
        !function_values(program_funcs(*old(p))[f]).dom().contains(r),
        function_model(program_funcs(*final(p))[f]) == with_return(
            function_model(program_funcs(*old(p))[f]),
            r,
            operand,
        ),
{
    p.func_mut(f).dfg_mut().new_value().ret(operand)
}

/// `KeyNodeList::keys` on the block list of a function's layout: the blocks
/// front to back. The list keeps a node, and with it an instruction list, for
/// each of its keys. The walk ends on an intact layout; `requires` leaves
/// others out.
#[verifier::external_body]
pub(crate) fn layout_blocks(f: &FunctionData) -> (r: Vec<BasicBlock>)
    requires
        function_intact(*f),
    ensures
        r@ == function_blocks(*f),
        forall|i: int| 0 <= i < r@.len() ==> function_insts(*f).dom().contains(#[trigger] r@[i]),
{
    f.layout().bbs().keys().copied().collect()
}

/// `KeyNodeList::node` on the block list of a function's layout, then
/// `KeyNodeList::keys` on the node's instruction list: the instructions of
/// the block, front to back. The lookup finds no node for a block the layout
/// does not have, and the walk ends only on an intact layout; `requires`
/// leaves the others out.
#[verifier::external_body]
pub(crate) fn block_insts(f: &FunctionData, bb: BasicBlock) -> (r: Vec<Value>)
    requires
        function_intact(*f),
        function_insts(*f).dom().contains(bb),
    ensures
        r@ == function_insts(*f)[bb],
{
    f.layout().bbs().node(&bb).unwrap().insts().keys().copied().collect()
}

/// `DataFlowGraph::value`, then `ValueData::kind`: the kind of a local value,
/// with the number of an integer, the operand of a return, and for any other
/// kind its debug text. `koopa` panics on a value the graph does not hold,
/// which `requires` leaves out.
#[verifier::external_body]
pub(crate) fn value_kind(f: &FunctionData, v: Value) -> (r: InstKind)
    requires
        function_values(*f).dom().contains(v),
    ensures
        r@ == function_values(*f)[v],
{
    match f.dfg().value(v).kind() {
        ValueKind::Integer(i) => InstKind::Integer(i.value()),
        ValueKind::Return(ret) => InstKind::Return(ret.value()),
        other => InstKind::Other(format!("{:?}", other)),
    }
}

/// `KoopaGenerator::generate_on`, writing into a vector it makes itself: the
/// text form of the program. The generator fails only where a write to its
/// sink fails, and appending to a vector does not, so the result is `Ok`.
/// `koopa` panics on programs it cannot print; `requires` admits only
/// programs of a shape on which it does not.
#[verifier::external_body]
pub(crate) fn koopa_ir_text(p: &Program) -> (r: Result<Vec<u8>, std::io::Error>)
    requires
        printable(*p),
    ensures
        r is Ok,
        r->Ok_0@ == koopa_text(*p),
{
    let mut generator = KoopaGenerator::new(Vec::new());
    match generator.generate_on(p) {
        Ok(()) => Ok(generator.writer()),
        Err(e) => Err(e),
    }
}

/// `LlvmGenerator::generate_on`, writing into a vector it makes itself: the
/// LLVM form of the program. The generator fails only where a write to its
/// sink fails, and appending to a vector does not, so the result is `Ok`.
/// `koopa` panics on programs it cannot print, and on names that it has to
/// cut inside a character; `requires` admits only programs of a shape on
/// which it does neither.
#[verifier::external_body]
pub(crate) fn llvm_ir_text(p: &Program) -> (r: Result<Vec<u8>, std::io::Error>)
    requires
        llvm_printable(*p),
    ensures
        r is Ok,
        r->Ok_0@ == llvm_text(*p),
{
    let mut generator = LlvmGenerator::new(Vec::new());
    match generator.generate_on(p) {
        Ok(()) => Ok(generator.writer()),
        Err(e) => Err(e),
    }
}

} // verus!

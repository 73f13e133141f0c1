use koopa::ir::builder::{BasicBlockBuilder, LocalInstBuilder, ValueBuilder};
use koopa::ir::{BasicBlock, BinaryOp, Function, Program, Type, Value};
use sysy_compiler::backend::{value_to_string, GenerateAsm};
use sysy_compiler::error::CompErr;

fn add_function(program: &mut Program, name: &str) -> Function {
    program.new_func_def(name.to_string(), Vec::new(), Type::get_i32())
}

fn add_block(program: &mut Program, f: Function, name: &str) -> BasicBlock {
    let data = program.func_mut(f);
    let bb = data.dfg_mut().new_bb().basic_block(Some(name.to_string()));
    data.layout_mut().bbs_mut().push_key_back(bb).unwrap();
    bb
}

fn add_return(program: &mut Program, f: Function, bb: BasicBlock, n: i32) -> Value {
    let data = program.func_mut(f);
    let operand = data.dfg_mut().new_value().integer(n);
    let ret = data.dfg_mut().new_value().ret(Some(operand));
    data.layout_mut().bb_mut(bb).insts_mut().push_key_back(ret).unwrap();
    ret
}

fn add_bare_return(program: &mut Program, f: Function, bb: BasicBlock) -> Value {
    let data = program.func_mut(f);
    let ret = data.dfg_mut().new_value().ret(None);
    data.layout_mut().bb_mut(bb).insts_mut().push_key_back(ret).unwrap();
    ret
}

#[test]
fn integer_renders_as_decimal() {
    let mut program = Program::new();
    let f = add_function(&mut program, "@f");
    let v = program.func_mut(f).dfg_mut().new_value().integer(-305);
    assert_eq!(value_to_string(v, program.func(f)).unwrap(), "-305");
}

#[test]
fn return_renders_as_load_and_ret() {
    let mut program = Program::new();
    let f = add_function(&mut program, "@f");
    let bb = add_block(&mut program, f, "%entry");
    let ret = add_return(&mut program, f, bb, 17);
    assert_eq!(value_to_string(ret, program.func(f)).unwrap(), "  li a0, 17\n  ret");
}

#[test]
fn return_without_operand_is_unimplemented() {
    let mut program = Program::new();
    let f = add_function(&mut program, "@f");
    let bb = add_block(&mut program, f, "%entry");
    let ret = add_bare_return(&mut program, f, bb);
    let err = value_to_string(ret, program.func(f)).unwrap_err();
    assert!(matches!(&err, CompErr::Unimplemented(s) if s == "return value is None"));
    assert!(format!("{:?}", err).contains("return value is None"));
}

#[test]
fn other_kinds_are_unimplemented_by_name() {
    let mut program = Program::new();
    let f = add_function(&mut program, "@f");
    let data = program.func_mut(f);
    let lhs = data.dfg_mut().new_value().integer(1);
    let rhs = data.dfg_mut().new_value().integer(2);
    let sum = data.dfg_mut().new_value().binary(BinaryOp::Add, lhs, rhs);
    let err = value_to_string(sum, program.func(f)).unwrap_err();
    match err {
        CompErr::Unimplemented(s) => {
            assert!(s.starts_with("value kind: Binary("), "{}", s);
            assert!(s.contains("Add"));
        }
        other => panic!("unexpected error: {:?}", other),
    }
}

#[test]
fn return_of_an_unsupported_operand_reports_the_operand() {
    let mut program = Program::new();
    let f = add_function(&mut program, "@f");
    let data = program.func_mut(f);
    let lhs = data.dfg_mut().new_value().integer(1);
    let rhs = data.dfg_mut().new_value().integer(2);
    let sum = data.dfg_mut().new_value().binary(BinaryOp::Sub, lhs, rhs);
    let ret = data.dfg_mut().new_value().ret(Some(sum));
    let err = value_to_string(ret, program.func(f)).unwrap_err();
    assert!(matches!(err, CompErr::Unimplemented(s) if s.starts_with("value kind: Binary(")));
}

#[test]
fn empty_program_is_only_the_header() {
    let program = Program::new();
    let mut out = String::new();
    program.generate(&mut out).unwrap();
    assert_eq!(out, "  .text\n  .globl main\n");
}

#[test]
fn generate_appends_to_the_sink() {
    let program = Program::new();
    let mut out = String::from("# before\n");
    program.generate(&mut out).unwrap();
    assert_eq!(out, "# before\n  .text\n  .globl main\n");
}

#[test]
fn function_label_drops_the_markers() {
    for (name, label) in [("@main", "main"), ("%tmp", "tmp"), ("@%@x", "x"), ("@a@b", "a@b"), ("@é%", "é%")] {
        let mut program = Program::new();
        let f = add_function(&mut program, name);
        let mut out = String::new();
        program.func(f).generate(&mut out).unwrap();
        assert_eq!(out, format!("{}:\n", label));
    }
}

#[test]
fn function_without_blocks_is_only_its_label() {
    let mut program = Program::new();
    let f = add_function(&mut program, "@empty");
    let mut out = String::new();
    program.generate(&mut out).unwrap();
    assert_eq!(out, "  .text\n  .globl main\nempty:\n");
    let mut out = String::new();
    program.func(f).generate(&mut out).unwrap();
    assert_eq!(out, "empty:\n");
}

#[test]
fn functions_come_out_in_declaration_order() {
    let mut program = Program::new();
    let first = add_function(&mut program, "@first");
    let second = add_function(&mut program, "@second");
    let b2 = add_block(&mut program, second, "%entry");
    add_return(&mut program, second, b2, 2);
    let b1 = add_block(&mut program, first, "%entry");
    add_return(&mut program, first, b1, 1);
    let mut out = String::new();
    program.generate(&mut out).unwrap();
    assert_eq!(
        out,
        "  .text\n  .globl main\nfirst:\n  li a0, 1\n  ret\nsecond:\n  li a0, 2\n  ret\n"
    );
}

#[test]
fn reordering_functions_reorders_their_labels() {
    let mut program = Program::new();
    let second = add_function(&mut program, "@second");
    let first = add_function(&mut program, "@first");
    let b1 = add_block(&mut program, first, "%entry");
    add_return(&mut program, first, b1, 1);
    let b2 = add_block(&mut program, second, "%entry");
    add_return(&mut program, second, b2, 2);
    let mut out = String::new();
    program.generate(&mut out).unwrap();
    assert_eq!(
        out,
        "  .text\n  .globl main\nsecond:\n  li a0, 2\n  ret\nfirst:\n  li a0, 1\n  ret\n"
    );
}

#[test]
fn blocks_and_instructions_come_out_in_layout_order() {
    let mut program = Program::new();
    let f = add_function(&mut program, "@f");
    let a = add_block(&mut program, f, "%a");
    let b = add_block(&mut program, f, "%b");
    add_return(&mut program, f, b, 30);
    add_return(&mut program, f, a, 10);
    add_return(&mut program, f, a, 20);
    let mut out = String::new();
    program.func(f).generate(&mut out).unwrap();
    assert_eq!(
        out,
        "f:\n  li a0, 10\n  ret\n  li a0, 20\n  ret\n  li a0, 30\n  ret\n"
    );
}

#[test]
fn failure_keeps_what_was_written_and_stops() {
    let mut program = Program::new();
    let good = add_function(&mut program, "@good");
    let bad = add_function(&mut program, "@bad");
    let never = add_function(&mut program, "@never");
    let g = add_block(&mut program, good, "%entry");
    add_return(&mut program, good, g, 1);
    let b = add_block(&mut program, bad, "%entry");
    add_return(&mut program, bad, b, 2);
    add_bare_return(&mut program, bad, b);
    add_return(&mut program, bad, b, 3);
    let n = add_block(&mut program, never, "%entry");
    add_return(&mut program, never, n, 4);
    let mut out = String::new();
    let err = program.generate(&mut out).unwrap_err();
    assert!(matches!(err, CompErr::Unimplemented(s) if s == "return value is None"));
    assert_eq!(
        out,
        "  .text\n  .globl main\ngood:\n  li a0, 1\n  ret\nbad:\n  li a0, 2\n  ret\n"
    );
}

#[test]
fn generating_twice_gives_the_same_text() {
    let mut program = Program::new();
    let f = add_function(&mut program, "@main");
    let bb = add_block(&mut program, f, "%entry");
    add_return(&mut program, f, bb, 99);
    let mut first = String::new();
    program.generate(&mut first).unwrap();
    let mut second = String::new();
    program.generate(&mut second).unwrap();
    assert_eq!(first, second);
    assert_eq!(first, "  .text\n  .globl main\nmain:\n  li a0, 99\n  ret\n");
}

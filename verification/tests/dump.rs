use koopa::ir::builder::{BasicBlockBuilder, LocalInstBuilder, ValueBuilder};
use koopa::ir::{Program, Type};
use sysy_compiler::dump::{dump_outcome, mem_to_ir};
use sysy_compiler::error::CompErr;

#[test]
fn dump_of_an_empty_program_is_empty() {
    let program = Program::new();
    assert_eq!(mem_to_ir(&program, false).unwrap(), Vec::<u8>::new());
}

#[test]
fn dump_of_a_constant_return() {
    let mut program = Program::new();
    let f = program.new_func_def("@main".to_string(), Vec::new(), Type::get_i32());
    let data = program.func_mut(f);
    let bb = data.dfg_mut().new_bb().basic_block(Some("%entry".to_string()));
    data.layout_mut().bbs_mut().push_key_back(bb).unwrap();
    let v = data.dfg_mut().new_value().integer(5);
    let ret = data.dfg_mut().new_value().ret(Some(v));
    data.layout_mut().bb_mut(bb).insts_mut().push_key_back(ret).unwrap();
    let text = String::from_utf8(mem_to_ir(&program, false).unwrap()).unwrap();
    assert_eq!(text, "fun @main(): i32 {\n%entry:\n  ret 5\n}\n");
}

#[test]
fn dump_of_a_bare_return() {
    let mut program = Program::new();
    let f = program.new_func_def("@f".to_string(), Vec::new(), Type::get_unit());
    let data = program.func_mut(f);
    let bb = data.dfg_mut().new_bb().basic_block(None);
    data.layout_mut().bbs_mut().push_key_back(bb).unwrap();
    let ret = data.dfg_mut().new_value().ret(None);
    data.layout_mut().bb_mut(bb).insts_mut().push_key_back(ret).unwrap();
    let text = String::from_utf8(mem_to_ir(&program, false).unwrap()).unwrap();
    assert_eq!(text, "fun @f() {\n%0:\n  ret\n}\n");
}

#[test]
fn dump_outcome_keeps_the_text() {
    let r = dump_outcome(Ok(b"fun".to_vec()));
    assert_eq!(r.unwrap(), b"fun".to_vec());
}

#[test]
fn dump_outcome_reports_a_failed_write() {
    let e = std::io::Error::new(std::io::ErrorKind::Other, "disk full");
    match dump_outcome(Err(e)) {
        Err(CompErr::Io(e)) => assert_eq!(e.to_string(), "disk full"),
        other => panic!("unexpected outcome: {:?}", other),
    }
}

#[test]
fn llvm_dump_of_an_empty_program_is_empty() {
    let program = Program::new();
    assert_eq!(mem_to_ir(&program, true).unwrap(), Vec::<u8>::new());
}

#[test]
fn llvm_dump_of_a_constant_return() {
    let mut program = Program::new();
    let f = program.new_func_def("@main".to_string(), Vec::new(), Type::get_i32());
    let data = program.func_mut(f);
    let bb = data.dfg_mut().new_bb().basic_block(Some("%entry".to_string()));
    data.layout_mut().bbs_mut().push_key_back(bb).unwrap();
    let v = data.dfg_mut().new_value().integer(5);
    let ret = data.dfg_mut().new_value().ret(Some(v));
    data.layout_mut().bb_mut(bb).insts_mut().push_key_back(ret).unwrap();
    let text = String::from_utf8(mem_to_ir(&program, true).unwrap()).unwrap();
    assert_eq!(text, "define i32 @main() {\n$entry:\n  ret i32 5\n}\n");
}

#[test]
fn llvm_dump_of_a_bare_return() {
    let mut program = Program::new();
    let f = program.new_func_def("@f".to_string(), Vec::new(), Type::get_unit());
    let data = program.func_mut(f);
    let bb = data.dfg_mut().new_bb().basic_block(None);
    data.layout_mut().bbs_mut().push_key_back(bb).unwrap();
    let ret = data.dfg_mut().new_value().ret(None);
    data.layout_mut().bb_mut(bb).insts_mut().push_key_back(ret).unwrap();
    let text = String::from_utf8(mem_to_ir(&program, true).unwrap()).unwrap();
    assert_eq!(text, "define void @f() {\n$0:\n  ret void\n}\n");
}

#[test]
fn the_two_forms_differ() {
    let mut program = Program::new();
    let f = program.new_func_def("@main".to_string(), Vec::new(), Type::get_i32());
    let data = program.func_mut(f);
    let bb = data.dfg_mut().new_bb().basic_block(Some("%entry".to_string()));
    data.layout_mut().bbs_mut().push_key_back(bb).unwrap();
    let v = data.dfg_mut().new_value().integer(1);
    let ret = data.dfg_mut().new_value().ret(Some(v));
    data.layout_mut().bb_mut(bb).insts_mut().push_key_back(ret).unwrap();
    assert_ne!(mem_to_ir(&program, false).unwrap(), mem_to_ir(&program, true).unwrap());
}

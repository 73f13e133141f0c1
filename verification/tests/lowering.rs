use koopa::ir::{Type, TypeKind, ValueKind};
use sysy_compiler::ast::{Block, CompUnit, FuncDef, FuncType, Stmt};
use sysy_compiler::error::CompErr;
use sysy_compiler::lower::ast_to_mem;

fn unit(ident: &str, num: i32) -> CompUnit {
    CompUnit {
        func_def: FuncDef {
            func_type: FuncType::Int,
            ident: ident.to_string(),
            block: Block { stmt: Stmt { num } },
        },
    }
}

#[test]
fn lowering_without_main_fails() {
    assert!(matches!(ast_to_mem(&unit("foo", 0)), Err(CompErr::NoEntryPoint)));
}

#[test]
fn lowered_program_has_one_function_named_main() {
    let program = ast_to_mem(&unit("main", 3)).unwrap();
    assert_eq!(program.func_layout().len(), 1);
    assert_eq!(program.funcs().len(), 1);
    assert!(program.inst_layout().is_empty());
    let main = program.func(program.func_layout()[0]);
    assert_eq!(main.name(), "@main");
    assert!(main.params().is_empty());
    match main.ty().kind() {
        TypeKind::Function(params, ret) => {
            assert!(params.is_empty());
            assert!(*ret == Type::get_i32());
        }
        _ => panic!("the function's type is not a function type"),
    }
}

#[test]
fn lowered_function_has_one_entry_block() {
    let program = ast_to_mem(&unit("main", 3)).unwrap();
    let main = program.func(program.func_layout()[0]);
    assert_eq!(main.layout().bbs().len(), 1);
    let entry = main.layout().entry_bb().unwrap();
    assert_eq!(main.dfg().bb(entry).name().as_deref(), Some("%entry"));
    assert!(main.dfg().bb(entry).params().is_empty());
    assert_eq!(main.dfg().bbs().len(), 1);
}

#[test]
fn lowered_block_ends_in_one_return_of_the_literal() {
    for n in [0, 42, -9, i32::MIN, i32::MAX] {
        let program = ast_to_mem(&unit("main", n)).unwrap();
        let main = program.func(program.func_layout()[0]);
        let entry = main.layout().entry_bb().unwrap();
        let insts: Vec<_> = main.layout().bbs().node(&entry).unwrap().insts().keys().copied().collect();
        assert_eq!(insts.len(), 1);
        let operand = match main.dfg().value(insts[0]).kind() {
            ValueKind::Return(ret) => ret.value().unwrap(),
            _ => panic!("the instruction is not a return"),
        };
        match main.dfg().value(operand).kind() {
            ValueKind::Integer(i) => assert_eq!(i.value(), n),
            _ => panic!("the operand is not an integer"),
        }
        assert_eq!(main.dfg().values().len(), 2);
    }
}

//! The syntax tree that the parser hands to lowering.

use vstd::prelude::*;

verus! {

/// A compilation unit: one function definition.
#[derive(Debug)]
pub struct CompUnit {
    pub func_def: FuncDef,
}

/// A function definition: return type, name and body.
#[derive(Debug)]
pub struct FuncDef {
    pub func_type: FuncType,
    pub ident: String,
    pub block: Block,
}

/// The return types the source language has.
#[derive(Debug, Clone, Copy)]
pub enum FuncType {
    Int,
}

/// A function body: one statement.
#[derive(Debug)]
pub struct Block {
    pub stmt: Stmt,
}

/// A `return` statement with the integer literal it returns.
#[derive(Debug)]
pub struct Stmt {
    pub num: i32,
}

} // verus!

pub mod ast;
pub mod backend;
pub mod cli;
pub mod decimal;
pub mod dump;
pub mod error;
pub mod ir;
pub mod lower;
pub mod pipeline;

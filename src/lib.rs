//! Lint rules for SystemVerilog source, driven by a stream of syntax-tree
//! events and checked against their contracts.

pub mod config;
pub mod linter;
pub mod operator;
pub mod pattern;
pub mod rules;
pub mod scope;
pub mod syntax;

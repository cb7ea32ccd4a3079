//! An interpreter for a small, dynamically typed scripting language with
//! closures, lambdas and classes.
//!
//! Source text goes through three stages:
//!
//! - [`scanner`] turns text into tokens; [`lexical`] says what the tokens
//!   of a text are.
//! - [`parser`] turns tokens into a syntax tree, kept in the tables of
//!   [`ast`]; [`syntax`] is the grammar.
//! - [`machine`] runs the tree one step at a time, over the tables of
//!   [`heap`]; [`semantics`] says what a step does.
//!
//! Nothing in here fails on any input: lexical faults and violations of
//! the grammar are collected, and a fault at run time ends the program
//! that caused it and nothing else. The library does no input or output
//! and no arithmetic: its caller prints what the machine hands out and
//! computes with numbers when the machine asks.
//!
//! [`laws`] holds facts that are proved of all of this.

pub mod ast;
pub mod error;
pub mod heap;
pub mod laws;
pub mod lexical;
pub mod machine;
pub mod parser;
pub mod scanner;
pub mod semantics;
pub mod syntax;
pub mod text;
pub mod token;
pub mod value;

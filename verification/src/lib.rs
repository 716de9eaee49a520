//! A small interactive command interpreter, verified with Verus: a
//! quote-aware tokenizer, a pipeline parser, and a pipeline execution
//! engine whose every decision is specified and proved, with the outside
//! world (files, processes, the terminal) kept behind a thin driver.

pub mod commands;
pub mod error;
pub mod parser;
pub mod shell;
pub mod strutil;
pub mod tokenizer;

//! The front end of the Emerald language: an indentation-sensitive
//! tokenizer, a grammar-driven parser producing a location-annotated AST,
//! the error taxonomy every failure funnels through, and the
//! block-relocation utility that moves a trailing `do:` block onto the
//! correct sub-expression.

pub mod ast;
pub mod do_block;
pub mod error;
pub mod fstring;
pub mod lexer;
pub mod location;
pub mod mode;
pub mod parser;
pub mod strutil;
pub mod token;

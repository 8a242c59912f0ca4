//! The grammar layer of a small expression-oriented language: it turns a
//! segmented token tree into a typed syntax tree of declarations,
//! expressions, types, statements and binding patterns, and collects
//! diagnostics on the way.
//!
//! `grammar` states the language as spec functions over token segments;
//! the parsers in `parser`, `parse_expr`, `parse_stmt` and `parse_decl` are
//! proved to compute exactly those functions, and `entry` gathers their
//! public entry points. `printer` renders a tree back to text.
pub mod ast;
pub mod entry;
pub mod error;
pub mod grammar;
pub mod laws;
pub mod model;
pub mod parse_decl;
pub mod parse_expr;
pub mod parse_stmt;
pub mod parser;
pub mod printer;
pub mod token;
pub mod view;

//! Front end for the Gideon grammar-description language: a scanner, a
//! predictive parser with one token of pushback, and the concrete syntax tree
//! they build, in which every field keeps its own success or failure.

pub mod frontend_error;
pub mod unicode;
pub mod text;
pub mod token;
pub mod scan;
pub mod lexer;
pub mod syntax_tree;
pub mod grammar;
pub mod parser;
pub mod laws;
pub mod invariants;

//! A verified McCarthy-style LISP core: cons cells with structural sharing,
//! a recursive-descent reader, an `eval`/`apply` pair, and a printer.

pub mod cons_cell;
pub mod eval;
pub mod laws;
pub mod parser;
pub mod printer;

pub use cons_cell::Pair;

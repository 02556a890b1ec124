//! A small S-expression evaluator.
//!
//! The expression tree (`sx`), the mutable binding environment (`env`), the
//! built-in primitive calling convention (`primitive`) and the recursive
//! evaluator itself (`eval`) together define the operational semantics of a
//! minimal Lisp-like language: self-evaluation, `quote`, symbol lookup, the
//! special forms `def` and `if`, and arity-checked primitive application.

pub mod env;
pub mod eval;
pub mod primitive;
pub mod sx;

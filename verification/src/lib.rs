//! A direct-style evaluator for a small expression language with constants,
//! variables, subtraction, a zero test, conditionals, `let` binding,
//! one-argument procedures, application, and single-procedure recursion
//! through a `letrec`-style binding form.
//!
//! The crate is organised leaves first: [`ast`] holds the expression tree that
//! an external parser produces, [`value`] the runtime values an evaluation can
//! yield, [`env`] the persistent environment chain that maps names to values,
//! and [`eval`] the tree-walking evaluator itself together with the laws that
//! its semantics obeys.
#![allow(non_snake_case)]

pub mod ast;
pub mod env;
pub mod eval;
pub mod value;

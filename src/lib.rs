//! An evaluator for the untyped lambda calculus with integer literals,
//! using environment-passing closures instead of substitution.

mod eval;
mod laws;
mod syntax;

pub use eval::{eval, eval_with_depth, lemma_depth_monotone, spec_eval};
pub use laws::{
    lemma_abstraction_is_closure, lemma_bound_variable, lemma_call_uses_captured_env,
    lemma_function_error_first, lemma_int_literal, lemma_unbound_variable,
};
pub use syntax::{Env, EvalError, Expr, Value};

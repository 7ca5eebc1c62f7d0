use vstd::prelude::*;

use crate::eval::spec_eval;
use crate::syntax::{Env, EvalError, Expr, Value};

verus! {

/// An integer literal evaluates to its integer, whatever the environment.
pub proof fn lemma_int_literal(n: u32, env: Env, depth: nat)
    ensures
        spec_eval(Expr::Int(n), env, depth) == Ok::<Value, EvalError>(Value::VInt(n)),
{
}

/// A variable that the environment does not bind fails with
/// `UnboundVariable` naming it.
pub proof fn lemma_unbound_variable(x: String, env: Env, depth: nat)
    requires
        !env@.contains_key(x@),
    ensures
        spec_eval(Expr::Var(x), env, depth) == Err::<Value, EvalError>(
            EvalError::UnboundVariable(x),
        ),
{
}

/// A variable that the environment binds evaluates to its bound value.
pub proof fn lemma_bound_variable(x: String, v: Value, env: Env, depth: nat)
    requires
        env@.contains_key(x@),
        env@[x@] == v,
    ensures
        spec_eval(Expr::Var(x), env, depth) == Ok::<Value, EvalError>(v),
{
}

/// An abstraction always evaluates to a closure over the current environment,
/// holding its body unevaluated: the result does not depend on what the body
/// would evaluate to, or whether it could be evaluated at all.
pub proof fn lemma_abstraction_is_closure(p: String, body: Expr, env: Env, depth: nat)
    ensures
        spec_eval(Expr::Abs(p, Box::new(body)), env, depth) == Ok::<Value, EvalError>(
            Value::VClosure(Box::new(env), p, Box::new(body)),
        ),
{
}

/// An application whose function position fails reports that failure,
/// whatever its argument position would give.
pub proof fn lemma_function_error_first(f: Expr, a: Expr, env: Env, depth: nat)
    requires
        spec_eval(f, env, depth) is Err,
    ensures
        spec_eval(Expr::App(Box::new(f), Box::new(a)), env, depth) == spec_eval(f, env, depth),
{
}

/// Calling a closure evaluates its body under the environment it captured,
/// extended with the parameter bound to the argument: the caller's
/// environment reaches the body only through the two values it produced.
pub proof fn lemma_call_uses_captured_env(
    f: Expr,
    a: Expr,
    env: Env,
    depth: nat,
    cenv: Env,
    p: String,
    body: Expr,
    arg: Value,
)
    requires
        depth > 0,
        spec_eval(f, env, depth) == Ok::<Value, EvalError>(
            Value::VClosure(Box::new(cenv), p, Box::new(body)),
        ),
        spec_eval(a, env, depth) == Ok::<Value, EvalError>(arg),
    ensures
        spec_eval(Expr::App(Box::new(f), Box::new(a)), env, depth) == spec_eval(
            body,
            Env::Bind(p, arg, Box::new(cenv)),
            (depth - 1) as nat,
        ),
        Env::Bind(p, arg, Box::new(cenv))@ == cenv@.insert(p@, arg),
{
}

} // verus!

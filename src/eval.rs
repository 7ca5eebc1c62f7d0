use vstd::prelude::*;

use crate::syntax::{Env, EvalError, Expr, Value};

verus! {

/// The result of evaluating `e` under `env` when closure calls may nest at
/// most `depth` deep. Every evaluation that finishes within some depth gives
/// the same result within any greater depth (see `lemma_depth_monotone`).
pub open spec fn spec_eval(e: Expr, env: Env, depth: nat) -> Result<Value, EvalError>
    decreases depth, e,
{
    match e {
        Expr::Int(n) => Ok(Value::VInt(n)),
        Expr::Var(x) => if env@.contains_key(x@) {
            Ok(env@[x@])
        } else {
            Err(EvalError::UnboundVariable(x))
        },
        Expr::Abs(p, body) => Ok(Value::VClosure(Box::new(env), p, body)),
        Expr::App(f, a) => match spec_eval(*f, env, depth) {
            Err(err) => Err(err),
            Ok(fv) => match spec_eval(*a, env, depth) {
                Err(err) => Err(err),
                Ok(av) => match fv {
                    Value::VInt(_) => Err(EvalError::NotAFunction),
                    Value::VClosure(cenv, p, body) => if depth == 0 {
                        Err(EvalError::DepthExceeded)
                    } else {
                        spec_eval(*body, Env::Bind(p, av, cenv), (depth - 1) as nat)
                    },
                },
            },
        },
    }
}

/// Evaluates `expr` under `env`, failing with `DepthExceeded` where closure
/// calls would nest more than `depth` deep.
pub fn eval_with_depth(expr: &Expr, env: &Env, depth: u64) -> (r: Result<Value, EvalError>)
    ensures
        r == spec_eval(*expr, *env, depth as nat),
    decreases depth, expr,
{
    match expr {
        Expr::Int(n) => Ok(Value::VInt(*n)),
        Expr::Var(x) => match env.lookup(x) {
            Some(v) => Ok(v.clone()),
            None => Err(EvalError::UnboundVariable(x.clone())),
        },
        Expr::Abs(p, body) => Ok(Value::VClosure(Box::new(env.clone()), p.clone(), body.clone())),
        Expr::App(f, a) => match eval_with_depth(f, env, depth) {
            Err(err) => Err(err),
            Ok(fv) => match eval_with_depth(a, env, depth) {
                Err(err) => Err(err),
                Ok(av) => match fv {
                    Value::VInt(_) => Err(EvalError::NotAFunction),
                    Value::VClosure(cenv, p, body) => {
                        if depth == 0 {
                            Err(EvalError::DepthExceeded)
                        } else {
                            let call_env = Env::Bind(p, av, cenv);
                            eval_with_depth(&body, &call_env, depth - 1)
                        }
                    },
                },
            },
        },
    }
}

/// An evaluation that does not run out of depth gives the same result under
/// any greater depth: the depth only cuts evaluations off, never changes them.
pub proof fn lemma_depth_monotone(e: Expr, env: Env, d1: nat, d2: nat)
    requires
        d1 <= d2,
        spec_eval(e, env, d1) != Err::<Value, EvalError>(EvalError::DepthExceeded),
    ensures
        spec_eval(e, env, d2) == spec_eval(e, env, d1),
    decreases d1, e,
{
    if let Expr::App(f, a) = e {
        lemma_depth_monotone(*f, env, d1, d2);
        if let Ok(fv) = spec_eval(*f, env, d1) {
            lemma_depth_monotone(*a, env, d1, d2);
            if let (Ok(av), Value::VClosure(cenv, p, body)) = (spec_eval(*a, env, d1), fv) {
                if d1 > 0 {
                    lemma_depth_monotone(
                        *body,
                        Env::Bind(p, av, cenv),
                        (d1 - 1) as nat,
                        (d2 - 1) as nat,
                    );
                }
            }
        }
    }
}

/// Evaluates `expr` under `context`.
///
/// Closure calls may nest up to `u64::MAX` deep, which the call stack cannot
/// reach: an evaluation either finishes with the result it has under every
/// depth large enough, or recurses until the stack is exhausted.
pub fn eval(expr: Expr, context: Env) -> (r: Result<Value, EvalError>)
    ensures
        r == spec_eval(expr, context, u64::MAX as nat),
        forall|d: nat|
            d <= u64::MAX && #[trigger] spec_eval(expr, context, d) != Err::<Value, EvalError>(
                EvalError::DepthExceeded,
            ) ==> r == spec_eval(expr, context, d),
{
    proof {
        assert forall|d: nat|
            d <= u64::MAX && #[trigger] spec_eval(expr, context, d) != Err::<Value, EvalError>(
                EvalError::DepthExceeded,
            ) implies spec_eval(expr, context, u64::MAX as nat) == spec_eval(expr, context, d) by {
            lemma_depth_monotone(expr, context, d, u64::MAX as nat);
        }
    }
    eval_with_depth(&expr, &context, u64::MAX)
}

} // verus!

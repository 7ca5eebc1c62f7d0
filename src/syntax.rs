use vstd::prelude::*;

verus! {

/// An expression tree. Each node owns its children.
#[derive(Debug, PartialEq, Eq)]
pub enum Expr {
    Int(u32),
    Var(String),
    Abs(String, Box<Expr>),
    App(Box<Expr>, Box<Expr>),
}

/// The result of evaluating an expression.
#[derive(Debug, PartialEq, Eq)]
pub enum Value {
    VInt(u32),
    /// A function value: the environment in force where the abstraction was
    /// evaluated, the parameter name, and the unevaluated body.
    VClosure(Box<Env>, String, Box<Expr>),
}

/// An environment: a persistent list of bindings, where a later binding of a
/// name hides every earlier binding of the same name.
#[derive(Debug, PartialEq, Eq)]
pub enum Env {
    Empty,
    Bind(String, Value, Box<Env>),
}

/// Why an evaluation failed.
#[derive(Debug, PartialEq, Eq)]
pub enum EvalError {
    /// A variable was referenced that no binding in scope names.
    UnboundVariable(String),
    /// The function position of an application evaluated to an integer.
    NotAFunction,
    /// Closure calls nested deeper than the depth the evaluation was given.
    DepthExceeded,
}

impl Env {
    /// The bindings visible through this environment, as a map from names.
    pub open spec fn view(&self) -> Map<Seq<char>, Value>
        decreases self,
    {
        match self {
            Env::Empty => Map::empty(),
            Env::Bind(name, value, rest) => rest.view().insert(name@, *value),
        }
    }

    /// The empty environment.
    pub fn new() -> (r: Env)
        ensures
            r@ == Map::<Seq<char>, Value>::empty(),
    {
        Env::Empty
    }

    /// A new environment that extends this one with `name` bound to `value`,
    /// hiding any earlier binding of `name`.
    pub fn bind(self, name: String, value: Value) -> (r: Env)
        ensures
            r == Env::Bind(name, value, Box::new(self)),
            r@ == self@.insert(name@, value),
    {
        Env::Bind(name, value, Box::new(self))
    }

    /// The value bound to `name`, if any.
    pub fn lookup(&self, name: &String) -> (r: Option<&Value>)
        ensures
            r matches Some(v) ==> self@.contains_key(name@) && *v == self@[name@],
            r is None ==> !self@.contains_key(name@),
        decreases self,
    {
        match self {
            Env::Empty => None,
            Env::Bind(n, v, rest) => {
                if *n == *name {
                    Some(v)
                } else {
                    rest.lookup(name)
                }
            },
        }
    }
}

/// A deep copy of `e`, equal to it.
fn copy_expr(e: &Expr) -> (r: Expr)
    ensures
        r == *e,
    decreases e,
{
    match e {
        Expr::Int(n) => Expr::Int(*n),
        Expr::Var(x) => Expr::Var(x.clone()),
        Expr::Abs(p, body) => Expr::Abs(p.clone(), Box::new(copy_expr(body))),
        Expr::App(f, a) => Expr::App(Box::new(copy_expr(f)), Box::new(copy_expr(a))),
    }
}

/// A deep copy of `v`, equal to it.
fn copy_value(v: &Value) -> (r: Value)
    ensures
        r == *v,
    decreases v,
{
    match v {
        Value::VInt(n) => Value::VInt(*n),
        Value::VClosure(env, p, body) => Value::VClosure(
            Box::new(copy_env(env)),
            p.clone(),
            Box::new(copy_expr(body)),
        ),
    }
}

/// A deep copy of `env`, equal to it.
fn copy_env(env: &Env) -> (r: Env)
    ensures
        r == *env,
    decreases env,
{
    match env {
        Env::Empty => Env::Empty,
        Env::Bind(name, value, rest) => Env::Bind(
            name.clone(),
            copy_value(value),
            Box::new(copy_env(rest)),
        ),
    }
}

impl Clone for Expr {
    fn clone(&self) -> (r: Self)
        ensures
            r == *self,
    {
        copy_expr(self)
    }
}

impl Clone for Value {
    fn clone(&self) -> (r: Self)
        ensures
            r == *self,
    {
        copy_value(self)
    }
}

impl Clone for Env {
    fn clone(&self) -> (r: Self)
        ensures
            r == *self,
    {
        copy_env(self)
    }
}

} // verus!

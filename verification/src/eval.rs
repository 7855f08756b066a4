use vstd::prelude::*;

use crate::ast::Expression;
use crate::ast::Identifier;
use crate::env::Environment;
use crate::value::EvalError;
use crate::value::ExpVal;
use crate::value::Outcome;
use crate::value::ProcType;
use std::rc::Rc;

verus! {

impl Expression {
    /// The operational semantics of the language: what evaluating an
    /// expression in an environment yields.  Evaluation is eager and
    /// fail-fast — the first sub-evaluation or narrowing that fails aborts
    /// the whole expression with that error, and an `if` never touches the
    /// branch it does not take.  Applying a procedure runs its body in the
    /// environment the closure captured, extended with the argument binding
    /// alone, which makes the scoping lexical.
    ///
    /// A source program may recurse without bound, so the semantics is
    /// indexed by `fuel`: each procedure application spends one unit, every
    /// other step is free, and a program that needs more applications than
    /// the fuel allows yields `OutOfFuel`.  The difference form wraps around
    /// on `i32` overflow.
    pub open spec fn eval(self, env: Environment, fuel: nat) -> Outcome
        decreases fuel, self,
    {
        match self {
            Expression::ConstExp { num } => Outcome::Value(ExpVal::NumVal { val: num }),
            Expression::VarExp { var } => match env.spec_lookup(var@) {
                Ok(v) => Outcome::Value(v),
                Err(e) => Outcome::Error(e),
            },
            Expression::DiffExp { exp1, exp2 } => match (*exp1).eval(env, fuel) {
                Outcome::Value(v1) => match v1.spec_to_num() {
                    Ok(n1) => match (*exp2).eval(env, fuel) {
                        Outcome::Value(v2) => match v2.spec_to_num() {
                            Ok(n2) => Outcome::Value(
                                ExpVal::NumVal { val: n1.wrapping_sub(n2) },
                            ),
                            Err(e) => Outcome::Error(e),
                        },
                        other => other,
                    },
                    Err(e) => Outcome::Error(e),
                },
                other => other,
            },
            Expression::ZeroTestExp { exp } => match (*exp).eval(env, fuel) {
                Outcome::Value(v) => match v.spec_to_num() {
                    Ok(n) => Outcome::Value(ExpVal::BoolVal { val: n == 0 }),
                    Err(e) => Outcome::Error(e),
                },
                other => other,
            },
            Expression::IfExp { condExp, trueExp, falseExp } => match (*condExp).eval(env, fuel) {
                Outcome::Value(v) => match v.spec_to_bool() {
                    Ok(b) => if b {
                        (*trueExp).eval(env, fuel)
                    } else {
                        (*falseExp).eval(env, fuel)
                    },
                    Err(e) => Outcome::Error(e),
                },
                other => other,
            },
            Expression::LetExp { var, valExp, bodyExp } => match (*valExp).eval(env, fuel) {
                Outcome::Value(val) => (*bodyExp).eval(
                    Environment::ExtendEnvironment { var, val, tail: Rc::new(env) },
                    fuel,
                ),
                other => other,
            },
            Expression::ProcExp { var, body } => Outcome::Value(
                ExpVal::ProcVal {
                    val: ProcType::Procedure { var, body, closure: Rc::new(env) },
                },
            ),
            Expression::CallExp { operator, operand } => match (*operator).eval(env, fuel) {
                Outcome::Value(rator) => match rator.spec_to_proc() {
                    Ok(p) => match (*operand).eval(env, fuel) {
                        Outcome::Value(rand) => if fuel == 0 {
                            Outcome::OutOfFuel
                        } else {
                            match p {
                                ProcType::Procedure { var, body, closure } => (*body).eval(
                                    Environment::ExtendEnvironment {
                                        var,
                                        val: rand,
                                        tail: closure,
                                    },
                                    (fuel - 1) as nat,
                                ),
                            }
                        },
                        other => other,
                    },
                    Err(e) => Outcome::Error(e),
                },
                other => other,
            },
            Expression::LetrecExp { name, var, procbody, letbody } => (*letbody).eval(
                Environment::ExtendRecEnvironment {
                    name,
                    var,
                    body: procbody,
                    tail: Rc::new(env),
                },
                fuel,
            ),
        }
    }

    /// The evaluator: a pure recursive walk of the tree that returns exactly
    /// what the semantics [`Expression::eval`] assigns to the expression.
    /// It never mutates `env` — an extension builds a new frame around the
    /// given chain and passes that frame to a nested evaluation — and it
    /// never panics: every failure comes back as an `Outcome`.
    pub fn valueOf(&self, env: &Rc<Environment>, fuel: u64) -> (r: Outcome)
        ensures
            r == self.eval(**env, fuel as nat),
        decreases fuel, *self,
    {
        match self {
            Expression::ConstExp { num } => Outcome::Value(ExpVal::NumVal { val: *num }),
            Expression::VarExp { var } => match Environment::lookup(env, var) {
                Ok(v) => Outcome::Value(v),
                Err(e) => Outcome::Error(e),
            },
            Expression::DiffExp { exp1, exp2 } => match exp1.valueOf(env, fuel) {
                Outcome::Value(v1) => match v1.toNum() {
                    Ok(n1) => match exp2.valueOf(env, fuel) {
                        Outcome::Value(v2) => match v2.toNum() {
                            Ok(n2) => Outcome::Value(
                                ExpVal::NumVal { val: n1.wrapping_sub(n2) },
                            ),
                            Err(e) => Outcome::Error(e),
                        },
                        other => other,
                    },
                    Err(e) => Outcome::Error(e),
                },
                other => other,
            },
            Expression::ZeroTestExp { exp } => match exp.valueOf(env, fuel) {
                Outcome::Value(v) => match v.toNum() {
                    Ok(n) => Outcome::Value(ExpVal::BoolVal { val: n == 0 }),
                    Err(e) => Outcome::Error(e),
                },
                other => other,
            },
            Expression::IfExp { condExp, trueExp, falseExp } => match condExp.valueOf(env, fuel) {
                Outcome::Value(v) => match v.toBool() {
                    Ok(b) => if b {
                        trueExp.valueOf(env, fuel)
                    } else {
                        falseExp.valueOf(env, fuel)
                    },
                    Err(e) => Outcome::Error(e),
                },
                other => other,
            },
            Expression::LetExp { var, valExp, bodyExp } => match valExp.valueOf(env, fuel) {
                Outcome::Value(val) => {
                    let newenv = Rc::new(
                        Environment::ExtendEnvironment {
                            var: var.clone(),
                            val,
                            tail: env.clone(),
                        },
                    );
                    bodyExp.valueOf(&newenv, fuel)
                },
                other => other,
            },
            Expression::ProcExp { var, body } => Outcome::Value(
                ExpVal::ProcVal {
                    val: ProcType::Procedure {
                        var: var.clone(),
                        body: body.clone(),
                        closure: env.clone(),
                    },
                },
            ),
            Expression::CallExp { operator, operand } => match operator.valueOf(env, fuel) {
                Outcome::Value(rator) => match rator.toProc() {
                    Ok(p) => match operand.valueOf(env, fuel) {
                        Outcome::Value(rand) => if fuel == 0 {
                            Outcome::OutOfFuel
                        } else {
                            match p {
                                ProcType::Procedure { var, body, closure } => {
                                    let newenv = Rc::new(
                                        Environment::ExtendEnvironment {
                                            var,
                                            val: rand,
                                            tail: closure,
                                        },
                                    );
                                    body.valueOf(&newenv, fuel - 1)
                                },
                            }
                        },
                        other => other,
                    },
                    Err(e) => Outcome::Error(e),
                },
                other => other,
            },
            Expression::LetrecExp { name, var, procbody, letbody } => {
                let newenv = Rc::new(
                    Environment::ExtendRecEnvironment {
                        name: name.clone(),
                        var: var.clone(),
                        body: procbody.clone(),
                        tail: env.clone(),
                    },
                );
                letbody.valueOf(&newenv, fuel)
            },
        }
    }
}

/// Law: a constant-number expression evaluates to exactly that number, in
/// every environment and at every fuel.
pub proof fn lemma_const_yields_its_number(n: i32, env: Environment, fuel: nat)
    ensures
        (Expression::ConstExp { num: n }).eval(env, fuel) == Outcome::Value(
            ExpVal::NumVal { val: n },
        ),
{
}

/// Law: the difference of an expression with itself is always zero, so the
/// zero test of that difference yields true — for every expression that
/// evaluates to a number, in every environment and at every fuel.
pub proof fn lemma_self_difference_is_zero(e: Expression, env: Environment, fuel: nat, n: i32)
    requires
        e.eval(env, fuel) == Outcome::Value(ExpVal::NumVal { val: n }),
    ensures
        (Expression::ZeroTestExp {
            exp: Box::new(Expression::DiffExp { exp1: Box::new(e), exp2: Box::new(e) }),
        }).eval(env, fuel) == Outcome::Value(ExpVal::BoolVal { val: true }),
{
    let diff = Expression::DiffExp { exp1: Box::new(e), exp2: Box::new(e) };
    assert(n.wrapping_sub(n) == 0);
    assert(diff.eval(env, fuel) == Outcome::Value(ExpVal::NumVal { val: 0 }));
}

/// The body of a countdown procedure over the names `f` (the procedure) and
/// `x` (its parameter): `if zero?(x) then 0 else (f -(x, 1))`.
pub open spec fn countdown_body(f: Identifier, x: Identifier) -> Expression {
    Expression::IfExp {
        condExp: Box::new(
            Expression::ZeroTestExp { exp: Box::new(Expression::VarExp { var: x }) },
        ),
        trueExp: Box::new(Expression::ConstExp { num: 0 }),
        falseExp: Box::new(
            Expression::CallExp {
                operator: Box::new(Expression::VarExp { var: f }),
                operand: Box::new(
                    Expression::DiffExp {
                        exp1: Box::new(Expression::VarExp { var: x }),
                        exp2: Box::new(Expression::ConstExp { num: 1 }),
                    },
                ),
            },
        ),
    }
}

/// Running the countdown body with `x` bound to `m` over its own recursive
/// frame counts `m` all the way down to zero: each round looks the
/// procedure's name up in the frame again, gets a closure over that same
/// frame, and spends one unit of fuel on the application.
proof fn lemma_countdown_body_unwinds(
    f: Identifier,
    x: Identifier,
    tail: Rc<Environment>,
    m: i32,
    fuel: nat,
)
    requires
        f@ != x@,
        0 <= m,
        m <= fuel,
    ensures
        ({
            let frame = Environment::ExtendRecEnvironment {
                name: f,
                var: x,
                body: Rc::new(countdown_body(f, x)),
                tail,
            };
            countdown_body(f, x).eval(
                Environment::ExtendEnvironment {
                    var: x,
                    val: ExpVal::NumVal { val: m },
                    tail: Rc::new(frame),
                },
                fuel,
            ) == Outcome::Value(ExpVal::NumVal { val: 0 })
        }),
    decreases m,
{
    let body = countdown_body(f, x);
    let frame = Environment::ExtendRecEnvironment {
        name: f,
        var: x,
        body: Rc::new(body),
        tail,
    };
    let env1 = Environment::ExtendEnvironment {
        var: x,
        val: ExpVal::NumVal { val: m },
        tail: Rc::new(frame),
    };
    assert(env1.spec_lookup(x@) == Ok::<ExpVal, EvalError>(ExpVal::NumVal { val: m }));
    assert((Expression::VarExp { var: x }).eval(env1, fuel) == Outcome::Value(
        ExpVal::NumVal { val: m },
    ));
    assert((Expression::ZeroTestExp {
        exp: Box::new(Expression::VarExp { var: x }),
    }).eval(env1, fuel) == Outcome::Value(ExpVal::BoolVal { val: m == 0 }));
    if m == 0 {
        assert((Expression::ConstExp { num: 0 }).eval(env1, fuel) == Outcome::Value(
            ExpVal::NumVal { val: 0 },
        ));
    } else {
        let closure = ExpVal::ProcVal {
            val: ProcType::Procedure { var: x, body: Rc::new(body), closure: Rc::new(frame) },
        };
        assert(frame.spec_lookup(f@) == Ok::<ExpVal, EvalError>(closure));
        assert(env1.spec_lookup(f@) == Ok::<ExpVal, EvalError>(closure));
        assert((Expression::VarExp { var: f }).eval(env1, fuel) == Outcome::Value(closure));
        assert((Expression::ConstExp { num: 1 }).eval(env1, fuel) == Outcome::Value(
            ExpVal::NumVal { val: 1 },
        ));
        assert(m.wrapping_sub(1) == m - 1);
        assert((Expression::DiffExp {
            exp1: Box::new(Expression::VarExp { var: x }),
            exp2: Box::new(Expression::ConstExp { num: 1 }),
        }).eval(env1, fuel) == Outcome::Value(ExpVal::NumVal { val: (m - 1) as i32 }));
        lemma_countdown_body_unwinds(f, x, tail, (m - 1) as i32, (fuel - 1) as nat);
        assert((Expression::CallExp {
            operator: Box::new(Expression::VarExp { var: f }),
            operand: Box::new(
                Expression::DiffExp {
                    exp1: Box::new(Expression::VarExp { var: x }),
                    exp2: Box::new(Expression::ConstExp { num: 1 }),
                },
            ),
        }).eval(env1, fuel) == Outcome::Value(ExpVal::NumVal { val: 0 }));
    }
}

/// Law: a recursive binding carries a procedure that may call itself any
/// bounded number of times.  For every pair of distinct names, every start
/// value `n` and every environment, the countdown program
/// `letrec f(x) = if zero?(x) then 0 else (f -(x, 1)) in (f n)`
/// terminates with `Number(0)` whenever the fuel covers its `n + 1`
/// applications — the self-referential frame reconstruction reaches any
/// finite depth, with no mutation anywhere.
pub proof fn lemma_countdown_terminates_at_zero(
    f: Identifier,
    x: Identifier,
    n: i32,
    env: Environment,
    fuel: nat,
)
    requires
        f@ != x@,
        0 <= n,
        n < fuel,
    ensures
        (Expression::LetrecExp {
            name: f,
            var: x,
            procbody: Rc::new(countdown_body(f, x)),
            letbody: Box::new(
                Expression::CallExp {
                    operator: Box::new(Expression::VarExp { var: f }),
                    operand: Box::new(Expression::ConstExp { num: n }),
                },
            ),
        }).eval(env, fuel) == Outcome::Value(ExpVal::NumVal { val: 0 }),
{
    let body = countdown_body(f, x);
    let frame = Environment::ExtendRecEnvironment {
        name: f,
        var: x,
        body: Rc::new(body),
        tail: Rc::new(env),
    };
    let closure = ExpVal::ProcVal {
        val: ProcType::Procedure { var: x, body: Rc::new(body), closure: Rc::new(frame) },
    };
    assert(frame.spec_lookup(f@) == Ok::<ExpVal, EvalError>(closure));
    assert((Expression::VarExp { var: f }).eval(frame, fuel) == Outcome::Value(closure));
    assert((Expression::ConstExp { num: n }).eval(frame, fuel) == Outcome::Value(
        ExpVal::NumVal { val: n },
    ));
    lemma_countdown_body_unwinds(f, x, Rc::new(env), n, (fuel - 1) as nat);
    assert((Expression::CallExp {
        operator: Box::new(Expression::VarExp { var: f }),
        operand: Box::new(Expression::ConstExp { num: n }),
    }).eval(frame, fuel) == Outcome::Value(ExpVal::NumVal { val: 0 }));
}

/// Law: applying a procedure runs its body in the environment the closure
/// captured when the procedure value was made, extended with the argument
/// binding alone.  The caller's environment decides only what the operator
/// and operand evaluate to; it plays no part in the body's evaluation,
/// which is what makes the scoping lexical rather than dynamic.
pub proof fn lemma_call_runs_body_in_captured_environment(
    operator: Expression,
    operand: Expression,
    env: Environment,
    fuel: nat,
    var: Identifier,
    body: Expression,
    closure: Environment,
    arg: ExpVal,
)
    requires
        fuel > 0,
        operator.eval(env, fuel) == Outcome::Value(
            ExpVal::ProcVal {
                val: ProcType::Procedure { var, body: Rc::new(body), closure: Rc::new(closure) },
            },
        ),
        operand.eval(env, fuel) == Outcome::Value(arg),
    ensures
        (Expression::CallExp { operator: Box::new(operator), operand: Box::new(operand) }).eval(
            env,
            fuel,
        ) == body.eval(
            Environment::ExtendEnvironment { var, val: arg, tail: Rc::new(closure) },
            (fuel - 1) as nat,
        ),
{
}

} // verus!

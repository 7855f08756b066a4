use letrec::ast::Expression;
use letrec::env::Environment;
use letrec::value::{EvalError, ExpVal, Outcome, ProcType};
use std::rc::Rc;

const FUEL: u64 = 1000;

fn num(n: i32) -> Expression {
    Expression::ConstExp { num: n }
}

fn var(name: &str) -> Expression {
    Expression::VarExp { var: name.to_string() }
}

fn diff(a: Expression, b: Expression) -> Expression {
    Expression::DiffExp { exp1: Box::new(a), exp2: Box::new(b) }
}

fn zero(e: Expression) -> Expression {
    Expression::ZeroTestExp { exp: Box::new(e) }
}

fn ifx(c: Expression, t: Expression, f: Expression) -> Expression {
    Expression::IfExp { condExp: Box::new(c), trueExp: Box::new(t), falseExp: Box::new(f) }
}

fn letx(v: &str, val: Expression, body: Expression) -> Expression {
    Expression::LetExp { var: v.to_string(), valExp: Box::new(val), bodyExp: Box::new(body) }
}

fn proc(v: &str, body: Expression) -> Expression {
    Expression::ProcExp { var: v.to_string(), body: Rc::new(body) }
}

fn call(op: Expression, arg: Expression) -> Expression {
    Expression::CallExp { operator: Box::new(op), operand: Box::new(arg) }
}

fn letrec(name: &str, v: &str, pbody: Expression, lbody: Expression) -> Expression {
    Expression::LetrecExp {
        name: name.to_string(),
        var: v.to_string(),
        procbody: Rc::new(pbody),
        letbody: Box::new(lbody),
    }
}

fn empty() -> Rc<Environment> {
    Rc::new(Environment::EmptyEnvironment)
}

fn extend(var: &str, val: ExpVal, tail: Rc<Environment>) -> Rc<Environment> {
    Rc::new(Environment::ExtendEnvironment { var: var.to_string(), val, tail })
}

fn run(e: &Expression) -> Outcome {
    e.valueOf(&empty(), FUEL)
}

fn as_num(o: Outcome) -> i32 {
    match o {
        Outcome::Value(ExpVal::NumVal { val }) => val,
        _ => panic!("expected a number"),
    }
}

fn as_bool(o: Outcome) -> bool {
    match o {
        Outcome::Value(ExpVal::BoolVal { val }) => val,
        _ => panic!("expected a boolean"),
    }
}

fn as_err(o: Outcome) -> EvalError {
    match o {
        Outcome::Error(e) => e,
        _ => panic!("expected an error"),
    }
}

#[test]
fn constant_evaluates_to_its_number_in_any_environment() {
    assert_eq!(as_num(num(7).valueOf(&empty(), 0)), 7);
    let env = extend("x", ExpVal::NumVal { val: 3 }, empty());
    assert_eq!(as_num(num(-4).valueOf(&env, 0)), -4);
}

#[test]
fn lookup_returns_most_recent_binding_of_a_shadowed_name() {
    let env = extend(
        "x",
        ExpVal::NumVal { val: 2 },
        extend(
            "y",
            ExpVal::NumVal { val: 9 },
            extend("x", ExpVal::NumVal { val: 1 }, empty()),
        ),
    );
    match Environment::lookup(&env, &"x".to_string()) {
        Ok(ExpVal::NumVal { val }) => assert_eq!(val, 2),
        _ => panic!("expected the most recent binding of x"),
    }
    match Environment::lookup(&env, &"y".to_string()) {
        Ok(ExpVal::NumVal { val }) => assert_eq!(val, 9),
        _ => panic!("expected the binding of y"),
    }
}

#[test]
fn lookup_in_empty_environment_fails() {
    assert_eq!(
        Environment::lookup(&empty(), &"x".to_string()).unwrap_err(),
        EvalError::NameNotFound
    );
}

fn sample() -> Expression {
    letx("x", num(4), diff(var("x"), num(1)))
}

#[test]
fn zero_test_of_an_expression_minus_itself_is_true() {
    assert!(as_bool(run(&zero(diff(sample(), sample())))));
}

#[test]
fn letrec_procedure_calls_itself_a_bounded_number_of_times() {
    // double(x) = if zero?(x) then 0 else -((double -(x,1)), -2)
    let program = letrec(
        "double",
        "x",
        ifx(
            zero(var("x")),
            num(0),
            diff(call(var("double"), diff(var("x"), num(1))), num(-2)),
        ),
        call(var("double"), num(6)),
    );
    assert_eq!(as_num(run(&program)), 12);
}

#[test]
fn letrec_countdown_reaches_zero_without_mutation() {
    // countdown(x) = if zero?(x) then 0 else (countdown -(x,1))
    let program = letrec(
        "countdown",
        "x",
        ifx(zero(var("x")), num(0), call(var("countdown"), diff(var("x"), num(1)))),
        call(var("countdown"), num(25)),
    );
    assert_eq!(as_num(run(&program)), 0);
}

#[test]
fn applying_a_closure_uses_its_creation_environment() {
    // let a = 1 in let f = proc(x) -(x, a) in let a = 100 in (f 10)
    let program = letx(
        "a",
        num(1),
        letx(
            "f",
            proc("x", diff(var("x"), var("a"))),
            letx("a", num(100), call(var("f"), num(10))),
        ),
    );
    // 10 - 1 under lexical scoping; 10 - 100 would betray dynamic scoping.
    assert_eq!(as_num(run(&program)), 9);
}

#[test]
fn a_closure_outlives_the_scope_that_made_it() {
    // let f = (let a = 5 in proc(x) -(x, a)) in (f 3)
    let program = letx(
        "f",
        letx("a", num(5), proc("x", diff(var("x"), var("a")))),
        call(var("f"), num(3)),
    );
    assert_eq!(as_num(run(&program)), -2);
}

#[test]
fn if_on_a_number_condition_fails_with_not_a_boolean() {
    let program = ifx(num(3), num(1), num(2));
    assert_eq!(as_err(run(&program)), EvalError::NotABoolean);
}

#[test]
fn difference_of_a_procedure_fails_with_not_a_number() {
    let program = diff(num(1), proc("x", var("x")));
    assert_eq!(as_err(run(&program)), EvalError::NotANumber);
}

#[test]
fn calling_a_number_fails_with_not_a_procedure() {
    let program = call(num(1), num(2));
    assert_eq!(as_err(run(&program)), EvalError::NotAProcedure);
}

#[test]
fn unbound_variable_fails_with_name_not_found() {
    assert_eq!(as_err(run(&var("x"))), EvalError::NameNotFound);
}

#[test]
fn let_binds_the_value_for_the_body() {
    // let x = 5 in -(x, 3)
    let program = letx("x", num(5), diff(var("x"), num(3)));
    assert_eq!(as_num(run(&program)), 2);
}

#[test]
fn if_takes_the_branch_the_zero_test_picks() {
    // if zero?(0) then 1 else 2
    let program = ifx(zero(num(0)), num(1), num(2));
    assert_eq!(as_num(run(&program)), 1);
    let other = ifx(zero(num(3)), num(1), num(2));
    assert_eq!(as_num(run(&other)), 2);
}

#[test]
fn an_application_costs_one_unit_of_fuel() {
    let program = call(proc("x", var("x")), num(1));
    assert!(matches!(program.valueOf(&empty(), 0), Outcome::OutOfFuel));
    assert_eq!(as_num(program.valueOf(&empty(), 1)), 1);
}

#[test]
fn unbounded_recursion_runs_out_of_fuel() {
    // loop(x) = (loop x), applied once: never finishes, whatever the fuel.
    let program = letrec(
        "loop",
        "x",
        call(var("loop"), var("x")),
        call(var("loop"), num(0)),
    );
    assert!(matches!(program.valueOf(&empty(), 500), Outcome::OutOfFuel));
}

#[test]
fn difference_wraps_around_on_overflow() {
    let program = diff(num(i32::MIN), num(1));
    assert_eq!(as_num(run(&program)), i32::MAX);
}

#[test]
fn narrowing_a_number() {
    assert_eq!(ExpVal::NumVal { val: 5 }.toNum().unwrap(), 5);
    assert_eq!(
        ExpVal::BoolVal { val: true }.toNum().unwrap_err(),
        EvalError::NotANumber
    );
}

#[test]
fn narrowing_a_boolean() {
    assert!(ExpVal::BoolVal { val: true }.toBool().unwrap());
    assert_eq!(
        ExpVal::NumVal { val: 0 }.toBool().unwrap_err(),
        EvalError::NotABoolean
    );
}

#[test]
fn narrowing_a_procedure() {
    let v = ExpVal::ProcVal {
        val: ProcType::Procedure {
            var: "x".to_string(),
            body: Rc::new(var("x")),
            closure: empty(),
        },
    };
    match v.toProc() {
        Ok(ProcType::Procedure { var, .. }) => assert_eq!(var, "x"),
        Err(_) => panic!("expected a procedure"),
    }
    assert_eq!(
        ExpVal::NumVal { val: 0 }.toProc().unwrap_err(),
        EvalError::NotAProcedure
    );
}

#[test]
fn recursive_frame_lookup_yields_a_closure_over_that_frame() {
    let frame = Rc::new(Environment::ExtendRecEnvironment {
        name: "f".to_string(),
        var: "x".to_string(),
        body: Rc::new(var("x")),
        tail: extend("y", ExpVal::NumVal { val: 8 }, empty()),
    });
    match Environment::lookup(&frame, &"f".to_string()) {
        Ok(ExpVal::ProcVal { val: ProcType::Procedure { var, .. } }) => assert_eq!(var, "x"),
        _ => panic!("expected the recursive procedure"),
    }
    match Environment::lookup(&frame, &"y".to_string()) {
        Ok(ExpVal::NumVal { val }) => assert_eq!(val, 8),
        _ => panic!("expected the tail binding of y"),
    }
}

#[test]
fn inner_let_shadows_outer_let() {
    let program = letx("x", num(1), letx("x", num(2), var("x")));
    assert_eq!(as_num(run(&program)), 2);
}

use sx_eval::env::Env;
use sx_eval::eval::{eval, EvalError};
use sx_eval::primitive::{plus_primitive, PrimOp, Primitive};
use sx_eval::sx::Sx;

fn sym(s: &str) -> Sx {
    Sx::Symbol(s.to_string())
}

fn string(s: &str) -> Sx {
    Sx::String(s.to_string())
}

fn num(n: i64) -> Sx {
    Sx::Integer(n)
}

fn quote(e: Sx) -> Sx {
    Sx::Quote(Box::new(e))
}

fn plus_env() -> Env {
    let mut env = Env::new();
    env.define(&"+".to_string(), &Sx::SxPrimitive(plus_primitive()));
    env
}

#[test]
fn test_undefined_bare_symbol() {
    let mut env = Env::new();
    assert_eq!(
        eval(&mut env, &sym("nowhere")),
        Err(EvalError::Undefined("nowhere".to_string()))
    );
}

#[test]
fn test_primitive_self_eval() {
    let mut env = Env::new();
    let p = Sx::SxPrimitive(plus_primitive());
    assert_eq!(eval(&mut env, &p), Ok(Sx::SxPrimitive(plus_primitive())));
}

#[test]
fn test_empty_list_is_not_nil() {
    let mut env = Env::new();
    let r = eval(&mut env, &Sx::List(vec![])).unwrap();
    assert_eq!(r, Sx::List(vec![]));
    assert_ne!(r, Sx::Nil);
}

#[test]
fn test_unknown_list_shape() {
    let mut env = Env::new();
    let form = Sx::List(vec![num(1), num(2), num(3)]);
    assert_eq!(
        eval(&mut env, &form),
        Err(EvalError::Unknown(Sx::List(vec![num(1), num(2), num(3)])))
    );
}

#[test]
fn test_not_a_function() {
    let mut env = Env::new();
    assert_eq!(
        eval(&mut env, &Sx::List(vec![sym("def"), sym("x"), num(1)])),
        Ok(sym("x"))
    );
    assert_eq!(
        eval(&mut env, &Sx::List(vec![sym("x"), num(1), num(2)])),
        Err(EvalError::NotAFunction(sym("x")))
    );
}

#[test]
fn test_primitive_too_few_args() {
    let mut env = Env::new();
    let two_floor = Primitive { name: "+".to_string(), min_arity: 2, op: PrimOp::Plus };
    env.define(&"add2".to_string(), &Sx::SxPrimitive(two_floor));
    assert_eq!(
        eval(&mut env, &Sx::List(vec![sym("add2"), num(1)])),
        Err(EvalError::PrimitiveTooFewArgs("+".to_string(), 2, 1))
    );
    assert_eq!(
        eval(&mut env, &Sx::List(vec![sym("add2"), num(1), num(2), num(3)])),
        Ok(num(6))
    );
}

#[test]
fn test_plus_rejects_non_integer() {
    let mut env = plus_env();
    assert_eq!(
        eval(&mut env, &Sx::List(vec![sym("+"), num(1), string("two")])),
        Err(EvalError::BadArg(sym("+")))
    );
}

#[test]
fn test_plus_rejects_overflow() {
    let mut env = plus_env();
    assert_eq!(
        eval(&mut env, &Sx::List(vec![sym("+"), num(i64::MAX), num(1)])),
        Err(EvalError::BadArg(sym("+")))
    );
    assert_eq!(
        eval(&mut env, &Sx::List(vec![sym("+"), num(i64::MIN), num(-1)])),
        Err(EvalError::BadArg(sym("+")))
    );
    assert_eq!(
        eval(&mut env, &Sx::List(vec![sym("+"), num(i64::MAX), num(1), num(-2)])),
        Err(EvalError::BadArg(sym("+")))
    );
}

#[test]
fn test_plus_arg_error_is_fail_fast() {
    let mut env = plus_env();
    let form = Sx::List(vec![sym("+"), num(1), sym("missing"), sym("also-missing")]);
    assert_eq!(eval(&mut env, &form), Err(EvalError::Undefined("missing".to_string())));
}

#[test]
fn test_quote_arity_errors() {
    let mut env = Env::new();
    assert_eq!(
        eval(&mut env, &Sx::List(vec![sym("quote")])),
        Err(EvalError::SpecialTooFewArgs("quote".to_string()))
    );
    assert_eq!(
        eval(&mut env, &Sx::List(vec![sym("quote"), num(1), num(2)])),
        Err(EvalError::SpecialTooManyArgs("quote".to_string()))
    );
}

#[test]
fn test_if_arity_errors() {
    let mut env = Env::new();
    assert_eq!(
        eval(&mut env, &Sx::List(vec![sym("if"), Sx::Boolean(true)])),
        Err(EvalError::SpecialTooFewArgs("if".to_string()))
    );
    assert_eq!(
        eval(
            &mut env,
            &Sx::List(vec![sym("if"), Sx::Boolean(true), num(1), num(2), num(3)])
        ),
        Err(EvalError::SpecialTooManyArgs("if".to_string()))
    );
}

#[test]
fn test_redefine_keeps_first_binding() {
    let mut env = Env::new();
    assert_eq!(
        eval(&mut env, &Sx::List(vec![sym("def"), sym("foo"), num(1)])),
        Ok(sym("foo"))
    );
    assert_eq!(
        eval(&mut env, &Sx::List(vec![sym("def"), sym("foo"), num(2)])),
        Err(EvalError::Redefine("foo".to_string()))
    );
    assert_eq!(eval(&mut env, &sym("foo")), Ok(num(1)));
}

#[test]
fn test_def_failure_makes_no_binding() {
    let mut env = Env::new();
    assert_eq!(
        eval(&mut env, &Sx::List(vec![sym("def"), sym("foo"), sym("missing")])),
        Err(EvalError::Undefined("missing".to_string()))
    );
    assert_eq!(eval(&mut env, &sym("foo")), Err(EvalError::Undefined("foo".to_string())));
}

#[test]
fn test_def_inside_condition_threads_environment() {
    let mut env = Env::new();
    let form = Sx::List(vec![
        sym("if"),
        Sx::List(vec![sym("def"), sym("a"), Sx::Boolean(true)]),
        sym("a"),
        string("sad"),
    ]);
    assert_eq!(eval(&mut env, &form), Ok(Sx::Boolean(true)));
}

#[test]
fn test_unicode_string_round_trip() {
    let mut env = Env::new();
    let beijing = string("北京市");
    assert_eq!(eval(&mut env, &beijing), Ok(string("北京市")));
    assert_eq!(eval(&mut env, &quote(beijing)), Ok(string("北京市")));
    assert_eq!(
        eval(&mut env, &Sx::List(vec![sym("def"), sym("city"), string("北京市")])),
        Ok(sym("city"))
    );
    assert_eq!(eval(&mut env, &sym("city")), Ok(string("北京市")));
}

#[test]
fn test_env_lookup_and_define() {
    let mut env = Env::new();
    assert!(env.lookup(&"x".to_string()).is_none());
    env.define(&"x".to_string(), &num(7));
    assert_eq!(env.lookup(&"x".to_string()), Some(&num(7)));
    assert!(env.lookup(&"y".to_string()).is_none());
}

#[test]
fn test_duplicate_preserves_value() {
    let original = Sx::List(vec![
        Sx::Nil,
        Sx::Boolean(true),
        num(-5),
        string("北京市"),
        sym("foo"),
        quote(Sx::List(vec![num(1), num(2)])),
        Sx::SxPrimitive(plus_primitive()),
    ]);
    assert_eq!(original.duplicate(), original);
}

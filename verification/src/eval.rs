//! The recursive evaluator: the operational semantics of the language.
//!
//! [`eval_spec`] is the semantics itself, a definitional interpreter over the
//! mathematical models of expressions and environments. The executable
//! [`eval`] is proved to return exactly what [`eval_spec`] says, and to leave
//! the environment exactly as [`eval_spec`] says, on every input.

use vstd::prelude::*;

use crate::env::Env;
use crate::primitive::{invoke, invoke_spec, PrimitiveError};
use crate::sx::{sx_views, Sx, SxSpec, SxSymbol};

verus! {

broadcast use crate::sx::lemma_sx_views_pointwise;

/// Everything that can go wrong during evaluation. Errors are values: every
/// evaluation path returns either a result or the first error encountered.
#[derive(Debug, PartialEq, Eq)]
pub enum EvalError {
    /// A symbol in evaluated position has no binding.
    Undefined(SxSymbol),
    /// `def` targeted an already-bound symbol.
    Redefine(SxSymbol),
    /// A special form received fewer argument expressions than its arity.
    SpecialTooFewArgs(SxSymbol),
    /// A special form received more argument expressions than its arity.
    SpecialTooManyArgs(SxSymbol),
    /// `def`'s first argument is not a symbol.
    DefineBadSymbol(Sx),
    /// A primitive rejected its evaluated arguments; carries the call-site
    /// function-position expression as written.
    BadArg(Sx),
    /// The function position evaluated to a value that is not callable.
    NotAFunction(Sx),
    /// A primitive was invoked with fewer arguments than its minimum arity:
    /// name, minimum, actual.
    PrimitiveTooFewArgs(String, usize, usize),
    /// A non-empty list form that matches no recognized shape.
    Unknown(Sx),
}

/// The mathematical model of an [`EvalError`].
pub enum EvalErrorSpec {
    Undefined(Seq<char>),
    Redefine(Seq<char>),
    SpecialTooFewArgs(Seq<char>),
    SpecialTooManyArgs(Seq<char>),
    DefineBadSymbol(SxSpec),
    BadArg(SxSpec),
    NotAFunction(SxSpec),
    PrimitiveTooFewArgs(Seq<char>, int, int),
    Unknown(SxSpec),
}

impl View for EvalError {
    type V = EvalErrorSpec;

    open spec fn view(&self) -> EvalErrorSpec {
        match *self {
            EvalError::Undefined(ref s) => EvalErrorSpec::Undefined(s@),
            EvalError::Redefine(ref s) => EvalErrorSpec::Redefine(s@),
            EvalError::SpecialTooFewArgs(ref s) => EvalErrorSpec::SpecialTooFewArgs(s@),
            EvalError::SpecialTooManyArgs(ref s) => EvalErrorSpec::SpecialTooManyArgs(s@),
            EvalError::DefineBadSymbol(ref e) => EvalErrorSpec::DefineBadSymbol(e@),
            EvalError::BadArg(ref e) => EvalErrorSpec::BadArg(e@),
            EvalError::NotAFunction(ref e) => EvalErrorSpec::NotAFunction(e@),
            EvalError::PrimitiveTooFewArgs(ref n, min, got) => EvalErrorSpec::PrimitiveTooFewArgs(
                n@,
                min as int,
                got as int,
            ),
            EvalError::Unknown(ref e) => EvalErrorSpec::Unknown(e@),
        }
    }
}

/// What evaluation yields: the resulting value, or one tagged error.
pub type EvalResult = Result<Sx, EvalError>;

/// The model of an evaluation outcome.
pub open spec fn result_view(r: EvalResult) -> Result<SxSpec, EvalErrorSpec> {
    match r {
        Ok(v) => Ok(v@),
        Err(e) => Err(e@),
    }
}

/// The model of an argument-evaluation outcome.
pub open spec fn args_result_view(r: Result<Vec<Sx>, EvalError>) -> Result<
    Seq<SxSpec>,
    EvalErrorSpec,
> {
    match r {
        Ok(vs) => Ok(sx_views(vs@)),
        Err(e) => Err(e@),
    }
}

/// The model environment: symbol text to value model.
pub type EnvSpec = Map<Seq<char>, SxSpec>;

/// The special forms the dispatcher knows, each with a fixed exact arity.
#[derive(Clone, Copy, Debug, PartialEq, Eq)]
pub enum SpecialForm {
    Def,
    If,
    Quote,
}

/// Whether a condition value selects the else-branch of `if`: only `Nil` and
/// `false` are falsy; every other value is truthy.
pub open spec fn is_falsy(v: SxSpec) -> bool {
    v == SxSpec::Nil || v == SxSpec::Boolean(false)
}

/// Whether an expression evaluates to itself with no further reduction.
pub open spec fn is_self_evaluating(e: SxSpec) -> bool {
    match e {
        SxSpec::Nil => true,
        SxSpec::Boolean(_) => true,
        SxSpec::Integer(_) => true,
        SxSpec::Str(_) => true,
        SxSpec::Primitive(_) => true,
        SxSpec::List(l) => l.len() == 0,
        _ => false,
    }
}

/// The semantics of evaluation: what evaluating `e` in environment `env`
/// yields, and the environment it leaves behind. Dispatch, checked in order:
/// self-evaluating values; the empty list; `quote` shielding; symbol lookup;
/// non-empty lists headed by a symbol (special form or application); and any
/// other non-empty list, which is unknown.
pub open spec fn eval_spec(env: EnvSpec, e: SxSpec) -> (Result<SxSpec, EvalErrorSpec>, EnvSpec)
    decreases e, 0int,
{
    match e {
        SxSpec::Nil => (Ok(e), env),
        SxSpec::Boolean(_) => (Ok(e), env),
        SxSpec::Integer(_) => (Ok(e), env),
        SxSpec::Str(_) => (Ok(e), env),
        SxSpec::Primitive(_) => (Ok(e), env),
        SxSpec::Quote(inner) => (Ok(*inner), env),
        SxSpec::Symbol(s) => if env.contains_key(s) {
            (Ok(env[s]), env)
        } else {
            (Err(EvalErrorSpec::Undefined(s)), env)
        },
        SxSpec::List(l) => if l.len() == 0 {
            (Ok(e), env)
        } else {
            match l[0] {
                SxSpec::Symbol(name) => if name == "def"@ {
                    apply_special_spec(env, name, SpecialForm::Def, l)
                } else if name == "if"@ {
                    apply_special_spec(env, name, SpecialForm::If, l)
                } else if name == "quote"@ {
                    apply_special_spec(env, name, SpecialForm::Quote, l)
                } else {
                    apply_spec(env, name, l.drop_first())
                },
                _ => (Err(EvalErrorSpec::Unknown(e)), env),
            }
        },
    }
}

/// The fixed, exact arity of each special form.
pub open spec fn special_arity(form: SpecialForm) -> int {
    match form {
        SpecialForm::Def => 2,
        SpecialForm::If => 3,
        SpecialForm::Quote => 1,
    }
}

/// The semantics of special-form dispatch for the form list `l` (head symbol
/// included): the argument expressions are counted unevaluated against the
/// form's exact arity before the form's own rule applies.
pub open spec fn apply_special_spec(
    env: EnvSpec,
    name: Seq<char>,
    form: SpecialForm,
    l: Seq<SxSpec>,
) -> (Result<SxSpec, EvalErrorSpec>, EnvSpec)
    decreases l, 1int,
{
    if l.len() - 1 < special_arity(form) {
        (Err(EvalErrorSpec::SpecialTooFewArgs(name)), env)
    } else if l.len() - 1 > special_arity(form) {
        (Err(EvalErrorSpec::SpecialTooManyArgs(name)), env)
    } else {
        match form {
            SpecialForm::Def => special_def_spec(env, l),
            SpecialForm::If => special_if_spec(env, l),
            SpecialForm::Quote => (Ok(l[1]), env),
        }
    }
}

/// The semantics of `def` on the form list `l == [def, binding, value]`: the
/// binding must be a symbol not yet bound; then the value expression is
/// evaluated, the symbol is bound to the result, and the symbol itself is the
/// result of the form. On any failure no binding is made.
pub open spec fn special_def_spec(env: EnvSpec, l: Seq<SxSpec>) -> (
    Result<SxSpec, EvalErrorSpec>,
    EnvSpec,
)
    decreases l, 0int,
    when l.len() == 3
{
    match l[1] {
        SxSpec::Symbol(s) => if env.contains_key(s) {
            (Err(EvalErrorSpec::Redefine(s)), env)
        } else {
            let (r, env1) = eval_spec(env, l[2]);
            match r {
                Ok(v) => (Ok(SxSpec::Symbol(s)), env1.insert(s, v)),
                Err(err) => (Err(err), env1),
            }
        },
        _ => (Err(EvalErrorSpec::DefineBadSymbol(l[1])), env),
    }
}

/// The semantics of `if` on the form list `l == [if, cond, then, else]`: the
/// condition is evaluated exactly once; the branch the condition selects is
/// evaluated and the other branch is never touched.
pub open spec fn special_if_spec(env: EnvSpec, l: Seq<SxSpec>) -> (
    Result<SxSpec, EvalErrorSpec>,
    EnvSpec,
)
    decreases l, 0int,
    when l.len() == 4
{
    let (r, env1) = eval_spec(env, l[1]);
    match r {
        Ok(cond) => if is_falsy(cond) {
            eval_spec(env1, l[3])
        } else {
            eval_spec(env1, l[2])
        },
        Err(err) => (Err(err), env1),
    }
}

/// The semantics of function application for a form headed by the symbol
/// `name` with unevaluated argument expressions `args`: the head is looked up
/// first; it must be bound to a primitive; the arguments are then evaluated
/// left to right, counted against the primitive's minimum arity, and handed to
/// the primitive's operation. A rejected invocation reports the head
/// expression as written.
pub open spec fn apply_spec(env: EnvSpec, name: Seq<char>, args: Seq<SxSpec>) -> (
    Result<SxSpec, EvalErrorSpec>,
    EnvSpec,
)
    decreases args, 1int,
{
    if !env.contains_key(name) {
        (Err(EvalErrorSpec::Undefined(name)), env)
    } else {
        match env[name] {
            SxSpec::Primitive(p) => {
                let (rs, env1) = eval_args_spec(env, args);
                match rs {
                    Ok(vs) => if vs.len() < p.min_arity {
                        (
                            Err(
                                EvalErrorSpec::PrimitiveTooFewArgs(
                                    p.name,
                                    p.min_arity as int,
                                    vs.len() as int,
                                ),
                            ),
                            env1,
                        )
                    } else {
                        match invoke_spec(p.op, vs) {
                            Ok(v) => (Ok(v), env1),
                            Err(PrimitiveError::BadArg) => (
                                Err(EvalErrorSpec::BadArg(SxSpec::Symbol(name))),
                                env1,
                            ),
                        }
                    },
                    Err(err) => (Err(err), env1),
                }
            },
            _ => (Err(EvalErrorSpec::NotAFunction(SxSpec::Symbol(name))), env),
        }
    }
}

/// The semantics of evaluating argument expressions strictly left to right:
/// all the values, or the first error, after which no further argument is
/// evaluated.
pub open spec fn eval_args_spec(env: EnvSpec, args: Seq<SxSpec>) -> (
    Result<Seq<SxSpec>, EvalErrorSpec>,
    EnvSpec,
)
    decreases args, 0int,
{
    if args.len() == 0 {
        (Ok(Seq::empty()), env)
    } else {
        let (r, env1) = eval_spec(env, args[0]);
        match r {
            Ok(v) => {
                let (rs, env2) = eval_args_spec(env1, args.drop_first());
                match rs {
                    Ok(vs) => (Ok(seq![v] + vs), env2),
                    Err(err) => (Err(err), env2),
                }
            },
            Err(err) => (Err(err), env1),
        }
    }
}

/// Self-evaluating forms are fixed points: evaluating `Nil`, a boolean, an
/// integer, a string, the empty list or a primitive yields the value itself
/// and leaves the environment unchanged.
pub proof fn lemma_self_evaluating_fixed_point(env: EnvSpec, e: SxSpec)
    requires
        is_self_evaluating(e),
    ensures
        eval_spec(env, e) == (Result::<SxSpec, EvalErrorSpec>::Ok(e), env),
{
}

/// Quoting is a one-step shield: evaluating a quoted expression yields the
/// expression itself, unevaluated, with the environment untouched; evaluating
/// a doubly quoted expression strips exactly one quote layer.
pub proof fn lemma_quote_shield(env: EnvSpec, x: SxSpec)
    ensures
        eval_spec(env, SxSpec::Quote(Box::new(x))) == (
            Result::<SxSpec, EvalErrorSpec>::Ok(x),
            env,
        ),
        eval_spec(env, SxSpec::Quote(Box::new(SxSpec::Quote(Box::new(x))))) == (
            Result::<SxSpec, EvalErrorSpec>::Ok(SxSpec::Quote(Box::new(x))),
            env,
        ),
{
}

/// A `def` of an already-bound symbol fails with `Redefine`, changes no
/// binding, and the symbol keeps evaluating to its original value.
pub proof fn lemma_def_write_once(env: EnvSpec, s: Seq<char>, v: SxSpec)
    requires
        env.contains_key(s),
    ensures
        eval_spec(env, SxSpec::List(seq![SxSpec::Symbol("def"@), SxSpec::Symbol(s), v])) == (
            Result::<SxSpec, EvalErrorSpec>::Err(EvalErrorSpec::Redefine(s)),
            env,
        ),
        eval_spec(env, SxSpec::Symbol(s)) == (Result::<SxSpec, EvalErrorSpec>::Ok(env[s]), env),
{
}

/// A first `def` of an unbound symbol binds it to the evaluated value and
/// returns the symbol itself; a second `def` of the same symbol then fails
/// with `Redefine`, and the symbol still evaluates to the first value.
pub proof fn lemma_def_then_redefine(
    env: EnvSpec,
    s: Seq<char>,
    v1: SxSpec,
    v2: SxSpec,
    val: SxSpec,
    env1: EnvSpec,
)
    requires
        !env.contains_key(s),
        eval_spec(env, v1) == (Result::<SxSpec, EvalErrorSpec>::Ok(val), env1),
    ensures
        eval_spec(env, SxSpec::List(seq![SxSpec::Symbol("def"@), SxSpec::Symbol(s), v1])) == (
            Result::<SxSpec, EvalErrorSpec>::Ok(SxSpec::Symbol(s)),
            env1.insert(s, val),
        ),
        eval_spec(
            env1.insert(s, val),
            SxSpec::List(seq![SxSpec::Symbol("def"@), SxSpec::Symbol(s), v2]),
        ) == (Result::<SxSpec, EvalErrorSpec>::Err(EvalErrorSpec::Redefine(s)), env1.insert(s, val)),
        eval_spec(env1.insert(s, val), SxSpec::Symbol(s)) == (
            Result::<SxSpec, EvalErrorSpec>::Ok(val),
            env1.insert(s, val),
        ),
{
}

/// `if` short-circuits: once the condition's value is known, the form's whole
/// outcome is exactly the selected branch's outcome — it does not depend on
/// the branch the condition rejects, which is never evaluated.
pub proof fn lemma_if_short_circuit(
    env: EnvSpec,
    c: SxSpec,
    t: SxSpec,
    f: SxSpec,
    cv: SxSpec,
    env1: EnvSpec,
)
    requires
        eval_spec(env, c) == (Result::<SxSpec, EvalErrorSpec>::Ok(cv), env1),
    ensures
        !is_falsy(cv) ==> eval_spec(env, SxSpec::List(seq![SxSpec::Symbol("if"@), c, t, f]))
            == eval_spec(env1, t),
        is_falsy(cv) ==> eval_spec(env, SxSpec::List(seq![SxSpec::Symbol("if"@), c, t, f]))
            == eval_spec(env1, f),
{
    reveal_strlit("def");
    reveal_strlit("if");
    assert("if"@.len() == 2);
    assert("def"@.len() == 3);
}

/// Whether no `def` form stands anywhere in an expression. A quoted
/// sub-expression counts as free of `def` outright: quoting shields it from
/// evaluation altogether.
pub open spec fn def_free(e: SxSpec) -> bool
    decreases e, 1int,
{
    match e {
        SxSpec::List(l) => l.len() == 0 || (l[0] != SxSpec::Symbol("def"@) && all_def_free(l)),
        _ => true,
    }
}

/// Whether every expression in a sequence is free of `def` forms.
pub open spec fn all_def_free(l: Seq<SxSpec>) -> bool
    decreases l, 0int,
{
    if l.len() == 0 {
        true
    } else {
        def_free(l[0]) && all_def_free(l.drop_first())
    }
}

proof fn lemma_all_def_free_index(l: Seq<SxSpec>, i: int)
    requires
        all_def_free(l),
        0 <= i < l.len(),
    ensures
        def_free(l[i]),
    decreases l.len(),
{
    if i > 0 {
        lemma_all_def_free_index(l.drop_first(), i - 1);
    }
}

/// Only `def` changes the environment: evaluating an expression in which no
/// `def` form stands leaves the environment exactly as it was, whether the
/// evaluation succeeds or fails.
pub proof fn lemma_only_def_mutates(env: EnvSpec, e: SxSpec)
    requires
        def_free(e),
    ensures
        eval_spec(env, e).1 == env,
    decreases e, 0int,
{
    match e {
        SxSpec::List(l) => {
            if l.len() > 0 {
                match l[0] {
                    SxSpec::Symbol(name) => {
                        if name == "def"@ {
                            // ruled out: def_free says the head is not `def`
                        } else if name == "if"@ {
                            if l.len() == 4 {
                                lemma_all_def_free_index(l, 1);
                                lemma_only_def_mutates(env, l[1]);
                                let (r1, env1) = eval_spec(env, l[1]);
                                match r1 {
                                    Ok(cv) => {
                                        if is_falsy(cv) {
                                            lemma_all_def_free_index(l, 3);
                                            lemma_only_def_mutates(env1, l[3]);
                                        } else {
                                            lemma_all_def_free_index(l, 2);
                                            lemma_only_def_mutates(env1, l[2]);
                                        }
                                    },
                                    Err(_) => {},
                                }
                            }
                        } else if name == "quote"@ {
                        } else {
                            lemma_args_only_def_mutate(env, l.drop_first());
                        }
                    },
                    _ => {},
                }
            }
        },
        _ => {},
    }
}

/// Evaluating a sequence of argument expressions in which no `def` form
/// stands leaves the environment as it was.
proof fn lemma_args_only_def_mutate(env: EnvSpec, args: Seq<SxSpec>)
    requires
        all_def_free(args),
    ensures
        eval_args_spec(env, args).1 == env,
    decreases args, 0int,
{
    if args.len() > 0 {
        lemma_only_def_mutates(env, args[0]);
        match eval_spec(env, args[0]).0 {
            Ok(_) => {
                lemma_args_only_def_mutate(env, args.drop_first());
            },
            Err(_) => {},
        }
    }
}

/// Undefined-symbol detection is exact: a symbol in evaluated position yields
/// `Undefined` exactly when the environment has no binding for it, and the
/// bound value otherwise; either way the environment is untouched.
pub proof fn lemma_undefined_symbol(env: EnvSpec, s: Seq<char>)
    ensures
        !env.contains_key(s) ==> eval_spec(env, SxSpec::Symbol(s)) == (
            Result::<SxSpec, EvalErrorSpec>::Err(EvalErrorSpec::Undefined(s)),
            env,
        ),
        env.contains_key(s) ==> eval_spec(env, SxSpec::Symbol(s)) == (
            Result::<SxSpec, EvalErrorSpec>::Ok(env[s]),
            env,
        ),
{
}

/// Evaluate `sx` in `env`, producing exactly the value or error the semantics
/// gives, and leaving the environment exactly as the semantics says. Only
/// `def` forms reached during evaluation change the environment.
pub fn eval(env: &mut Env, sx: &Sx) -> (r: EvalResult)
    ensures
        ({
            let (sr, senv) = eval_spec(old(env)@, sx@);
            result_view(r) == sr && final(env)@ == senv
        }),
    decreases *sx, 3int,
{
    match sx {
        Sx::Nil | Sx::Boolean(_) | Sx::Integer(_) | Sx::String(_) | Sx::SxPrimitive(_) => Ok(
            sx.duplicate(),
        ),
        Sx::Quote(v) => Ok((&**v).duplicate()),
        Sx::Symbol(symbol) => match env.lookup(symbol) {
            Some(v) => Ok(v.duplicate()),
            None => Err(EvalError::Undefined(symbol.clone())),
        },
        Sx::List(l) => {
            if l.len() == 0 {
                proof {
                    assert(sx_views(l@).len() == 0);
                }
                return Ok(sx.duplicate());
            }
            match &l[0] {
                Sx::Symbol(symbol) => {
                    let kw_def: String = "def".to_owned();
                    let kw_if: String = "if".to_owned();
                    let kw_quote: String = "quote".to_owned();
                    if *symbol == kw_def {
                        apply_special(symbol, SpecialForm::Def, 2, env, l)
                    } else if *symbol == kw_if {
                        apply_special(symbol, SpecialForm::If, 3, env, l)
                    } else if *symbol == kw_quote {
                        apply_special(symbol, SpecialForm::Quote, 1, env, l)
                    } else {
                        apply(symbol, env, l)
                    }
                },
                _ => Err(EvalError::Unknown(sx.duplicate())),
            }
        },
    }
}

/// Apply the form list `list` whose head is the symbol `symbol`, bound to a
/// primitive if the application is to succeed.
fn apply(symbol: &SxSymbol, env: &mut Env, list: &Vec<Sx>) -> (r: EvalResult)
    requires
        list@.len() >= 1,
    ensures
        ({
            let (sr, senv) = apply_spec(old(env)@, symbol@, sx_views(list@).drop_first());
            result_view(r) == sr && final(env)@ == senv
        }),
    decreases list@, list@.len() + 2int,
{
    let looked = env.lookup(symbol);
    match looked {
        None => Err(EvalError::Undefined(symbol.clone())),
        Some(v) => match v {
            Sx::SxPrimitive(p) => {
                let prim = p.duplicate();
                match eval_args(env, list, 1) {
                    Ok(vals) => {
                        if vals.len() < prim.min_arity {
                            Err(
                                EvalError::PrimitiveTooFewArgs(
                                    prim.name,
                                    prim.min_arity,
                                    vals.len(),
                                ),
                            )
                        } else {
                            match invoke(&prim, &vals) {
                                Ok(result) => Ok(result),
                                Err(PrimitiveError::BadArg) => Err(
                                    EvalError::BadArg(Sx::Symbol(symbol.clone())),
                                ),
                            }
                        }
                    },
                    Err(err) => Err(err),
                }
            },
            _ => Err(EvalError::NotAFunction(Sx::Symbol(symbol.clone()))),
        },
    }
}

/// Evaluate the argument expressions `list[i..]` strictly left to right.
fn eval_args(env: &mut Env, list: &Vec<Sx>, i: usize) -> (r: Result<Vec<Sx>, EvalError>)
    requires
        1 <= i <= list@.len(),
    ensures
        ({
            let (sr, senv) = eval_args_spec(
                old(env)@,
                sx_views(list@).skip(i as int),
            );
            args_result_view(r) == sr && final(env)@ == senv
        }),
    decreases list@, list@.len() - i,
{
    proof {
        assert(sx_views(list@).skip(i as int).len() == list@.len() - i);
    }
    if i == list.len() {
        proof {
            assert(sx_views(list@).skip(i as int) =~= Seq::<SxSpec>::empty());
            assert(sx_views(Seq::<Sx>::empty()) =~= Seq::<SxSpec>::empty());
        }
        return Ok(Vec::new());
    }
    let ghost pending = sx_views(list@).skip(i as int);
    proof {
        assert(pending[0] == sx_views(list@)[i as int]);
        assert(pending.drop_first() =~= sx_views(list@).skip(i as int + 1));
    }
    match eval(env, &list[i]) {
        Ok(v) => {
            match eval_args(env, list, i + 1) {
                Ok(rest) => {
                    let mut vals = rest;
                    let ghost rest_views = sx_views(vals@);
                    vals.insert(0, v);
                    proof {
                        assert(sx_views(vals@) =~= seq![v@] + rest_views);
                    }
                    Ok(vals)
                },
                Err(err) => Err(err),
            }
        },
        Err(err) => Err(err),
    }
}

/// Dispatch the special form `form`, named by `symbol`, on the form list
/// `list`, after counting the unevaluated argument expressions against the
/// form's exact `arity`.
fn apply_special(
    symbol: &SxSymbol,
    form: SpecialForm,
    arity: usize,
    env: &mut Env,
    list: &Vec<Sx>,
) -> (r: EvalResult)
    requires
        1 <= list@.len(),
        arity as int == special_arity(form),
    ensures
        ({
            let (sr, senv) = apply_special_spec(old(env)@, symbol@, form, sx_views(list@));
            result_view(r) == sr && final(env)@ == senv
        }),
    decreases list@, list@.len() + 2int,
{
    let n_args: usize = list.len() - 1;
    if n_args < arity {
        return Err(EvalError::SpecialTooFewArgs(symbol.clone()));
    }
    if arity < n_args {
        return Err(EvalError::SpecialTooManyArgs(symbol.clone()));
    }
    match form {
        SpecialForm::Def => special_def(env, list),
        SpecialForm::If => special_if(env, list),
        SpecialForm::Quote => special_quote(list),
    }
}

/// The `quote` special form: return the single argument expression
/// unevaluated, as a copy.
fn special_quote(list: &Vec<Sx>) -> (r: EvalResult)
    requires
        list@.len() == 2,
    ensures
        result_view(r) == Result::<SxSpec, EvalErrorSpec>::Ok(sx_views(list@)[1]),
{
    Ok(list[1].duplicate())
}

/// The `def` special form: bind a not-yet-bound symbol to the value its
/// expression evaluates to, and return the symbol.
fn special_def(env: &mut Env, list: &Vec<Sx>) -> (r: EvalResult)
    requires
        list@.len() == 3,
    ensures
        ({
            let (sr, senv) = special_def_spec(old(env)@, sx_views(list@));
            result_view(r) == sr && final(env)@ == senv
        }),
    decreases list@, 0int,
{
    match &list[1] {
        Sx::Symbol(symbol) => {
            let bound = match env.lookup(symbol) {
                Some(_) => true,
                None => false,
            };
            if bound {
                return Err(EvalError::Redefine(symbol.clone()));
            }
            match eval(env, &list[2]) {
                Ok(result) => {
                    env.define(symbol, &result);
                    Ok(Sx::Symbol(symbol.clone()))
                },
                Err(err) => Err(err),
            }
        },
        other => Err(EvalError::DefineBadSymbol(other.duplicate())),
    }
}

/// The `if` special form: evaluate the condition once, then exactly the
/// branch it selects.
fn special_if(env: &mut Env, list: &Vec<Sx>) -> (r: EvalResult)
    requires
        list@.len() == 4,
    ensures
        ({
            let (sr, senv) = special_if_spec(old(env)@, sx_views(list@));
            result_view(r) == sr && final(env)@ == senv
        }),
    decreases list@, 0int,
{
    match eval(env, &list[1]) {
        Ok(cond) => match cond {
            Sx::Nil | Sx::Boolean(false) => eval(env, &list[3]),
            _ => eval(env, &list[2]),
        },
        Err(err) => Err(err),
    }
}


} // verus!


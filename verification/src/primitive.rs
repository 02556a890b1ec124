//! The calling convention for built-in primitive functions.
//!
//! A primitive is an immutable record of a name, a minimum arity and the
//! operation it performs. The evaluator has no knowledge of individual
//! primitives: it looks them up through ordinary symbol evaluation and
//! invokes them through [`invoke`]. New primitives are added here, in the
//! registry, without any change to the evaluator.

use vstd::prelude::*;

use crate::sx::{lemma_sx_views_pointwise, sx_views, Sx, SxSpec};

verus! {

/// The signal a primitive gives back when it rejects its evaluated arguments.
#[derive(Clone, Copy, Debug, PartialEq, Eq)]
pub enum PrimitiveError {
    BadArg,
}

/// The operation a built-in primitive performs on its evaluated arguments.
#[derive(Clone, Copy, Debug, PartialEq, Eq)]
pub enum PrimOp {
    Plus,
}

/// A built-in function: name, minimum arity and operation.
#[derive(Debug, PartialEq, Eq)]
pub struct Primitive {
    pub name: String,
    pub min_arity: usize,
    pub op: PrimOp,
}

/// The mathematical model of a [`Primitive`].
pub struct PrimitiveSpec {
    pub name: Seq<char>,
    pub min_arity: nat,
    pub op: PrimOp,
}

impl View for Primitive {
    type V = PrimitiveSpec;

    open spec fn view(&self) -> PrimitiveSpec {
        PrimitiveSpec { name: self.name@, min_arity: self.min_arity as nat, op: self.op }
    }
}

impl Primitive {
    /// A copy whose fields equal the original's.
    pub fn duplicate(&self) -> (r: Primitive)
        ensures
            r == *self,
    {
        Primitive { name: self.name.clone(), min_arity: self.min_arity, op: self.op }
    }
}

/// What `Plus` yields on the argument values in `args`, folded left to right
/// onto `acc`: the sum of all arguments, or `BadArg` as soon as an argument is
/// not an integer or a partial sum leaves the machine integer range.
pub open spec fn plus_spec(args: Seq<SxSpec>, acc: int) -> Result<int, PrimitiveError>
    decreases args.len(),
{
    if args.len() == 0 {
        Ok(acc)
    } else {
        match args[0] {
            SxSpec::Integer(n) => if i64::MIN <= acc + n <= i64::MAX {
                plus_spec(args.drop_first(), acc + n)
            } else {
                Err(PrimitiveError::BadArg)
            },
            _ => Err(PrimitiveError::BadArg),
        }
    }
}

/// What invoking the operation `op` on the evaluated arguments `args` yields.
pub open spec fn invoke_spec(op: PrimOp, args: Seq<SxSpec>) -> Result<SxSpec, PrimitiveError> {
    match op {
        PrimOp::Plus => match plus_spec(args, 0) {
            Ok(n) => Ok(SxSpec::Integer(n)),
            Err(e) => Err(e),
        },
    }
}

/// The view of an invocation's outcome.
pub open spec fn prim_result_view(r: Result<Sx, PrimitiveError>) -> Result<
    SxSpec,
    PrimitiveError,
> {
    match r {
        Ok(v) => Ok(v@),
        Err(e) => Err(e),
    }
}

/// The registry entry for `+`: variadic integer addition with no floor.
pub fn plus_primitive() -> (p: Primitive)
    ensures
        p@ == (PrimitiveSpec { name: "+"@, min_arity: 0 as nat, op: PrimOp::Plus }),
{
    Primitive { name: "+".to_owned(), min_arity: 0, op: PrimOp::Plus }
}

/// Invoke the primitive `p` on the evaluated arguments `args`.
pub fn invoke(p: &Primitive, args: &Vec<Sx>) -> (r: Result<Sx, PrimitiveError>)
    ensures
        prim_result_view(r) == invoke_spec(p.op, sx_views(args@)),
{
    match p.op {
        PrimOp::Plus => plus(args),
    }
}

/// Sum the arguments left to right, rejecting a non-integer argument or a
/// partial sum outside the machine integer range.
fn plus(args: &Vec<Sx>) -> (r: Result<Sx, PrimitiveError>)
    ensures
        prim_result_view(r) == invoke_spec(PrimOp::Plus, sx_views(args@)),
{
    broadcast use crate::sx::lemma_sx_views_pointwise;

    let ghost views = sx_views(args@);
    proof {
        assert(views.skip(0) =~= views);
    }
    let mut acc: i64 = 0;
    let mut i: usize = 0;
    while i < args.len()
        invariant
            i <= args@.len(),
            views == sx_views(args@),
            views.len() == args@.len(),
            plus_spec(views, 0) == plus_spec(views.skip(i as int), acc as int),
        decreases args@.len() - i,
    {
        proof {
            lemma_sx_views_pointwise(args@);
            assert(views.skip(i as int)[0] == views[i as int]);
            assert(views.skip(i as int).drop_first() =~= views.skip(i as int + 1));
        }
        match &args[i] {
            Sx::Integer(n) => {
                let n: i64 = *n;
                if (n > 0 && acc > i64::MAX - n) || (n < 0 && acc < i64::MIN - n) {
                    return Err(PrimitiveError::BadArg);
                }
                acc = acc + n;
            },
            _ => {
                return Err(PrimitiveError::BadArg);
            },
        }
        i = i + 1;
    }
    proof {
        assert(views.skip(i as int) =~= Seq::<SxSpec>::empty());
    }
    Ok(Sx::Integer(acc))
}

} // verus!

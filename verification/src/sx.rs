//! The S-expression value model: a closed tagged union over the seven
//! expression shapes, plus its mathematical view.

use vstd::prelude::*;

use crate::primitive::{Primitive, PrimitiveSpec};

verus! {

/// A symbol's textual content, by which symbols compare equal.
pub type SxSymbol = String;

/// An S-expression value. Every value is immutable once constructed:
/// evaluation only produces new values, never changes one in place.
#[derive(Debug, PartialEq, Eq)]
pub enum Sx {
    /// The empty/absent value; self-evaluating and falsy.
    Nil,
    /// A truth value; only `false` (and `Nil`) are falsy.
    Boolean(bool),
    /// A fixed-width signed number.
    Integer(i64),
    /// Immutable text, preserved verbatim through evaluation.
    String(String),
    /// An identifier: syntax in operator or binding position, data when quoted.
    Symbol(SxSymbol),
    /// An ordered sequence of expression values; the empty list is
    /// self-evaluating and distinct from `Nil`.
    List(Vec<Sx>),
    /// Exactly one sub-expression marked as data for one evaluation step.
    Quote(Box<Sx>),
    /// A reference to a built-in function.
    SxPrimitive(Primitive),
}

/// The mathematical model of an [`Sx`] value.
pub enum SxSpec {
    Nil,
    Boolean(bool),
    Integer(int),
    Str(Seq<char>),
    Symbol(Seq<char>),
    List(Seq<SxSpec>),
    Quote(Box<SxSpec>),
    Primitive(PrimitiveSpec),
}

/// The model of an expression value.
pub open spec fn sx_view(e: Sx) -> SxSpec
    decreases e, 1int,
{
    match e {
        Sx::Nil => SxSpec::Nil,
        Sx::Boolean(b) => SxSpec::Boolean(b),
        Sx::Integer(n) => SxSpec::Integer(n as int),
        Sx::String(s) => SxSpec::Str(s@),
        Sx::Symbol(s) => SxSpec::Symbol(s@),
        Sx::List(l) => SxSpec::List(sx_views(l@)),
        Sx::Quote(b) => SxSpec::Quote(Box::new(sx_view(*b))),
        Sx::SxPrimitive(p) => SxSpec::Primitive(p@),
    }
}

/// The models of a sequence of expression values, element by element.
pub open spec fn sx_views(s: Seq<Sx>) -> Seq<SxSpec>
    decreases s, 0int,
{
    if s.len() == 0 {
        Seq::empty()
    } else {
        seq![sx_view(s[0])] + sx_views(s.drop_first())
    }
}

/// A sequence of models has one model per element, in place.
pub broadcast proof fn lemma_sx_views_pointwise(s: Seq<Sx>)
    ensures
        (#[trigger] sx_views(s)).len() == s.len(),
        forall|i: int| 0 <= i < s.len() ==> sx_views(s)[i] == sx_view(s[i]),
    decreases s.len(),
{
    if s.len() > 0 {
        lemma_sx_views_pointwise(s.drop_first());
    }
}

impl View for Sx {
    type V = SxSpec;

    open spec fn view(&self) -> SxSpec {
        sx_view(*self)
    }
}

impl Sx {
    /// A copy that models the same value.
    pub fn duplicate(&self) -> (r: Sx)
        ensures
            r@ == self@,
        decreases *self,
    {
        broadcast use lemma_sx_views_pointwise;

        match self {
            Sx::Nil => Sx::Nil,
            Sx::Boolean(b) => Sx::Boolean(*b),
            Sx::Integer(n) => Sx::Integer(*n),
            Sx::String(s) => Sx::String(s.clone()),
            Sx::Symbol(s) => Sx::Symbol(s.clone()),
            Sx::List(l) => {
                proof {
                    assert(decreases_to!(*self => self->List_0@));
                }
                let mut out: Vec<Sx> = Vec::new();
                let mut i: usize = 0;
                while i < l.len()
                    invariant
                        i <= l@.len(),
                        out@.len() == i as int,
                        forall|j: int| 0 <= j < i ==> out@[j]@ == l@[j]@,
                        decreases_to!(*self => l@),
                    decreases l@.len() - i,
                {
                    proof {
                        assert(decreases_to!(l@ => l@[i as int]));
                    }
                    let d = l[i].duplicate();
                    out.push(d);
                    i = i + 1;
                }
                proof {
                    assert(sx_views(out@) =~= sx_views(l@));
                }
                Sx::List(out)
            },
            Sx::Quote(b) => {
                let inner = (&**b).duplicate();
                Sx::Quote(Box::new(inner))
            },
            Sx::SxPrimitive(p) => Sx::SxPrimitive(p.duplicate()),
        }
    }
}

} // verus!

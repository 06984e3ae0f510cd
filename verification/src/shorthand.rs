//! The compact prefix-notation construction facility.
//!
//! Writing a deeply nested tree constructor by constructor is verbose,
//! so callers may instead describe a tree in a LISP-like prefix form,
//! as a nested list held in memory, and expand it. Expansion produces
//! exactly the trees that manual construction of the same shape would,
//! and a shape or arity mistake in the notation is rejected when the
//! notation itself is built, before any tree exists.

use crate::ast::AST;
use vstd::prelude::*;

verus! {

/// A tree written in prefix notation. Each composite form names the
/// node it builds and lists its operands; a bare number becomes a
/// literal leaf, and an already built tree passes through unchanged.
#[derive(Debug, PartialEq)]
pub enum Shorthand {
    /// A bare numeric literal, expanded to a literal leaf.
    Lit(usize),
    /// An already built tree, passed through unchanged.
    Tree(AST),
    /// `(+ left right)`, expanded to an addition node.
    Plus(Box<Shorthand>, Box<Shorthand>),
    /// `(If cond thn els)`, expanded to a conditional node.
    Cond(Box<Shorthand>, Box<Shorthand>, Box<Shorthand>),
}

impl Clone for Shorthand {
    /// Deep copy: the clone is structurally equal to the original and
    /// shares no part with it.
    fn clone(&self) -> (res: Self)
        ensures
            res == *self,
        decreases self,
    {
        match self {
            Shorthand::Lit(v) => Shorthand::Lit(*v),
            Shorthand::Tree(t) => Shorthand::Tree(t.clone()),
            Shorthand::Plus(left, right) => Shorthand::Plus(
                Box::new((&**left).clone()),
                Box::new((&**right).clone()),
            ),
            Shorthand::Cond(c, t, e) => Shorthand::Cond(
                Box::new((&**c).clone()),
                Box::new((&**t).clone()),
                Box::new((&**e).clone()),
            ),
        }
    }
}

/// The tree that a shorthand expression denotes: each form expands to
/// the constructor it names, applied to its operands expanded first.
pub open spec fn expand_spec(s: Shorthand) -> AST
    decreases s,
{
    match s {
        Shorthand::Lit(v) => AST::Num(v),
        Shorthand::Tree(t) => t,
        Shorthand::Plus(left, right) => AST::Add(
            Box::new(expand_spec(*left)),
            Box::new(expand_spec(*right)),
        ),
        Shorthand::Cond(c, t, e) => AST::If {
            cond: Box::new(expand_spec(*c)),
            thn: Box::new(expand_spec(*t)),
            els: Box::new(expand_spec(*e)),
        },
    }
}

/// Builds the tree that a shorthand expression denotes, consuming the
/// expression. The result is structurally identical to what direct,
/// manual construction of the same shape builds.
pub fn expand(s: Shorthand) -> (r: AST)
    ensures
        r == expand_spec(s),
    decreases s,
{
    match s {
        Shorthand::Lit(v) => AST::Num(v),
        Shorthand::Tree(t) => t,
        Shorthand::Plus(left, right) => AST::Add(
            Box::new(expand(*left)),
            Box::new(expand(*right)),
        ),
        Shorthand::Cond(c, t, e) => {
            let cond = Box::new(expand(*c));
            let thn = Box::new(expand(*t));
            let els = Box::new(expand(*e));
            AST::If { cond, thn, els }
        },
    }
}

impl Shorthand {
    /// A bare literal in the notation.
    pub fn lit(v: usize) -> (r: Shorthand)
        ensures
            r == Shorthand::Lit(v),
    {
        Shorthand::Lit(v)
    }

    /// An already built tree in the notation.
    pub fn tree(t: AST) -> (r: Shorthand)
        ensures
            r == Shorthand::Tree(t),
    {
        Shorthand::Tree(t)
    }

    /// `(+ left right)`, with the boxing written once, here.
    pub fn plus(left: Shorthand, right: Shorthand) -> (r: Shorthand)
        ensures
            r == Shorthand::Plus(Box::new(left), Box::new(right)),
    {
        Shorthand::Plus(Box::new(left), Box::new(right))
    }

    /// `(If cond thn els)`, with the boxing written once, here.
    pub fn cond(cond: Shorthand, thn: Shorthand, els: Shorthand) -> (r: Shorthand)
        ensures
            r == Shorthand::Cond(Box::new(cond), Box::new(thn), Box::new(els)),
    {
        Shorthand::Cond(Box::new(cond), Box::new(thn), Box::new(els))
    }
}

/// Shorthand and manual construction agree: each form of the notation
/// expands to exactly the tree that direct construction builds from
/// the expansions of its operands, so every shorthand expression
/// denotes a tree structurally equal to its manually built
/// counterpart.
pub proof fn lemma_shorthand_manual_equivalence(
    v: usize,
    t: AST,
    left: Shorthand,
    right: Shorthand,
    c: Shorthand,
    th: Shorthand,
    e: Shorthand,
)
    ensures
        expand_spec(Shorthand::Lit(v)) == AST::Num(v),
        expand_spec(Shorthand::Tree(t)) == t,
        expand_spec(Shorthand::Plus(Box::new(left), Box::new(right))) == AST::Add(
            Box::new(expand_spec(left)),
            Box::new(expand_spec(right)),
        ),
        expand_spec(Shorthand::Cond(Box::new(c), Box::new(th), Box::new(e))) == (AST::If {
            cond: Box::new(expand_spec(c)),
            thn: Box::new(expand_spec(th)),
            els: Box::new(expand_spec(e)),
        }),
{
}

} // verus!

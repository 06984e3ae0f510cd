//! The tree-node model and the recursive evaluator.

use vstd::prelude::*;

verus! {

/// A program fragment: a finite, strictly owned, immutable tree.
/// Structural equality is deep and order-sensitive: two trees are
/// equal exactly when they have the same shape and the same leaf
/// values at every position.
#[derive(Debug, PartialEq)]
pub enum AST {
    /// A leaf holding a non-negative integer literal.
    Num(usize),
    /// A binary node whose value is the sum of its two subtrees.
    Add(Box<AST>, Box<AST>),
    /// A ternary node: when `cond` evaluates to zero the node has the
    /// value of `els`, otherwise the value of `thn`.
    If {
        /// The condition deciding which branch is taken.
        cond: Box<AST>,
        /// The branch taken when the condition is non-zero.
        thn: Box<AST>,
        /// The branch taken when the condition is zero.
        els: Box<AST>,
    },
}

impl Clone for AST {
    /// Deep copy: the clone is structurally equal to the original and
    /// shares no subtree with it.
    fn clone(&self) -> (res: Self)
        ensures
            res == *self,
        decreases self,
    {
        match self {
            AST::Num(v) => AST::Num(*v),
            AST::Add(left, right) => AST::Add(
                Box::new((&**left).clone()),
                Box::new((&**right).clone()),
            ),
            AST::If { cond, thn, els } => AST::If {
                cond: Box::new((&**cond).clone()),
                thn: Box::new((&**thn).clone()),
                els: Box::new((&**els).clone()),
            },
        }
    }
}

/// The value of a tree as an unbounded natural number: a literal is
/// its own value, an addition is the sum of the values of its
/// subtrees, and a conditional is the value of `els` when its
/// condition evaluates to zero, of `thn` otherwise.
pub open spec fn eval_spec(ast: AST) -> nat
    decreases ast,
{
    match ast {
        AST::Num(v) => v as nat,
        AST::Add(left, right) => eval_spec(*left) + eval_spec(*right),
        AST::If { cond, thn, els } => if eval_spec(*cond) == 0 {
            eval_spec(*els)
        } else {
            eval_spec(*thn)
        },
    }
}

/// Whether every addition that evaluation reaches produces a sum that
/// fits in a `usize`. Evaluation of a conditional is short-circuiting,
/// so the branch that the condition does not select is unconstrained.
pub open spec fn eval_in_range(ast: AST) -> bool
    decreases ast,
{
    match ast {
        AST::Num(_) => true,
        AST::Add(left, right) => {
            &&& eval_in_range(*left)
            &&& eval_in_range(*right)
            &&& eval_spec(*left) + eval_spec(*right) <= usize::MAX
        },
        AST::If { cond, thn, els } => {
            &&& eval_in_range(*cond)
            &&& if eval_spec(*cond) == 0 {
                eval_in_range(*els)
            } else {
                eval_in_range(*thn)
            }
        },
    }
}

/// Reduces a tree to a single number by structural recursion,
/// consuming the tree: children are evaluated before the parent
/// combines them, and only the selected branch of a conditional is
/// evaluated. Addition is native unsigned addition, so every sum that
/// evaluation reaches must fit in a `usize`.
pub fn eval(ast: AST) -> (r: usize)
    requires
        eval_in_range(ast),
    ensures
        r == eval_spec(ast),
    decreases ast,
{
    match ast {
        AST::Num(v) => v,
        AST::Add(left, right) => {
            let left_val = eval(*left);
            let right_val = eval(*right);
            left_val + right_val
        },
        AST::If { cond, thn, els } => {
            if eval(*cond) == 0 {
                eval(*els)
            } else {
                eval(*thn)
            }
        },
    }
}

/// Leaf identity: a literal leaf evaluates to its own value.
pub proof fn lemma_leaf_identity(v: usize)
    ensures
        eval_spec(AST::Num(v)) == v,
{
}

/// The value of an addition is the sum of the values of its subtrees,
/// so swapping the subtrees leaves the value unchanged — although the
/// swapped tree is structurally equal to the original only when the
/// two subtrees are equal to each other.
pub proof fn lemma_add_commutes(a: AST, b: AST)
    ensures
        eval_spec(AST::Add(Box::new(a), Box::new(b))) == eval_spec(a) + eval_spec(b),
        eval_spec(AST::Add(Box::new(a), Box::new(b))) == eval_spec(AST::Add(Box::new(b), Box::new(a))),
        (AST::Add(Box::new(a), Box::new(b)) == AST::Add(Box::new(b), Box::new(a))) <==> a == b,
{
}

/// Branch selection: a conditional whose condition evaluates to zero
/// has the value of its `els` branch, and one whose condition
/// evaluates to anything non-zero — a literal or the result of a
/// nested sub-evaluation alike — has the value of its `thn` branch.
pub proof fn lemma_branch_selection(cond: AST, thn: AST, els: AST)
    ensures
        eval_spec(cond) == 0 ==> eval_spec(
            (AST::If { cond: Box::new(cond), thn: Box::new(thn), els: Box::new(els) }),
        ) == eval_spec(els),
        eval_spec(cond) != 0 ==> eval_spec(
            (AST::If { cond: Box::new(cond), thn: Box::new(thn), els: Box::new(els) }),
        ) == eval_spec(thn),
{
}

/// Short-circuit: evaluation of a conditional touches only the branch
/// its condition selects, so whether evaluation stays in range never
/// depends on the branch that the condition does not select.
pub proof fn lemma_short_circuit(cond: AST, thn: AST, els: AST)
    ensures
        eval_spec(cond) == 0 ==> (eval_in_range(
            (AST::If { cond: Box::new(cond), thn: Box::new(thn), els: Box::new(els) }),
        ) <==> eval_in_range(cond) && eval_in_range(els)),
        eval_spec(cond) != 0 ==> (eval_in_range(
            (AST::If { cond: Box::new(cond), thn: Box::new(thn), els: Box::new(els) }),
        ) <==> eval_in_range(cond) && eval_in_range(thn)),
{
}

/// Grouping independence: regrouping a chain of additions does not
/// change its value, since addition of the underlying numbers is
/// associative.
pub proof fn lemma_add_regroup(a: AST, b: AST, c: AST)
    ensures
        eval_spec(AST::Add(Box::new(AST::Add(Box::new(a), Box::new(b))), Box::new(c)))
            == eval_spec(AST::Add(Box::new(a), Box::new(AST::Add(Box::new(b), Box::new(c))))),
{
    reveal_with_fuel(eval_spec, 2);
}

} // verus!

//! Hash-consed HIR expressions.
//!
//! Interning an expression gives a handle; interning two expressions that
//! are the same tree gives the same handle, so handles compare in one step.
use internment::Intern;
use vstd::prelude::*;

use crate::hir_same::{expr_same, lemma_expr_same_symmetric, lemma_expr_same_transitive};
use crate::luna_hir::Expr;

verus! {

/// The expression an interned handle refers to.
pub uninterp spec fn interned_expr(h: Intern<Expr>) -> Expr;

/// `Intern::new`: a handle to an expression that is the same tree as `e`.
#[verifier::external_body]
fn intern_expr_handle(e: Expr) -> (r: Intern<Expr>)
    ensures
        expr_same(interned_expr(r), e),
{
    Intern::new(e)
}

/// Dereferencing an `Intern<Expr>`: the expression it refers to.
#[verifier::external_body]
fn interned_expr_ref(h: &Intern<Expr>) -> (r: &Expr)
    ensures
        *r == interned_expr(*h),
{
    &**h
}

/// `PartialEq` of `Intern`: it compares the handles, and the pool gives
/// equal handles exactly to expressions that are the same tree.
#[verifier::external_body]
fn interned_expr_eq(a: &Intern<Expr>, b: &Intern<Expr>) -> (r: bool)
    ensures
        r == expr_same(interned_expr(*a), interned_expr(*b)),
{
    *a == *b
}

/// An interned expression.
#[derive(Clone, Copy, Debug)]
pub struct SExpr(Intern<Expr>);

impl View for SExpr {
    type V = Expr;

    closed spec fn view(&self) -> Expr {
        interned_expr(self.0)
    }
}

impl SExpr {
    /// Interns an expression.
    pub fn intern(e: Expr) -> (r: SExpr)
        ensures
            expr_same(r@, e),
    {
        SExpr(intern_expr_handle(e))
    }

    /// The interned expression.
    pub fn expr(&self) -> (r: &Expr)
        ensures
            *r == self@,
    {
        interned_expr_ref(&self.0)
    }

    /// Whether two handles refer to the same expression: one comparison
    /// of handles, true exactly when the trees are the same.
    pub fn same_handle(&self, other: &SExpr) -> (r: bool)
        ensures
            r == expr_same(self@, other@),
    {
        interned_expr_eq(&self.0, &other.0)
    }
}

impl PartialEq for SExpr {
    fn eq(&self, other: &SExpr) -> (r: bool) {
        self.same_handle(other)
    }
}

impl vstd::std_specs::cmp::PartialEqSpecImpl for SExpr {
    open spec fn obeys_eq_spec() -> bool {
        true
    }

    open spec fn eq_spec(&self, other: &SExpr) -> bool {
        expr_same(self@, other@)
    }
}

impl Eq for SExpr {
}

/// Hash-consing: interning two expressions that are the same tree gives
/// handles that compare equal.
pub proof fn lemma_interning_shares_handles(x: SExpr, y: SExpr, e1: Expr, e2: Expr)
    requires
        expr_same(x@, e1),
        expr_same(y@, e2),
        expr_same(e1, e2),
    ensures
        expr_same(x@, y@),
{
    lemma_expr_same_transitive(x@, e1, e2);
    lemma_expr_same_symmetric(y@, e2);
    lemma_expr_same_transitive(x@, e2, y@);
}

} // verus!

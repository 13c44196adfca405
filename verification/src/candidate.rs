//! Candidate types and their layers of precision.
//!
//! A type can be seen at several precisions: up to depth `d`, the type is
//! kept, and below it every type is replaced by `Any`.  The layers of a
//! type are its views at depths 1, 2, ... up to its own depth, the last of
//! which is the type itself.
use vstd::prelude::*;

use crate::hir_same::{expr_same, exprs_same, lemma_expr_same_symmetric, lemma_expr_same_transitive};
use crate::luna_hir::{Expr, HirId};

verus! {

/// A candidate for a node's type.
pub struct Candidate {
    pub hir_id: HirId,
    pub ty: Expr,
}

/// The larger of two numbers.
pub open spec fn max_nat(a: nat, b: nat) -> nat {
    if a >= b { a } else { b }
}

/// The nesting depth of a type: tuples, optionals, pointers and arrays
/// add a level to their deepest part; anything else has depth 1.
pub open spec fn type_depth(e: Expr) -> nat
    decreases e,
{
    match e {
        Expr::TyTuple(es) => if es@.len() == 0 {
            1
        } else {
            1 + max_type_depth(es@)
        },
        Expr::TyOptional(inner) => 1 + type_depth(*inner),
        Expr::TyPointer(inner) => 1 + type_depth(*inner),
        Expr::TyArray(inner, _) => 1 + type_depth(*inner),
        _ => 1,
    }
}

/// The largest depth among a list of types; 0 for no types.
pub open spec fn max_type_depth(s: Seq<Expr>) -> nat
    decreases s,
{
    if s.len() == 0 {
        0
    } else {
        max_nat(max_type_depth(s.drop_last()), type_depth(s.last()))
    }
}

/// `out` is `e`, found at depth `cur`, with everything at depth `target`
/// or deeper replaced by `Any`.
pub open spec fn generalized(out: Expr, e: Expr, cur: nat, target: nat) -> bool
    decreases e,
{
    if cur >= target {
        out is TyAny
    } else {
        match e {
            Expr::TyTuple(es) => match out {
                Expr::TyTuple(os) => generalized_list(os@, es@, cur + 1, target),
                _ => false,
            },
            Expr::TyOptional(inner) => match out {
                Expr::TyOptional(o) => generalized(*o, *inner, cur + 1, target),
                _ => false,
            },
            Expr::TyPointer(inner) => match out {
                Expr::TyPointer(o) => generalized(*o, *inner, cur + 1, target),
                _ => false,
            },
            Expr::TyArray(inner, size) => match out {
                Expr::TyArray(o, osize) => generalized(*o, *inner, cur + 1, target) && expr_same(*osize, *size),
                _ => false,
            },
            _ => expr_same(out, e),
        }
    }
}

/// The same, element by element, for a list of types.
pub open spec fn generalized_list(os: Seq<Expr>, es: Seq<Expr>, cur: nat, target: nat) -> bool
    decreases es,
{
    os.len() == es.len() && (es.len() == 0 || (generalized_list(os.drop_last(), es.drop_last(), cur, target)
        && generalized(os.last(), es.last(), cur, target)))
}

proof fn lemma_max_depth_push(s: Seq<Expr>, e: Expr)
    ensures
        max_type_depth(s.push(e)) == max_nat(max_type_depth(s), type_depth(e)),
{
    assert(s.push(e).drop_last() =~= s);
}

proof fn lemma_max_depth_bounds(s: Seq<Expr>)
    ensures
        forall|k: int| 0 <= k < s.len() ==> type_depth(#[trigger] s[k]) <= max_type_depth(s),
        forall|k: int| 0 <= k <= s.len() ==> #[trigger] max_type_depth(s.take(k)) <= max_type_depth(s),
    decreases s.len(),
{
    if s.len() > 0 {
        let p = s.drop_last();
        lemma_max_depth_bounds(p);
        assert forall|k: int| 0 <= k < s.len() implies type_depth(#[trigger] s[k]) <= max_type_depth(s) by {
            if k < s.len() - 1 {
                assert(s[k] == p[k]);
            }
        }
        assert forall|k: int| 0 <= k <= s.len() implies #[trigger] max_type_depth(s.take(k)) <= max_type_depth(s) by {
            if k < s.len() {
                assert(s.take(k) =~= p.take(k));
            } else {
                assert(s.take(k) =~= s);
            }
        }
    }
}

/// The largest nesting depth among a list of types.
fn max_depth_list(exprs: &Vec<Expr>) -> (r: usize)
    requires
        max_type_depth(exprs@) <= usize::MAX,
    ensures
        r == max_type_depth(exprs@),
    decreases exprs@,
{
    proof {
        lemma_max_depth_bounds(exprs@);
        assert(exprs@.take(0) =~= Seq::<Expr>::empty());
    }
    let mut best: usize = 0;
    let mut i: usize = 0;
    while i < exprs.len()
        invariant
            0 <= i <= exprs@.len(),
            best == max_type_depth(exprs@.take(i as int)),
            max_type_depth(exprs@) <= usize::MAX,
            forall|k: int| 0 <= k <= exprs@.len() ==> #[trigger] max_type_depth(exprs@.take(k)) <= max_type_depth(exprs@),
            forall|k: int| 0 <= k < exprs@.len() ==> type_depth(#[trigger] exprs@[k]) <= max_type_depth(exprs@),
        decreases exprs@.len() - i,
    {
        proof {
            assert(exprs@.take(i + 1) =~= exprs@.take(i as int).push(exprs@[i as int]));
            lemma_max_depth_push(exprs@.take(i as int), exprs@[i as int]);
        }
        let d = max_depth(&exprs[i]);
        if d > best {
            best = d;
        }
        i += 1;
    }
    proof {
        assert(exprs@.take(exprs@.len() as int) =~= exprs@);
    }
    best
}

/// The nesting depth of a type.
fn max_depth(expr: &Expr) -> (r: usize)
    requires
        type_depth(*expr) <= usize::MAX,
    ensures
        r == type_depth(*expr),
    decreases *expr,
{
    match expr {
        Expr::TyTuple(exprs) => {
            if exprs.len() == 0 {
                1
            } else {
                1 + max_depth_list(exprs)
            }
        },
        Expr::TyOptional(inner) => 1 + max_depth(inner),
        Expr::TyPointer(inner) => 1 + max_depth(inner),
        Expr::TyArray(inner, _) => 1 + max_depth(inner),
        _ => 1,
    }
}

/// Generalizes each type of a list.
fn generalize_list(exprs: &Vec<Expr>, current_depth: usize, target_depth: usize) -> (r: Vec<Expr>)
    ensures
        generalized_list(r@, exprs@, current_depth as nat, target_depth as nat),
    decreases exprs@,
{
    let mut r: Vec<Expr> = Vec::new();
    let mut i: usize = 0;
    proof {
        assert(exprs@.take(0) =~= Seq::<Expr>::empty());
    }
    while i < exprs.len()
        invariant
            0 <= i <= exprs@.len(),
            generalized_list(r@, exprs@.take(i as int), current_depth as nat, target_depth as nat),
        decreases exprs@.len() - i,
    {
        let ghost before = r@;
        let g = generalize_beyond_depth(&exprs[i], current_depth, target_depth);
        r.push(g);
        proof {
            assert(r@.drop_last() =~= before);
            assert(exprs@.take(i + 1).drop_last() =~= exprs@.take(i as int));
        }
        i += 1;
    }
    proof {
        assert(exprs@.take(exprs@.len() as int) =~= exprs@);
    }
    r
}

/// The type with everything at depth `target_depth` or deeper replaced by
/// `Any`, the type itself being found at depth `current_depth`.
fn generalize_beyond_depth(expr: &Expr, current_depth: usize, target_depth: usize) -> (r: Expr)
    ensures
        generalized(r, *expr, current_depth as nat, target_depth as nat),
    decreases *expr,
{
    if current_depth >= target_depth {
        return Expr::TyAny;
    }
    match expr {
        Expr::TyTuple(exprs) => Expr::TyTuple(generalize_list(exprs, current_depth + 1, target_depth)),
        Expr::TyOptional(inner) => {
            let new_inner = generalize_beyond_depth(inner, current_depth + 1, target_depth);
            Expr::TyOptional(Box::new(new_inner))
        },
        Expr::TyPointer(inner) => {
            let new_inner = generalize_beyond_depth(inner, current_depth + 1, target_depth);
            Expr::TyPointer(Box::new(new_inner))
        },
        Expr::TyArray(inner, size) => {
            let new_inner = generalize_beyond_depth(inner, current_depth + 1, target_depth);
            Expr::TyArray(Box::new(new_inner), Box::new(size.deep_clone()))
        },
        other => other.deep_clone(),
    }
}

/// The layers of a type, from the coarsest to the type itself: for each
/// depth `d` from 1 to the type's depth, the type with everything at depth
/// `d` or deeper replaced by `Any`.
pub fn layer_sequence(ty: &Expr) -> (r: Vec<Expr>)
    requires
        type_depth(*ty) <= usize::MAX,
    ensures
        r@.len() == type_depth(*ty),
        forall|i: int| 0 <= i < r@.len() ==> generalized(#[trigger] r@[i], *ty, 0, (i + 1) as nat),
{
    let depth = max_depth(ty);
    let mut result: Vec<Expr> = Vec::new();
    let mut k: usize = 0;
    while k < depth
        invariant
            0 <= k <= depth,
            depth == type_depth(*ty),
            result@.len() == k,
            forall|i: int| 0 <= i < k ==> generalized(#[trigger] result@[i], *ty, 0, (i + 1) as nat),
        decreases depth - k,
    {
        let generalized_ty = generalize_beyond_depth(ty, 0, k + 1);
        result.push(generalized_ty);
        k += 1;
    }
    result
}

/// A type generalized at a depth no shallower than its own is the type
/// itself.
pub proof fn lemma_generalize_past_depth_is_identity(out: Expr, e: Expr, cur: nat, target: nat)
    requires
        generalized(out, e, cur, target),
        cur + type_depth(e) <= target,
    ensures
        expr_same(out, e),
    decreases e,
{
    match e {
        Expr::TyTuple(es) => {
            if let Expr::TyTuple(os) = out {
                lemma_max_depth_bounds(es@);
                lemma_generalize_list_identity(os@, es@, cur + 1, target);
            }
        },
        Expr::TyOptional(inner) => {
            if let Expr::TyOptional(o) = out {
                lemma_generalize_past_depth_is_identity(*o, *inner, cur + 1, target);
            }
        },
        Expr::TyPointer(inner) => {
            if let Expr::TyPointer(o) = out {
                lemma_generalize_past_depth_is_identity(*o, *inner, cur + 1, target);
            }
        },
        Expr::TyArray(inner, _) => {
            if let Expr::TyArray(o, _) = out {
                lemma_generalize_past_depth_is_identity(*o, *inner, cur + 1, target);
            }
        },
        _ => {},
    }
}

/// The same for a list of types.
pub proof fn lemma_generalize_list_identity(os: Seq<Expr>, es: Seq<Expr>, cur: nat, target: nat)
    requires
        generalized_list(os, es, cur, target),
        forall|k: int| 0 <= k < es.len() ==> cur + type_depth(#[trigger] es[k]) <= target,
    ensures
        exprs_same(os, es),
    decreases es,
{
    if es.len() > 0 {
        let p = es.drop_last();
        assert forall|k: int| 0 <= k < p.len() implies cur + type_depth(#[trigger] p[k]) <= target by {
            assert(p[k] == es[k]);
        }
        lemma_generalize_list_identity(os.drop_last(), p, cur, target);
        lemma_generalize_past_depth_is_identity(os.last(), es.last(), cur, target);
    }
}

/// The last layer of a type is the type itself.
pub proof fn lemma_last_layer_is_type(layers: Seq<Expr>, ty: Expr)
    requires
        layers.len() == type_depth(ty),
        forall|i: int| 0 <= i < layers.len() ==> generalized(#[trigger] layers[i], ty, 0, (i + 1) as nat),
    ensures
        layers.len() > 0,
        expr_same(layers.last(), ty),
{
    assert(type_depth(ty) >= 1);
    let i = layers.len() - 1;
    assert(generalized(layers[i], ty, 0, (i + 1) as nat));
    lemma_generalize_past_depth_is_identity(layers[i], ty, 0, (i + 1) as nat);
}

/// Generalizing a type at two depths: the coarser result is the finer
/// one generalized at the coarser depth.
pub proof fn lemma_generalize_refines(a: Expr, b: Expr, e: Expr, cur: nat, t: nat, t2: nat)
    requires
        generalized(a, e, cur, t),
        generalized(b, e, cur, t2),
        t <= t2,
    ensures
        generalized(a, b, cur, t),
    decreases e,
{
    if cur < t {
        match e {
            Expr::TyTuple(es) => {
                if let Expr::TyTuple(as_) = a {
                    if let Expr::TyTuple(bs) = b {
                        lemma_generalize_list_refines(as_@, bs@, es@, cur + 1, t, t2);
                    }
                }
            },
            Expr::TyOptional(inner) => {
                if let Expr::TyOptional(ao) = a {
                    if let Expr::TyOptional(bo) = b {
                        lemma_generalize_refines(*ao, *bo, *inner, cur + 1, t, t2);
                    }
                }
            },
            Expr::TyPointer(inner) => {
                if let Expr::TyPointer(ao) = a {
                    if let Expr::TyPointer(bo) = b {
                        lemma_generalize_refines(*ao, *bo, *inner, cur + 1, t, t2);
                    }
                }
            },
            Expr::TyArray(inner, size) => {
                if let Expr::TyArray(ao, asz) = a {
                    if let Expr::TyArray(bo, bsz) = b {
                        lemma_generalize_refines(*ao, *bo, *inner, cur + 1, t, t2);
                        lemma_expr_same_symmetric(*bsz, *size);
                        lemma_expr_same_transitive(*asz, *size, *bsz);
                    }
                }
            },
            _ => {
                lemma_expr_same_symmetric(b, e);
                lemma_expr_same_transitive(a, e, b);
            },
        }
    }
}

/// The same for lists of types.
pub proof fn lemma_generalize_list_refines(
    as_: Seq<Expr>,
    bs: Seq<Expr>,
    es: Seq<Expr>,
    cur: nat,
    t: nat,
    t2: nat,
)
    requires
        generalized_list(as_, es, cur, t),
        generalized_list(bs, es, cur, t2),
        t <= t2,
    ensures
        generalized_list(as_, bs, cur, t),
    decreases es,
{
    if es.len() > 0 {
        lemma_generalize_list_refines(as_.drop_last(), bs.drop_last(), es.drop_last(), cur, t, t2);
        lemma_generalize_refines(as_.last(), bs.last(), es.last(), cur, t, t2);
    }
}

/// The layers only gain precision: each layer is any later layer
/// generalized at its own depth.
pub proof fn lemma_layers_refine(layers: Seq<Expr>, ty: Expr, i: int, j: int)
    requires
        forall|k: int| 0 <= k < layers.len() ==> generalized(#[trigger] layers[k], ty, 0, (k + 1) as nat),
        0 <= i < j < layers.len(),
    ensures
        generalized(layers[i], layers[j], 0, (i + 1) as nat),
{
    assert(generalized(layers[i], ty, 0, (i + 1) as nat));
    assert(generalized(layers[j], ty, 0, (j + 1) as nat));
    lemma_generalize_refines(layers[i], layers[j], ty, 0, (i + 1) as nat, (j + 1) as nat);
}

} // verus!

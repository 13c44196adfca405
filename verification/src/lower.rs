//! Lowering the syntax tree to HIR expressions.
//!
//! Expressions are lowered in the context of an owner: the scope that
//! identifiers are resolved from and that `let` and `const` bind into.
//! Lowering threads a state through the tree, from left to right: the HIR
//! table, to which each bound variable adds an entry, and the scopes.
use vstd::prelude::*;
use crate::ast::{Ast, NodeIndex};
use crate::errors::LowerError;
use crate::literal::{parse_int, parse_int_spec, real_parts, split_real};
use crate::luna_hir::{binary_op_name, unary_op_name, BinaryOp, BlockKind, Clause, Definition, Expr, HirId, Import, Param, Pattern, Property, ScopeId, UnaryOp};
use crate::node_kind::{NodeKind, spec_kind_name};
use crate::scope::{
    Item, Scope, ScopeError, ScopeManager, add_item_outcome, imports_fuel, import_target, last_clause_item,
    last_item_named, lemma_lookup_spec_at, lookup_fuel, lookup_spec, resolve_ends, resolve_fuel, resolve_spec,
    same_but_items,
};
use crate::source::SourceMap;
use crate::span::Span;
use crate::symbol::Symbol;
use crate::text::{decimal, push_decimal, push_str, str_eq};

verus! {

/// One entry of the HIR table.
pub enum HirMapping {
    Expr(Expr, HirId),
    Pattern(Pattern, HirId),
    Definition(Definition, HirId),
    Param(Param, HirId),
    Clause(Clause, HirId),
    Package,
    BuiltinPackage,
    Invalid,
}

/// The HIR table: entry `i` is what HIR id `i` stands for.  Id 0 is the
/// invalid entry.
pub struct Hir {
    pub map: Vec<HirMapping>,
    pub source_map: SourceMap,
}

impl Hir {
    /// A table holding only the invalid entry, over the given sources.
    pub fn new(source_map: SourceMap) -> (h: Hir)
        ensures
            h.map@.len() == 1,
            h.map@[0] is Invalid,
            h.source_map == source_map,
    {
        let mut map: Vec<HirMapping> = Vec::new();
        map.push(HirMapping::Invalid);
        Hir { map, source_map }
    }

    /// Adds an entry under the next free id, which it returns.
    pub fn put(&mut self, value: HirMapping) -> (id: HirId)
        ensures
            id == old(self).map@.len(),
            final(self).map@ == old(self).map@.push(value),
            final(self).source_map == old(self).source_map,
    {
        let id = self.map.len();
        self.map.push(value);
        id
    }

    /// Adds a declaring clause under the next free id, with that id as the
    /// clause's own id; returns the id and the stored clause.
    pub fn put_clause(&mut self, clause: Clause) -> (r: (HirId, Clause))
        requires
            clause is TypeDecl || clause is TypeTraitBounded || clause is Decl,
        ensures
            r.0 == old(self).map@.len(),
            r.1 == clause_with_id(clause, r.0),
            final(self).map@ == old(self).map@.push(HirMapping::Clause(r.1, r.0)),
            final(self).source_map == old(self).source_map,
    {
        let id = self.map.len();
        let stored = match clause {
            Clause::TypeDecl { symbol, owner, .. } => Clause::TypeDecl { symbol, owner, self_id: id },
            Clause::TypeTraitBounded { symbol, trait_bound, owner, .. } => Clause::TypeTraitBounded {
                symbol,
                trait_bound,
                owner,
                self_id: id,
            },
            Clause::Decl { symbol, ty, default, owner, .. } => Clause::Decl { symbol, ty, default, owner, self_id: id },
            _ => vstd::pervasive::unreached(),
        };
        self.map.push(HirMapping::Clause(stored, id));
        (id, stored)
    }

    /// The entry of an id, if the table has one.
    pub fn get(&self, id: HirId) -> (r: Option<&HirMapping>)
        ensures
            match r {
                Some(m) => id < self.map@.len() && *m == self.map@[id as int],
                None => id >= self.map@.len(),
            },
    {
        if id < self.map.len() {
            Some(&self.map[id])
        } else {
            None
        }
    }
}

/// A declaring clause with its own id set to `id`.
pub open spec fn clause_with_id(c: Clause, id: HirId) -> Clause {
    match c {
        Clause::TypeDecl { symbol, owner, .. } => Clause::TypeDecl { symbol, owner, self_id: id },
        Clause::TypeTraitBounded { symbol, trait_bound, owner, .. } => Clause::TypeTraitBounded {
            symbol,
            trait_bound,
            owner,
            self_id: id,
        },
        Clause::Decl { symbol, ty, default, owner, .. } => Clause::Decl { symbol, ty, default, owner, self_id: id },
        _ => c,
    }
}

/// The expression that a reserved identifier stands for.
pub open spec fn preserved_spec(name: Seq<char>) -> Option<Expr> {
    if name == "undefined"@ {
        Some(Expr::Undefined)
    } else if name == "null"@ {
        Some(Expr::Null)
    } else if name == "self"@ {
        Some(Expr::SelfVal)
    } else if name == "Self"@ {
        Some(Expr::TySelf)
    } else if name == "any"@ {
        Some(Expr::Any)
    } else if name == "Any"@ {
        Some(Expr::TyAny)
    } else if name == "NoReturn"@ {
        Some(Expr::TyNoReturn)
    } else if name == "void"@ {
        Some(Expr::TyVoid)
    } else if name == "bool"@ {
        Some(Expr::TyBool)
    } else {
        None
    }
}

/// The expression of a reserved identifier, if `name` is one.
pub fn preserved_expr(name: &str) -> (r: Option<Expr>)
    ensures
        r == preserved_spec(name@),
{
    if str_eq(name, "undefined") {
        Some(Expr::Undefined)
    } else if str_eq(name, "null") {
        Some(Expr::Null)
    } else if str_eq(name, "self") {
        Some(Expr::SelfVal)
    } else if str_eq(name, "Self") {
        Some(Expr::TySelf)
    } else if str_eq(name, "any") {
        Some(Expr::Any)
    } else if str_eq(name, "Any") {
        Some(Expr::TyAny)
    } else if str_eq(name, "NoReturn") {
        Some(Expr::TyNoReturn)
    } else if str_eq(name, "void") {
        Some(Expr::TyVoid)
    } else if str_eq(name, "bool") {
        Some(Expr::TyBool)
    } else {
        None
    }
}

/// Marks the witnesses of the existential steps below.
pub open spec fn picked<A>(x: A) -> bool {
    true
}

/// The state that lowering threads: the HIR table and the scopes.
pub type LState = (Seq<HirMapping>, Map<ScopeId, Scope>);

/// The trimmed source text of a node; `None` for what is not a node or has
/// no loaded text.
pub open spec fn text_of(a: Ast, sm: SourceMap, n: NodeIndex) -> Option<Seq<char>> {
    if a.is_node(n) {
        sm.span_text(a.spans@[n as int])
    } else {
        None
    }
}

/// The text of `n` can be asked for without a fault.
pub open spec fn text_ready(a: Ast, sm: SourceMap, n: NodeIndex) -> bool {
    &&& n as int != a.nodes@.len()
    &&& a.is_node(n) ==> sm.span_text_ok(a.spans@[n as int])
}

/// `n` is a node with source text.
pub open spec fn has_text(a: Ast, sm: SourceMap, n: NodeIndex) -> bool {
    text_ready(a, sm, n) && text_of(a, sm, n) is Some
}

/// The group of child indices stored at position `p` can be read.
pub open spec fn group_ok(a: Ast, p: NodeIndex) -> bool {
    a.group_in_bounds(p) && a.group_at(p) is Some
}

/// The group of child indices stored at position `p`.
pub open spec fn group(a: Ast, p: NodeIndex) -> Seq<NodeIndex> {
    a.group_at(p).unwrap()
}

/// `r` is an internal error with message `m`.
pub open spec fn internal_err<T>(r: Result<T, LowerError>, m: Seq<char>) -> bool {
    r matches Err(LowerError::InternalError(s)) && s@ == m
}

/// `r` is a literal error with message `m` at `sp`.
pub open spec fn literal_err<T>(r: Result<T, LowerError>, m: Seq<char>, sp: Span) -> bool {
    r matches Err(LowerError::LiteralError { message, span }) && message@ == m && span == sp
}

/// `r` is an unresolved-identifier error with message `m` at `sp`.
pub open spec fn unresolved_err<T>(r: Result<T, LowerError>, m: Seq<char>, sp: Span) -> bool {
    r matches Err(LowerError::UnresolvedIdentifier { message, span }) && message@ == m && span == sp
}

/// `r` is a scope error with message `m`.
pub open spec fn scope_err<T>(r: Result<T, LowerError>, m: Seq<char>) -> bool {
    r matches Err(LowerError::ScopeError(s)) && s@ == m
}

/// `prefix`, then `t` in backquotes.
pub open spec fn quoted(prefix: Seq<char>, t: Seq<char>) -> Seq<char> {
    prefix + "`"@ + t + "`"@
}

/// The expression of a node kind that lowers to a constant.
pub open spec fn special_expr(k: NodeKind) -> Option<Expr> {
    match k {
        NodeKind::SelfCap => Some(Expr::TySelf),
        NodeKind::SelfLower => Some(Expr::SelfVal),
        NodeKind::Unit => Some(Expr::Unit),
        NodeKind::Null => Some(Expr::Null),
        _ => None,
    }
}

/// The operator of a unary node kind.
pub open spec fn unary_op_of(k: NodeKind) -> Option<UnaryOp> {
    match k {
        NodeKind::BoolNot => Some(UnaryOp::Not),
        NodeKind::Refer => Some(UnaryOp::Refer),
        NodeKind::Deref => Some(UnaryOp::Deref),
        _ => None,
    }
}

/// The operator of a binary node kind that lowers to one.
pub open spec fn binary_op_of(k: NodeKind) -> Option<BinaryOp> {
    match k {
        NodeKind::Add => Some(BinaryOp::Add),
        NodeKind::Sub => Some(BinaryOp::Sub),
        NodeKind::Mul => Some(BinaryOp::Mul),
        NodeKind::Div => Some(BinaryOp::Div),
        NodeKind::BoolEq => Some(BinaryOp::BoolEq),
        NodeKind::BoolNotEq => Some(BinaryOp::BoolNotEq),
        NodeKind::BoolLt => Some(BinaryOp::BoolLt),
        NodeKind::BoolGt => Some(BinaryOp::BoolGt),
        NodeKind::BoolLtEq => Some(BinaryOp::BoolLtEq),
        NodeKind::BoolGtEq => Some(BinaryOp::BoolGtEq),
        NodeKind::BoolAnd => Some(BinaryOp::BoolAnd),
        NodeKind::BoolOr => Some(BinaryOp::BoolOr),
        NodeKind::TypedWith => Some(BinaryOp::BoolTypedWith),
        _ => None,
    }
}

/// Whether `k` is a literal kind.
pub open spec fn is_literal_kind(k: NodeKind) -> bool {
    k == NodeKind::Int || k == NodeKind::Real || k == NodeKind::Str || k == NodeKind::Bool
}

/// Whether `k` is a range kind with one operand.
pub open spec fn is_range1(k: NodeKind) -> bool {
    k == NodeKind::RangeFrom || k == NodeKind::RangeTo || k == NodeKind::RangeToInclusive
}

/// Whether `k` is a range kind with two operands.
pub open spec fn is_range2(k: NodeKind) -> bool {
    k == NodeKind::RangeFromTo || k == NodeKind::RangeFromToInclusive
}

/// The kind of argument node that carries a name and a value, for a call
/// kind; `None` for other kinds.
pub open spec fn named_arg_kind(k: NodeKind) -> Option<NodeKind> {
    match k {
        NodeKind::Application => Some(NodeKind::OptionalArg),
        NodeKind::NormalFormApplication => Some(NodeKind::OptionalArg),
        NodeKind::ExtendedApplication => Some(NodeKind::Property),
        _ => None,
    }
}

/// The result of lowering a literal node `n` of kind `k`, whose text is `t`.
pub open spec fn literal_lowers(a: Ast, n: NodeIndex, k: NodeKind, t: Seq<char>, r: Result<Expr, LowerError>) -> bool {
    let sp = a.spans@[n as int];
    if k == NodeKind::Int {
        match parse_int_spec(t, true, i64::MIN as int, i64::MAX as int) {
            Some(v) => r == Ok::<Expr, LowerError>(Expr::IntLiteral(v as i64)),
            None => literal_err(r, quoted("Invalid integer literal: "@, t), sp),
        }
    } else if k == NodeKind::Real {
        match real_parts(t) {
            None => literal_err(r, quoted("Invalid real literal: "@, t), sp),
            Some((p, q)) => match parse_int_spec(p, true, i32::MIN as int, i32::MAX as int) {
                None => literal_err(r, quoted("Invalid decimal part: "@, p), sp),
                Some(d) => match parse_int_spec(q, false, 0, u32::MAX as int) {
                    None => literal_err(r, quoted("Invalid numeric part: "@, q), sp),
                    Some(u) => r == Ok::<Expr, LowerError>(Expr::RealLiteral(d as i32, u as u32)),
                },
            },
        }
    } else if k == NodeKind::Str {
        r matches Ok(Expr::StrLiteral(s)) && s@ == t
    } else {
        r == Ok::<Expr, LowerError>(Expr::BoolLiteral(t == "true"@))
    }
}

/// The result of lowering identifier `n`, whose text is `t`, from scope
/// `o` in scopes `m`: a reserved identifier's expression, else a reference
/// to the node that the name resolves to.
pub open spec fn ident_lowers(
    a: Ast,
    o: Option<ScopeId>,
    m: Map<ScopeId, Scope>,
    n: NodeIndex,
    t: Seq<char>,
    r: Result<Expr, LowerError>,
) -> bool {
    match preserved_spec(t) {
        Some(e) => r == Ok::<Expr, LowerError>(e),
        None => o is Some && match resolve_spec(m, t, o.unwrap()) {
            Some((_, it)) => r == Ok::<Expr, LowerError>(Expr::Ref(it.hir_id)),
            None => unresolved_err(r, quoted("Unresolved identifier: "@, t), a.spans@[n as int]),
        },
    }
}

/// The message of a refused variable binding.
pub open spec fn scope_error_text(e: ScopeError) -> Seq<char> {
    "Failed to add variable to scope: "@ + match e {
        ScopeError::InvalidParentScope(s) => "InvalidParentScope("@ + decimal(s as nat) + ")"@,
        ScopeError::DuplicateSymbol(_) => "DuplicateSymbol"@,
    }
}

/// Lowering node `n` from state `s0` ends in state `s1` with result `r`,
/// looking at most `fuel` levels deep.  False where lowering faults: an
/// index one past the last node, a kind it has no rule for, a missing
/// child slot or source text, an `implies` operator.
pub open spec fn lowers(
    a: Ast,
    sm: SourceMap,
    o: Option<ScopeId>,
    s0: LState,
    n: NodeIndex,
    s1: LState,
    r: Result<Expr, LowerError>,
    fuel: nat,
) -> bool
    decreases fuel, 3int,
{
    if fuel == 0 || n as int == a.nodes@.len() {
        false
    } else if !a.is_node(n) {
        s1 == s0 && internal_err(r, "Invalid node index"@)
    } else {
        let k = a.nodes@[n as int];
        let cs = a.children_of(n);
        let f = (fuel - 1) as nat;
        if special_expr(k) is Some {
            s1 == s0 && r == Ok::<Expr, LowerError>(special_expr(k).unwrap())
        } else if unary_op_of(k) is Some {
            cs.len() >= 1 && exists|re: Result<Expr, LowerError>|
                #[trigger] picked(re) && lowers(a, sm, o, s0, cs[0], s1, re, f) && match re {
                    Err(e) => r == Err::<Expr, LowerError>(e),
                    Ok(x) => r == Ok::<Expr, LowerError>(
                        Expr::UnaryApply { expr: Box::new(x), op: unary_op_of(k).unwrap() },
                    ),
                }
        } else if is_literal_kind(k) {
            s1 == s0 && has_text(a, sm, n) && literal_lowers(a, n, k, text_of(a, sm, n).unwrap(), r)
        } else if k == NodeKind::Symbol {
            s1 == s0 && cs.len() >= 1 && has_text(a, sm, cs[0]) && (r matches Ok(Expr::SymbolLiteral(s))
                && s@ == text_of(a, sm, cs[0]).unwrap())
        } else if k == NodeKind::Id {
            s1 == s0 && has_text(a, sm, n) && ident_lowers(a, o, s0.1, n, text_of(a, sm, n).unwrap(), r)
        } else if binary_op_of(k) is Some || k == NodeKind::BoolImplies {
            cs.len() >= 2 && exists|m: LState, rl: Result<Expr, LowerError>|
                #[trigger] picked((m, rl)) && lowers(a, sm, o, s0, cs[0], m, rl, f) && match rl {
                    Err(e) => s1 == m && r == Err::<Expr, LowerError>(e),
                    Ok(l) => exists|rr: Result<Expr, LowerError>|
                        #[trigger] picked(rr) && lowers(a, sm, o, m, cs[1], s1, rr, f) && match rr {
                            Err(e) => r == Err::<Expr, LowerError>(e),
                            Ok(x) => binary_op_of(k) is Some && r == Ok::<Expr, LowerError>(
                                Expr::BinaryApply { left: Box::new(l), right: Box::new(x), op: binary_op_of(k).unwrap() },
                            ),
                        },
                }
        } else if k == NodeKind::RangeFull {
            s1 == s0 && r == Ok::<Expr, LowerError>(
                Expr::Range { from: Box::new(Expr::Null), to: Box::new(Expr::Null), inclusive: false },
            )
        } else if is_range1(k) {
            cs.len() >= 1 && exists|re: Result<Expr, LowerError>|
                #[trigger] picked(re) && lowers(a, sm, o, s0, cs[0], s1, re, f) && match re {
                    Err(e) => r == Err::<Expr, LowerError>(e),
                    Ok(x) => r == Ok::<Expr, LowerError>(
                        if k == NodeKind::RangeFrom {
                            Expr::Range { from: Box::new(x), to: Box::new(Expr::Null), inclusive: false }
                        } else {
                            Expr::Range { from: Box::new(Expr::Null), to: Box::new(x), inclusive: k == NodeKind::RangeToInclusive }
                        },
                    ),
                }
        } else if is_range2(k) {
            cs.len() >= 2 && exists|m: LState, rl: Result<Expr, LowerError>|
                #[trigger] picked((m, rl)) && lowers(a, sm, o, s0, cs[0], m, rl, f) && match rl {
                    Err(e) => s1 == m && r == Err::<Expr, LowerError>(e),
                    Ok(l) => exists|rr: Result<Expr, LowerError>|
                        #[trigger] picked(rr) && lowers(a, sm, o, m, cs[1], s1, rr, f) && match rr {
                            Err(e) => r == Err::<Expr, LowerError>(e),
                            Ok(x) => r == Ok::<Expr, LowerError>(
                                Expr::Range { from: Box::new(l), to: Box::new(x), inclusive: k == NodeKind::RangeFromToInclusive },
                            ),
                        },
                }
        } else if k == NodeKind::Select {
            select_lowers(a, sm, o, s0, cs, s1, r, f)
        } else if k == NodeKind::ListOf || k == NodeKind::Tuple || k == NodeKind::Block {
            cs.len() >= 1 && group_ok(a, cs[0]) && exists|rs: Result<Seq<Expr>, LowerError>|
                #[trigger] picked(rs) && lowers_seq(a, sm, o, s0, group(a, cs[0]), s1, rs, f) && match rs {
                    Err(e) => r == Err::<Expr, LowerError>(e),
                    Ok(es) => if k == NodeKind::ListOf {
                        r matches Ok(Expr::List(v)) && v@ == es
                    } else if k == NodeKind::Tuple {
                        r matches Ok(Expr::Tuple(v)) && v@ == es
                    } else {
                        r matches Ok(Expr::Block(bk, v)) && bk == BlockKind::Normal && v@ == es
                    },
                }
        } else if k == NodeKind::Object {
            cs.len() >= 1 && group_ok(a, cs[0]) && exists|rs: Result<(Seq<Expr>, Seq<Property>), LowerError>|
                #[trigger] picked(rs) && lowers_entries(a, sm, o, s0, group(a, cs[0]), s1, rs, NodeKind::Property, "Invalid Object child node"@, f)
                && match rs {
                    Err(e) => r == Err::<Expr, LowerError>(e),
                    Ok((es, ps)) => r matches Ok(Expr::Object(v, p)) && v@ == es && p@ == ps,
                }
        } else if named_arg_kind(k) is Some {
            call_lowers(a, sm, o, s0, k, cs, s1, r, f)
        } else if k == NodeKind::ExprStatement {
            cs.len() >= 1 && exists|re: Result<Expr, LowerError>|
                #[trigger] picked(re) && lowers(a, sm, o, s0, cs[0], s1, re, f) && match re {
                    Err(e) => r == Err::<Expr, LowerError>(e),
                    Ok(x) => r == Ok::<Expr, LowerError>(Expr::ExprStatement(Box::new(x))),
                }
        } else if k == NodeKind::IfStatement {
            if_lowers(a, sm, o, s0, cs, s1, r, f)
        } else if k == NodeKind::LetDecl || k == NodeKind::ConstDecl {
            decl_lowers(a, sm, o, s0, k, cs, s1, r, f)
        } else {
            false
        }
    }
}

/// Lowering a sequence of nodes in order, stopping at the first error.
pub open spec fn lowers_seq(
    a: Ast,
    sm: SourceMap,
    o: Option<ScopeId>,
    s0: LState,
    ns: Seq<NodeIndex>,
    s1: LState,
    r: Result<Seq<Expr>, LowerError>,
    fuel: nat,
) -> bool
    decreases fuel, ns.len() + 4,
{
    if ns.len() == 0 {
        s1 == s0 && r == Ok::<Seq<Expr>, LowerError>(Seq::empty())
    } else {
        exists|m: LState, rp: Result<Seq<Expr>, LowerError>|
            #[trigger] picked((m, rp)) && lowers_seq(a, sm, o, s0, ns.drop_last(), m, rp, fuel) && match rp {
                Err(e) => s1 == m && r == Err::<Seq<Expr>, LowerError>(e),
                Ok(es) => exists|re: Result<Expr, LowerError>|
                    #[trigger] picked(re) && lowers(a, sm, o, m, ns.last(), s1, re, fuel) && match re {
                        Err(e) => r == Err::<Seq<Expr>, LowerError>(e),
                        Ok(x) => r == Ok::<Seq<Expr>, LowerError>(es.push(x)),
                    },
            }
    }
}

/// One more entry of an object or argument list: a node of kind `pk`
/// becomes a named property, any other node an element; `msg` is the error
/// for what is not a node.
pub open spec fn entry_step(
    a: Ast,
    sm: SourceMap,
    o: Option<ScopeId>,
    m: LState,
    x: NodeIndex,
    es: Seq<Expr>,
    ps: Seq<Property>,
    s1: LState,
    r: Result<(Seq<Expr>, Seq<Property>), LowerError>,
    pk: NodeKind,
    msg: Seq<char>,
    fuel: nat,
) -> bool
    decreases fuel, 4int,
{
    if x as int == a.nodes@.len() {
        false
    } else if !a.is_node(x) {
        s1 == m && internal_err(r, msg)
    } else if a.nodes@[x as int] == pk {
        let cc = a.children_of(x);
        cc.len() >= 2 && has_text(a, sm, cc[0]) && exists|rv: Result<Expr, LowerError>|
            #[trigger] picked(rv) && lowers(a, sm, o, m, cc[1], s1, rv, fuel) && match rv {
                Err(e) => r == Err::<(Seq<Expr>, Seq<Property>), LowerError>(e),
                Ok(v) => r matches Ok((es2, ps2)) && es2 == es && ps2.len() == ps.len() + 1
                    && ps2.drop_last() == ps && ps2.last().name@ == text_of(a, sm, cc[0]).unwrap()
                    && *ps2.last().value == v,
            }
    } else {
        exists|re: Result<Expr, LowerError>|
            #[trigger] picked(re) && lowers(a, sm, o, m, x, s1, re, fuel) && match re {
                Err(e) => r == Err::<(Seq<Expr>, Seq<Property>), LowerError>(e),
                Ok(v) => r == Ok::<(Seq<Expr>, Seq<Property>), LowerError>((es.push(v), ps)),
            }
    }
}

/// Lowering the entries of an object or argument list in order, stopping at
/// the first error.
pub open spec fn lowers_entries(
    a: Ast,
    sm: SourceMap,
    o: Option<ScopeId>,
    s0: LState,
    ns: Seq<NodeIndex>,
    s1: LState,
    r: Result<(Seq<Expr>, Seq<Property>), LowerError>,
    pk: NodeKind,
    msg: Seq<char>,
    fuel: nat,
) -> bool
    decreases fuel, ns.len() + 5,
{
    if ns.len() == 0 {
        s1 == s0 && r == Ok::<(Seq<Expr>, Seq<Property>), LowerError>((Seq::empty(), Seq::empty()))
    } else {
        exists|m: LState, rp: Result<(Seq<Expr>, Seq<Property>), LowerError>|
            #[trigger] picked((m, rp)) && lowers_entries(a, sm, o, s0, ns.drop_last(), m, rp, pk, msg, fuel) && match rp {
                Err(e) => s1 == m && r == Err::<(Seq<Expr>, Seq<Property>), LowerError>(e),
                Ok((es, ps)) => entry_step(a, sm, o, m, ns.last(), es, ps, s1, r, pk, msg, fuel),
            }
    }
}

/// Lowering a selection `cs[0].cs[1]`.
pub open spec fn select_lowers(
    a: Ast,
    sm: SourceMap,
    o: Option<ScopeId>,
    s0: LState,
    cs: Seq<NodeIndex>,
    s1: LState,
    r: Result<Expr, LowerError>,
    fuel: nat,
) -> bool
    decreases fuel + 1, 0int,
{
    if cs.len() < 2 {
        s1 == s0 && internal_err(r, "Select node missing children"@)
    } else {
        exists|re: Result<Expr, LowerError>|
            #[trigger] picked(re) && lowers(a, sm, o, s0, cs[0], s1, re, fuel) && match re {
                Err(e) => r == Err::<Expr, LowerError>(e),
                Ok(x) => text_ready(a, sm, cs[1]) && match text_of(a, sm, cs[1]) {
                    None => internal_err(r, "Failed to get selected ID"@),
                    Some(t) => r matches Ok(Expr::Select(b, s)) && *b == x && s@ == t,
                },
            }
    }
}

/// Lowering a call of kind `k`: the callee `cs[0]`, then the argument
/// group at `cs[1]`.
pub open spec fn call_lowers(
    a: Ast,
    sm: SourceMap,
    o: Option<ScopeId>,
    s0: LState,
    k: NodeKind,
    cs: Seq<NodeIndex>,
    s1: LState,
    r: Result<Expr, LowerError>,
    fuel: nat,
) -> bool
    decreases fuel + 1, 0int,
{
    cs.len() >= 2 && named_arg_kind(k) is Some && exists|m: LState, rc: Result<Expr, LowerError>|
        #[trigger] picked((m, rc)) && lowers(a, sm, o, s0, cs[0], m, rc, fuel) && match rc {
            Err(e) => s1 == m && r == Err::<Expr, LowerError>(e),
            Ok(c) => group_ok(a, cs[1]) && exists|rs: Result<(Seq<Expr>, Seq<Property>), LowerError>|
                #[trigger] picked(rs) && lowers_entries(
                    a,
                    sm,
                    o,
                    m,
                    group(a, cs[1]),
                    s1,
                    rs,
                    named_arg_kind(k).unwrap(),
                    "Invalid call argument node"@,
                    fuel,
                ) && match rs {
                    Err(e) => r == Err::<Expr, LowerError>(e),
                    Ok((es, ps)) => if k == NodeKind::Application {
                        r matches Ok(Expr::FnApply { callee, args, optional_args }) && *callee == c
                            && args@ == es && optional_args@ == ps
                    } else if k == NodeKind::NormalFormApplication {
                        r matches Ok(Expr::NormalFormFnApply { callee, args, optional_args }) && *callee == c
                            && args@ == es && optional_args@ == ps
                    } else {
                        r matches Ok(Expr::FnObjectApply { callee, elements, properties }) && *callee == c
                            && elements@ == es && properties@ == ps
                    },
                },
        }
}

/// Lowering `if cs[0]`: the condition, then the group at `cs[0]` as the
/// block, then the `else` node `cs[2]` where it is not 0.
pub open spec fn if_lowers(
    a: Ast,
    sm: SourceMap,
    o: Option<ScopeId>,
    s0: LState,
    cs: Seq<NodeIndex>,
    s1: LState,
    r: Result<Expr, LowerError>,
    fuel: nat,
) -> bool
    decreases fuel + 1, 0int,
{
    cs.len() >= 3 && exists|m1: LState, rc: Result<Expr, LowerError>|
        #[trigger] picked((m1, rc)) && lowers(a, sm, o, s0, cs[0], m1, rc, fuel) && match rc {
            Err(e) => s1 == m1 && r == Err::<Expr, LowerError>(e),
            Ok(c) => group_ok(a, cs[0]) && exists|m2: LState, rt: Result<Seq<Expr>, LowerError>|
                #[trigger] picked((m2, rt)) && lowers_seq(a, sm, o, m1, group(a, cs[0]), m2, rt, fuel) && match rt {
                    Err(e) => s1 == m2 && r == Err::<Expr, LowerError>(e),
                    Ok(ts) => if cs[2] == 0 {
                        s1 == m2 && (r matches Ok(Expr::If { condition, then_branch, else_branch })
                            && *condition == c && (*then_branch matches Expr::Block(bk, v)
                            && bk == BlockKind::Normal && v@ == ts) && else_branch is None)
                    } else if cs[2] as int == a.nodes@.len() {
                        false
                    } else if !a.is_node(cs[2]) {
                        s1 == m2 && internal_err(r, "Invalid else branch"@)
                    } else {
                        exists|re: Result<Expr, LowerError>|
                            #[trigger] picked(re) && lowers(a, sm, o, m2, cs[2], s1, re, fuel) && match re {
                                Err(e) => r == Err::<Expr, LowerError>(e),
                                Ok(x) => r matches Ok(Expr::If { condition, then_branch, else_branch })
                                    && *condition == c && (*then_branch matches Expr::Block(bk, v)
                                    && bk == BlockKind::Normal && v@ == ts) && (else_branch matches Some(eb)
                                    && *eb == x),
                            }
                    },
                },
        }
}

/// Lowering the pattern of a binding: an identifier becomes a variable,
/// which is the one name it binds.  False for other patterns.
pub open spec fn pattern_lowers(
    a: Ast,
    sm: SourceMap,
    n: NodeIndex,
    r: Result<(Pattern, Seq<Symbol>), LowerError>,
) -> bool {
    if n as int == a.nodes@.len() {
        false
    } else if !a.is_node(n) {
        internal_err(r, "Invalid node index"@)
    } else {
        a.nodes@[n as int] == NodeKind::Id && has_text(a, sm, n) && (r matches Ok((p, vs))
            && (p matches Pattern::Variable(s) && s@ == text_of(a, sm, n).unwrap() && vs == seq![s]))
    }
}

/// Binding the variable `v` in scope `sid`: a new HIR entry for it, then
/// the scope binding; a refused binding of a name that is bound already is
/// passed over, any other refusal is an error.
pub open spec fn bind_lowers(
    m: LState,
    v: Symbol,
    sid: ScopeId,
    s1: LState,
    ok: Expr,
    r: Result<Expr, LowerError>,
) -> bool {
    let item = Item { symbol: v, hir_id: m.0.len() as HirId, scope_id: None };
    &&& s1.0 == m.0.push(HirMapping::Expr(Expr::Ref(0), 0))
    &&& exists|res: Result<(), ScopeError>|
        #[trigger] picked(res) && add_item_outcome(m.1, s1.1, item, sid, res) && match res {
            Ok(_) => r == Ok::<Expr, LowerError>(ok),
            Err(ScopeError::DuplicateSymbol(_)) => r == Ok::<Expr, LowerError>(ok),
            Err(e) => scope_err(r, scope_error_text(e)),
        }
}

/// Lowering `let` or `const`: the pattern `cs[0]`, the type `cs[1]` (or
/// `undefined` when it is 0), the initializer `cs[2]`, then the binding of
/// the pattern's variable in the owner's scope.
pub open spec fn decl_lowers(
    a: Ast,
    sm: SourceMap,
    o: Option<ScopeId>,
    s0: LState,
    k: NodeKind,
    cs: Seq<NodeIndex>,
    s1: LState,
    r: Result<Expr, LowerError>,
    fuel: nat,
) -> bool
    decreases fuel + 1, 0int,
{
    cs.len() >= 3 && exists|rp: Result<(Pattern, Seq<Symbol>), LowerError>|
        #[trigger] picked(rp) && pattern_lowers(a, sm, cs[0], rp) && match rp {
            Err(e) => s1 == s0 && r == Err::<Expr, LowerError>(e),
            Ok((p, vs)) => exists|m1: LState, rt: Result<Expr, LowerError>|
                #[trigger] picked((m1, rt)) && ty_lowers(a, sm, o, s0, cs[1], m1, rt, fuel) && match rt {
                    Err(e) => s1 == m1 && r == Err::<Expr, LowerError>(e),
                    Ok(t) => exists|m2: LState, ri: Result<Expr, LowerError>|
                        #[trigger] picked((m2, ri)) && lowers(a, sm, o, m1, cs[2], m2, ri, fuel) && match ri {
                            Err(e) => s1 == m2 && r == Err::<Expr, LowerError>(e),
                            Ok(i) => o is Some && bind_lowers(m2, vs[0], o.unwrap(), s1, decl_expr(k, p, t, i), r),
                        },
                },
        }
}

/// The type of a binding: the node `n` lowered, or `undefined` when `n` is 0.
pub open spec fn ty_lowers(
    a: Ast,
    sm: SourceMap,
    o: Option<ScopeId>,
    s0: LState,
    n: NodeIndex,
    s1: LState,
    r: Result<Expr, LowerError>,
    fuel: nat,
) -> bool
    decreases fuel, 4int,
{
    if n == 0 {
        s1 == s0 && r == Ok::<Expr, LowerError>(Expr::Undefined)
    } else {
        lowers(a, sm, o, s0, n, s1, r, fuel)
    }
}

/// The expression of a `let` (or, for `ConstDecl`, a `const`) binding.
pub open spec fn decl_expr(k: NodeKind, p: Pattern, t: Expr, i: Expr) -> Expr {
    if k == NodeKind::LetDecl {
        Expr::Let { pattern: Box::new(p), ty: Box::new(t), init: Box::new(i) }
    } else {
        Expr::Const { pattern: Box::new(p), ty: Box::new(t), init: Box::new(i) }
    }
}

/// Lowering node `n` cannot fault within `fuel` levels, whatever the
/// state: its kind has a rule, the child slots, groups and source texts
/// that the rule reads are there, identifiers that are not reserved and
/// bindings have a scope to work in, and no `implies` operator occurs.
pub open spec fn can_lower(a: Ast, sm: SourceMap, o: Option<ScopeId>, n: NodeIndex, fuel: nat) -> bool
    decreases fuel, 2int,
{
    fuel > 0 && n as int != a.nodes@.len() && (a.is_node(n) ==> {
        let k = a.nodes@[n as int];
        let cs = a.children_of(n);
        let f = (fuel - 1) as nat;
        if special_expr(k) is Some || k == NodeKind::RangeFull {
            true
        } else if unary_op_of(k) is Some || is_range1(k) || k == NodeKind::ExprStatement {
            cs.len() >= 1 && can_lower(a, sm, o, cs[0], f)
        } else if is_literal_kind(k) {
            has_text(a, sm, n)
        } else if k == NodeKind::Symbol {
            cs.len() >= 1 && has_text(a, sm, cs[0])
        } else if k == NodeKind::Id {
            has_text(a, sm, n) && (preserved_spec(text_of(a, sm, n).unwrap()) is Some || o is Some)
        } else if binary_op_of(k) is Some || is_range2(k) {
            cs.len() >= 2 && can_lower(a, sm, o, cs[0], f) && can_lower(a, sm, o, cs[1], f)
        } else if k == NodeKind::Select {
            cs.len() < 2 || (can_lower(a, sm, o, cs[0], f) && text_ready(a, sm, cs[1]))
        } else if k == NodeKind::ListOf || k == NodeKind::Tuple || k == NodeKind::Block {
            cs.len() >= 1 && group_ok(a, cs[0]) && can_lower_all(a, sm, o, group(a, cs[0]), f)
        } else if k == NodeKind::Object {
            cs.len() >= 1 && group_ok(a, cs[0]) && can_entries(a, sm, o, group(a, cs[0]), NodeKind::Property, f)
        } else if named_arg_kind(k) is Some {
            cs.len() >= 2 && can_lower(a, sm, o, cs[0], f) && group_ok(a, cs[1]) && can_entries(
                a,
                sm,
                o,
                group(a, cs[1]),
                named_arg_kind(k).unwrap(),
                f,
            )
        } else if k == NodeKind::IfStatement {
            &&& cs.len() >= 3
            &&& can_lower(a, sm, o, cs[0], f)
            &&& group_ok(a, cs[0])
            &&& can_lower_all(a, sm, o, group(a, cs[0]), f)
            &&& cs[2] as int != a.nodes@.len()
            &&& (cs[2] != 0 && a.is_node(cs[2])) ==> can_lower(a, sm, o, cs[2], f)
        } else if k == NodeKind::LetDecl || k == NodeKind::ConstDecl {
            &&& cs.len() >= 3
            &&& cs[0] as int != a.nodes@.len()
            &&& a.is_node(cs[0]) ==> a.nodes@[cs[0] as int] == NodeKind::Id && has_text(a, sm, cs[0])
            &&& cs[1] != 0 ==> can_lower(a, sm, o, cs[1], f)
            &&& can_lower(a, sm, o, cs[2], f)
            &&& o is Some
        } else {
            false
        }
    })
}

/// Every node of `ns` can be lowered within `fuel` levels.
pub open spec fn can_lower_all(a: Ast, sm: SourceMap, o: Option<ScopeId>, ns: Seq<NodeIndex>, fuel: nat) -> bool
    decreases fuel + 1, 0int,
{
    forall|i: int| 0 <= i < ns.len() ==> can_lower(a, sm, o, #[trigger] ns[i], fuel)
}

/// Every entry of `ns` can be lowered within `fuel` levels, a node of kind
/// `pk` as a named property.
pub open spec fn can_entries(a: Ast, sm: SourceMap, o: Option<ScopeId>, ns: Seq<NodeIndex>, pk: NodeKind, fuel: nat) -> bool
    decreases fuel + 1, 1int,
{
    forall|i: int| 0 <= i < ns.len() ==> entry_ok(a, sm, o, #[trigger] ns[i], pk, fuel)
}

/// The entry `x` can be lowered within `fuel` levels.
pub open spec fn entry_ok(a: Ast, sm: SourceMap, o: Option<ScopeId>, x: NodeIndex, pk: NodeKind, fuel: nat) -> bool
    decreases fuel + 1, 0int,
{
    x as int != a.nodes@.len() && (a.is_node(x) ==> if a.nodes@[x as int] == pk {
        let cc = a.children_of(x);
        cc.len() >= 2 && has_text(a, sm, cc[0]) && can_lower(a, sm, o, cc[1], fuel)
    } else {
        can_lower(a, sm, o, x, fuel)
    })
}

/// Every name resolves to an end from scope `o`.
pub open spec fn ends_from(m: Map<ScopeId, Scope>, o: Option<ScopeId>) -> bool {
    o is Some ==> forall|name: Seq<char>| #[trigger] resolve_ends(m, name, o.unwrap())
}

/// The lowering context: the HIR table and the scopes.
pub struct LoweringContext {
    pub hir: Hir,
    pub scopes: ScopeManager,
}

/// What lowering from owner scope `o` keeps: the sources, the scope ids,
/// the entries already in the table, and that names resolve to an end.
pub open spec fn lowering_keeps(c0: LoweringContext, c1: LoweringContext, o: Option<ScopeId>) -> bool {
    &&& c1.hir.source_map == c0.hir.source_map
    &&& c1.scopes.wf()
    &&& c1.scopes.root_id() == c0.scopes.root_id()
    &&& c1.scopes.next_id() == c0.scopes.next_id()
    &&& ends_from(c1.scopes@, o)
    &&& c0.hir.map@.len() <= c1.hir.map@.len()
    &&& c1.hir.map@.subrange(0, c0.hir.map@.len() as int) == c0.hir.map@
}

/// The list result of a lowering, by its view.
pub open spec fn seq_result(r: Result<Vec<Expr>, LowerError>) -> Result<Seq<Expr>, LowerError> {
    match r {
        Ok(v) => Ok(v@),
        Err(e) => Err(e),
    }
}

/// The entries result of a lowering, by its views.
pub open spec fn entries_result(r: Result<(Vec<Expr>, Vec<Property>), LowerError>) -> Result<(Seq<Expr>, Seq<Property>), LowerError> {
    match r {
        Ok((v, p)) => Ok((v@, p@)),
        Err(e) => Err(e),
    }
}

/// The pattern result of a lowering, by its view.
pub open spec fn pattern_result(r: Result<(Pattern, Vec<Symbol>), LowerError>) -> Result<(Pattern, Seq<Symbol>), LowerError> {
    match r {
        Ok((p, v)) => Ok((p, v@)),
        Err(e) => Err(e),
    }
}

/// `m2` is `m` with `item` bound in scope `sid`.
pub open spec fn item_added(m: Map<ScopeId, Scope>, m2: Map<ScopeId, Scope>, item: Item, sid: ScopeId) -> bool {
    &&& m.contains_key(sid)
    &&& m2 == m.insert(sid, m2[sid])
    &&& same_but_items(m[sid], m2[sid], m[sid].items@.push(item))
}

/// `y` finds at least what `x` finds: it ends where `x` ends, and it finds
/// an item where `x` finds one.
pub open spec fn finds_more(x: Option<Option<Item>>, y: Option<Option<Item>>) -> bool {
    match x {
        None => true,
        Some(None) => y is Some,
        Some(Some(_)) => y matches Some(Some(_)),
    }
}

proof fn lemma_lookup_added(
    m: Map<ScopeId, Scope>,
    m2: Map<ScopeId, Scope>,
    item: Item,
    sid: ScopeId,
    name: Seq<char>,
    s: ScopeId,
    fuel: nat,
)
    requires
        item_added(m, m2, item, sid),
    ensures
        finds_more(lookup_fuel(m, name, s, fuel), lookup_fuel(m2, name, s, fuel)),
    decreases fuel, 0int,
{
    if fuel > 0 && m.contains_key(s) {
        assert(m2.contains_key(s));
        let items = m[s].items@;
        let items2 = m2[s].items@;
        if s == sid {
            assert(items2 == items.push(item));
            assert(items2.drop_last() =~= items);
            assert(items2.last() == item);
        } else {
            assert(m2[s] == m[s]);
        }
        assert(m2[s].imports@ == m[s].imports@);
        if last_item_named(items, name) is None && last_item_named(items2, name) is None {
            lemma_imports_added(m, m2, item, sid, name, m[s].imports@, m[s].imports@.len() as int, (fuel - 1) as nat);
        }
    }
}

proof fn lemma_imports_added(
    m: Map<ScopeId, Scope>,
    m2: Map<ScopeId, Scope>,
    item: Item,
    sid: ScopeId,
    name: Seq<char>,
    imps: Seq<Import>,
    n: int,
    fuel: nat,
)
    requires
        item_added(m, m2, item, sid),
    ensures
        finds_more(imports_fuel(m, name, imps, n, fuel), imports_fuel(m2, name, imps, n, fuel)),
    decreases fuel, n,
{
    if n > 0 {
        lemma_imports_added(m, m2, item, sid, name, imps, n - 1, fuel);
        match import_target(imps[n - 1], name) {
            None => {},
            Some(t) => {
                lemma_lookup_added(m, m2, item, sid, t.1, t.0, fuel);
            },
        }
    }
}

proof fn lemma_resolve_added(
    m: Map<ScopeId, Scope>,
    m2: Map<ScopeId, Scope>,
    item: Item,
    sid: ScopeId,
    name: Seq<char>,
    s: ScopeId,
    fuel: nat,
)
    requires
        item_added(m, m2, item, sid),
        resolve_fuel(m, name, s, fuel) is Some,
    ensures
        resolve_fuel(m2, name, s, fuel) is Some,
    decreases fuel,
{
    if m.contains_key(s) {
        assert(m2.contains_key(s));
        let f0 = choose|f: nat| (#[trigger] lookup_fuel(m, name, s, f)) is Some;
        lemma_lookup_added(m, m2, item, sid, name, s, f0);
        lemma_lookup_spec_at(m, name, s, f0);
        lemma_lookup_spec_at(m2, name, s, f0);
        if lookup_spec(m2, name, s) is None {
            assert(m2[s].clauses@ == m[s].clauses@);
            assert(m2[s].parent == m[s].parent);
            match m[s].parent {
                Some(p) => {
                    if last_clause_item(m[s].clauses@, name) is None {
                        lemma_resolve_added(m, m2, item, sid, name, p, (fuel - 1) as nat);
                    }
                },
                None => {},
            }
        }
    }
}

/// Binding an item keeps every resolution from `o` coming to an end.
proof fn lemma_added_keeps_ends(m: Map<ScopeId, Scope>, m2: Map<ScopeId, Scope>, item: Item, sid: ScopeId, o: Option<ScopeId>)
    requires
        item_added(m, m2, item, sid),
        ends_from(m, o),
    ensures
        ends_from(m2, o),
{
    if o is Some {
        assert forall|name: Seq<char>| #[trigger] resolve_ends(m2, name, o.unwrap()) by {
            assert(resolve_ends(m, name, o.unwrap()));
            let f = choose|f: nat| (#[trigger] resolve_fuel(m, name, o.unwrap(), f)) is Some;
            lemma_resolve_added(m, m2, item, sid, name, o.unwrap(), f);
        }
    }
}

/// A list whose prefix of `j` nodes fails fails in the same way.
proof fn lemma_seq_err_extends(
    a: Ast,
    sm: SourceMap,
    o: Option<ScopeId>,
    s0: LState,
    ns: Seq<NodeIndex>,
    j: int,
    s1: LState,
    e: LowerError,
    fuel: nat,
)
    requires
        1 <= j <= ns.len(),
        lowers_seq(a, sm, o, s0, ns.take(j), s1, Err(e), fuel),
    ensures
        lowers_seq(a, sm, o, s0, ns, s1, Err(e), fuel),
    decreases ns.len() - j,
{
    if j == ns.len() {
        assert(ns.take(j) =~= ns);
    } else {
        let nxt = ns.take(j + 1);
        assert(nxt.drop_last() =~= ns.take(j));
        assert(lowers_seq(a, sm, o, s0, nxt.drop_last(), s1, Err(e), fuel));
        assert(picked((s1, Err::<Seq<Expr>, LowerError>(e))));
        lemma_seq_err_extends(a, sm, o, s0, ns, j + 1, s1, e, fuel);
    }
}

/// An entry list whose prefix of `j` nodes fails fails in the same way.
proof fn lemma_entries_err_extends(
    a: Ast,
    sm: SourceMap,
    o: Option<ScopeId>,
    s0: LState,
    ns: Seq<NodeIndex>,
    j: int,
    s1: LState,
    e: LowerError,
    pk: NodeKind,
    msg: Seq<char>,
    fuel: nat,
)
    requires
        1 <= j <= ns.len(),
        lowers_entries(a, sm, o, s0, ns.take(j), s1, Err(e), pk, msg, fuel),
    ensures
        lowers_entries(a, sm, o, s0, ns, s1, Err(e), pk, msg, fuel),
    decreases ns.len() - j,
{
    if j == ns.len() {
        assert(ns.take(j) =~= ns);
    } else {
        let nxt = ns.take(j + 1);
        assert(nxt.drop_last() =~= ns.take(j));
        assert(lowers_entries(a, sm, o, s0, nxt.drop_last(), s1, Err(e), pk, msg, fuel));
        assert(picked((s1, Err::<(Seq<Expr>, Seq<Property>), LowerError>(e))));
        lemma_entries_err_extends(a, sm, o, s0, ns, j + 1, s1, e, pk, msg, fuel);
    }
}

/// A selection over `cs` can be lowered without a fault for some depth.
pub open spec fn select_ready(a: Ast, sm: SourceMap, o: Option<ScopeId>, cs: Seq<NodeIndex>) -> bool {
    cs.len() < 2 || (lowerable(a, sm, o, cs[0]) && text_ready(a, sm, cs[1]))
}

/// A depth at which a selection over `cs` lowers without a fault.
pub open spec fn select_fuel(a: Ast, sm: SourceMap, o: Option<ScopeId>, cs: Seq<NodeIndex>) -> nat {
    if cs.len() < 2 { 0 } else { lowering_fuel(a, sm, o, cs[0]) }
}

/// A call of kind `k` over `cs` can be lowered without a fault at depth `f`.
pub open spec fn call_ok(a: Ast, sm: SourceMap, o: Option<ScopeId>, k: NodeKind, cs: Seq<NodeIndex>, f: nat) -> bool {
    &&& cs.len() >= 2
    &&& named_arg_kind(k) is Some
    &&& can_lower(a, sm, o, cs[0], f)
    &&& group_ok(a, cs[1])
    &&& can_entries(a, sm, o, group(a, cs[1]), named_arg_kind(k).unwrap(), f)
}

/// A call of kind `k` over `cs` can be lowered without a fault for some depth.
pub open spec fn call_ready(a: Ast, sm: SourceMap, o: Option<ScopeId>, k: NodeKind, cs: Seq<NodeIndex>) -> bool {
    exists|f: nat| #[trigger] call_ok(a, sm, o, k, cs, f)
}

/// A depth at which a call of kind `k` over `cs` lowers without a fault.
pub open spec fn call_fuel(a: Ast, sm: SourceMap, o: Option<ScopeId>, k: NodeKind, cs: Seq<NodeIndex>) -> nat {
    choose|f: nat| #[trigger] call_ok(a, sm, o, k, cs, f)
}

/// The expression of a pattern node can be lowered without a fault at
/// depth `f`: an identifier, a symbol, a selection or a normal-form call.
pub open spec fn pattern_expr_ok(a: Ast, sm: SourceMap, o: Option<ScopeId>, n: NodeIndex, f: nat) -> bool {
    n as int != a.nodes@.len() && (a.is_node(n) ==> {
        let k = a.nodes@[n as int];
        let cs = a.children_of(n);
        if k == NodeKind::Id {
            has_text(a, sm, n) && (preserved_spec(text_of(a, sm, n).unwrap()) is Some || o is Some)
        } else if k == NodeKind::Symbol {
            cs.len() >= 1 && has_text(a, sm, cs[0])
        } else if k == NodeKind::Select {
            cs.len() < 2 || (can_lower(a, sm, o, cs[0], f) && text_ready(a, sm, cs[1]))
        } else if k == NodeKind::NormalFormApplication {
            call_ok(a, sm, o, k, cs, f)
        } else {
            false
        }
    })
}

/// Lowering the expression of pattern node `n`: like `lowers` for the kinds
/// that `pattern_expr_ok` admits.
pub open spec fn pattern_expr_lowers(
    a: Ast,
    sm: SourceMap,
    o: Option<ScopeId>,
    s0: LState,
    n: NodeIndex,
    s1: LState,
    r: Result<Expr, LowerError>,
    f: nat,
) -> bool {
    if !a.is_node(n) {
        s1 == s0 && internal_err(r, "Invalid node index"@)
    } else {
        let k = a.nodes@[n as int];
        let cs = a.children_of(n);
        if k == NodeKind::Id {
            s1 == s0 && ident_lowers(a, o, s0.1, n, text_of(a, sm, n).unwrap(), r)
        } else if k == NodeKind::Symbol {
            s1 == s0 && (r matches Ok(Expr::SymbolLiteral(s)) && s@ == text_of(a, sm, cs[0]).unwrap())
        } else if k == NodeKind::Select {
            select_lowers(a, sm, o, s0, cs, s1, r, f)
        } else {
            call_lowers(a, sm, o, s0, k, cs, s1, r, f)
        }
    }
}

/// Whether lowering `n` can be done without a fault for some depth.
pub open spec fn lowerable(a: Ast, sm: SourceMap, o: Option<ScopeId>, n: NodeIndex) -> bool {
    exists|f: nat| #[trigger] can_lower(a, sm, o, n, f)
}

/// A depth at which lowering `n` cannot fault, where there is one.
pub open spec fn lowering_fuel(a: Ast, sm: SourceMap, o: Option<ScopeId>, n: NodeIndex) -> nat {
    choose|f: nat| #[trigger] can_lower(a, sm, o, n, f)
}

proof fn lemma_keeps_refl(c: LoweringContext, o: Option<ScopeId>)
    requires
        c.scopes.wf(),
        ends_from(c.scopes@, o),
    ensures
        lowering_keeps(c, c, o),
{
    assert(c.hir.map@.subrange(0, c.hir.map@.len() as int) =~= c.hir.map@);
}

proof fn lemma_keeps_trans(c0: LoweringContext, c1: LoweringContext, c2: LoweringContext, o: Option<ScopeId>)
    requires
        lowering_keeps(c0, c1, o),
        lowering_keeps(c1, c2, o),
    ensures
        lowering_keeps(c0, c2, o),
{
    let n0 = c0.hir.map@.len() as int;
    assert(c2.hir.map@.subrange(0, n0) =~= c2.hir.map@.subrange(0, c1.hir.map@.len() as int).subrange(0, n0));
}

/// An internal error with the given message.
fn internal(msg: &str) -> (r: LowerError)
    ensures
        r matches LowerError::InternalError(s) && s@ == msg@,
{
    LowerError::InternalError(String::from_str(msg))
}

/// `prefix`, then `t` in backquotes.
fn quoted_msg(prefix: &str, t: &str) -> (r: String)
    ensures
        r@ == quoted(prefix@, t@),
{
    let mut s = String::from_str(prefix);
    push_str(&mut s, "`");
    push_str(&mut s, t);
    push_str(&mut s, "`");
    s
}

/// The message of a binding refused for want of the scope `s`.
fn scope_err_msg(s: ScopeId) -> (r: String)
    ensures
        r@ == scope_error_text(ScopeError::InvalidParentScope(s)),
{
    let mut out = String::from_str("Failed to add variable to scope: ");
    push_str(&mut out, "InvalidParentScope(");
    push_decimal(&mut out, s as u64);
    push_str(&mut out, ")");
    proof {
        assert(out@ =~= scope_error_text(ScopeError::InvalidParentScope(s)));
    }
    out
}

/// The span of node `n`.
fn node_span(ast: &Ast, n: NodeIndex) -> (r: Span)
    requires
        ast.wf(),
        ast.is_node(n),
    ensures
        r == ast.spans@[n as int],
{
    match ast.get_span(n) {
        Some(s) => s,
        None => vstd::pervasive::unreached(),
    }
}

/// The source text of a node that has one.
fn text(ast: &Ast, sm: &SourceMap, n: NodeIndex) -> (r: String)
    requires
        ast.wf(),
        has_text(*ast, *sm, n),
    ensures
        Some(r@) == text_of(*ast, *sm, n),
{
    match ast.source_content(n, sm) {
        Some(s) => s,
        None => vstd::pervasive::unreached(),
    }
}

fn unary_op_exec(k: NodeKind) -> (r: UnaryOp)
    requires
        unary_op_of(k) is Some,
    ensures
        r == unary_op_of(k).unwrap(),
{
    match k {
        NodeKind::BoolNot => UnaryOp::Not,
        NodeKind::Refer => UnaryOp::Refer,
        _ => UnaryOp::Deref,
    }
}

fn binary_op_exec(k: NodeKind) -> (r: BinaryOp)
    requires
        binary_op_of(k) is Some,
    ensures
        r == binary_op_of(k).unwrap(),
{
    match k {
        NodeKind::Add => BinaryOp::Add,
        NodeKind::Sub => BinaryOp::Sub,
        NodeKind::Mul => BinaryOp::Mul,
        NodeKind::Div => BinaryOp::Div,
        NodeKind::BoolEq => BinaryOp::BoolEq,
        NodeKind::BoolNotEq => BinaryOp::BoolNotEq,
        NodeKind::BoolLt => BinaryOp::BoolLt,
        NodeKind::BoolGt => BinaryOp::BoolGt,
        NodeKind::BoolLtEq => BinaryOp::BoolLtEq,
        NodeKind::BoolGtEq => BinaryOp::BoolGtEq,
        NodeKind::BoolAnd => BinaryOp::BoolAnd,
        NodeKind::BoolOr => BinaryOp::BoolOr,
        _ => BinaryOp::BoolTypedWith,
    }
}

impl LoweringContext {
    /// A context over a HIR table and scopes.
    pub fn new(hir: Hir, scopes: ScopeManager) -> (c: LoweringContext)
        ensures
            c.hir == hir,
            c.scopes == scopes,
    {
        LoweringContext { hir, scopes }
    }

    /// The state that lowering threads through the tree.
    pub open spec fn state(&self) -> LState {
        (self.hir.map@, self.scopes@)
    }

    /// The scopes are well formed and names resolve to an end from `o`.
    pub open spec fn ready(&self, o: Option<ScopeId>) -> bool {
        self.scopes.wf() && ends_from(self.scopes@, o)
    }

    /// Lowers a literal node of kind `tag`: an integer, a real, a string or
    /// a boolean, read from its source text.
    pub fn lower_literal(&self, ast: &Ast, node_index: NodeIndex, tag: NodeKind) -> (r: Result<Expr, LowerError>)
        requires
            ast.wf(),
            ast.is_node(node_index),
            has_text(*ast, self.hir.source_map, node_index),
            is_literal_kind(tag),
        ensures
            literal_lowers(*ast, node_index, tag, text_of(*ast, self.hir.source_map, node_index).unwrap(), r),
    {
        let src = text(ast, &self.hir.source_map, node_index);
        let sp = node_span(ast, node_index);
        match tag {
            NodeKind::Int => match parse_int(src.as_str(), true, i64::MIN, i64::MAX) {
                Some(v) => Ok(Expr::IntLiteral(v)),
                None => Err(LowerError::LiteralError { message: quoted_msg("Invalid integer literal: ", src.as_str()), span: sp }),
            },
            NodeKind::Real => match split_real(src.as_str()) {
                None => Err(LowerError::LiteralError { message: quoted_msg("Invalid real literal: ", src.as_str()), span: sp }),
                Some((p, q)) => match parse_int(p.as_str(), true, -2147483648, 2147483647) {
                    None => Err(LowerError::LiteralError { message: quoted_msg("Invalid decimal part: ", p.as_str()), span: sp }),
                    Some(d) => match parse_int(q.as_str(), false, 0, 4294967295) {
                        None => Err(LowerError::LiteralError { message: quoted_msg("Invalid numeric part: ", q.as_str()), span: sp }),
                        Some(u) => Ok(Expr::RealLiteral(d as i32, u as u32)),
                    },
                },
            },
            NodeKind::Str => Ok(Expr::StrLiteral(Symbol::intern(src.as_str()))),
            _ => Ok(Expr::BoolLiteral(str_eq(src.as_str(), "true"))),
        }
    }

    fn ident_in(&self, ast: &Ast, n: NodeIndex, o: Option<ScopeId>) -> (r: Result<Expr, LowerError>)
        requires
            ast.wf(),
            ast.is_node(n),
            has_text(*ast, self.hir.source_map, n),
            ends_from(self.scopes@, o),
            preserved_spec(text_of(*ast, self.hir.source_map, n).unwrap()) is Some || o is Some,
        ensures
            ident_lowers(*ast, o, self.scopes@, n, text_of(*ast, self.hir.source_map, n).unwrap(), r),
    {
        let src = text(ast, &self.hir.source_map, n);
        let sym = Symbol::intern(src.as_str());
        match preserved_expr(src.as_str()) {
            Some(e) => {
                return Ok(e);
            },
            None => {},
        }
        let sid = match o {
            Some(s) => s,
            None => vstd::pervasive::unreached(),
        };
        proof {
            assert(resolve_ends(self.scopes@, sym@, sid));
        }
        match self.scopes.resolve(sym, sid) {
            Some((_, item)) => Ok(Expr::Ref(item.hir_id)),
            None => Err(
                LowerError::UnresolvedIdentifier {
                    message: quoted_msg("Unresolved identifier: ", src.as_str()),
                    span: node_span(ast, n),
                },
            ),
        }
    }

    /// Lowers an identifier: a reserved one to its expression, any other
    /// to a reference to the node that it resolves to from the owner's
    /// scope, or an error where it resolves to nothing.
    pub fn lower_identifier_expr(&self, ast: &Ast, node_index: NodeIndex, owner: &Item) -> (r: Result<Expr, LowerError>)
        requires
            ast.wf(),
            ast.is_node(node_index),
            has_text(*ast, self.hir.source_map, node_index),
            ends_from(self.scopes@, owner.scope_id),
            preserved_spec(text_of(*ast, self.hir.source_map, node_index).unwrap()) is Some || owner.scope_id is Some,
        ensures
            ident_lowers(*ast, owner.scope_id, self.scopes@, node_index, text_of(*ast, self.hir.source_map, node_index).unwrap(), r),
    {
        self.ident_in(ast, node_index, owner.scope_id)
    }

    /// Lowers the pattern of a binding, with the names it binds.
    pub fn lower_pattern(&self, ast: &Ast, node_index: NodeIndex, owner: &Item) -> (r: Result<(Pattern, Vec<Symbol>), LowerError>)
        requires
            ast.wf(),
            node_index as int != ast.nodes@.len(),
            ast.is_node(node_index) ==> ast.nodes@[node_index as int] == NodeKind::Id && has_text(*ast, self.hir.source_map, node_index),
        ensures
            pattern_lowers(*ast, self.hir.source_map, node_index, pattern_result(r)),
    {
        match ast.get_node(node_index) {
            None => Err(internal("Invalid node index")),
            Some(_) => {
                let src = text(ast, &self.hir.source_map, node_index);
                let sym = Symbol::intern(src.as_str());
                let mut vs: Vec<Symbol> = Vec::new();
                vs.push(sym);
                proof {
                    assert(vs@ =~= seq![sym]);
                }
                Ok((Pattern::Variable(sym), vs))
            },
        }
    }

    /// Lowers node `n` from owner scope `o`, looking at most `fuel` levels
    /// deep.
    fn lower_in(&mut self, ast: &Ast, n: NodeIndex, o: Option<ScopeId>, Ghost(fuel): Ghost<nat>) -> (r: Result<Expr, LowerError>)
        requires
            ast.wf(),
            old(self).ready(o),
            can_lower(*ast, old(self).hir.source_map, o, n, fuel),
        ensures
            lowering_keeps(*old(self), *final(self), o),
            lowers(*ast, old(self).hir.source_map, o, old(self).state(), n, final(self).state(), r, fuel),
        decreases fuel, 1int,
    {
        let ghost c0 = *self;
        proof {
            lemma_keeps_refl(c0, o);
        }
        let (k, _sp, cs) = match ast.get_node(n) {
            None => {
                return Err(internal("Invalid node index"));
            },
            Some(t) => t,
        };
        match k {
            NodeKind::SelfCap => Ok(Expr::TySelf),
            NodeKind::SelfLower => Ok(Expr::SelfVal),
            NodeKind::Unit => Ok(Expr::Unit),
            NodeKind::Null => Ok(Expr::Null),
            NodeKind::RangeFull => Ok(Expr::Range { from: Box::new(Expr::Null), to: Box::new(Expr::Null), inclusive: false }),
            NodeKind::BoolNot | NodeKind::Refer | NodeKind::Deref | NodeKind::ExprStatement | NodeKind::RangeFrom
            | NodeKind::RangeTo | NodeKind::RangeToInclusive => self.lower_one(ast, n, k, cs, o, Ghost(fuel)),
            NodeKind::Int | NodeKind::Real | NodeKind::Str | NodeKind::Bool => self.lower_literal(ast, n, k),
            NodeKind::Symbol => {
                let src = text(ast, &self.hir.source_map, cs[0]);
                Ok(Expr::SymbolLiteral(Symbol::intern(src.as_str())))
            },
            NodeKind::Id => self.ident_in(ast, n, o),
            NodeKind::Add | NodeKind::Sub | NodeKind::Mul | NodeKind::Div | NodeKind::BoolEq | NodeKind::BoolNotEq
            | NodeKind::BoolGt | NodeKind::BoolGtEq | NodeKind::BoolLt | NodeKind::BoolLtEq | NodeKind::BoolAnd
            | NodeKind::BoolOr | NodeKind::TypedWith | NodeKind::RangeFromTo | NodeKind::RangeFromToInclusive => {
                self.lower_two(ast, n, k, cs, o, Ghost(fuel))
            },
            NodeKind::Select => self.select_in(ast, cs, o, Ghost((fuel - 1) as nat)),
            NodeKind::ListOf | NodeKind::Tuple | NodeKind::Block => self.lower_group(ast, n, k, cs, o, Ghost(fuel)),
            NodeKind::Object => self.lower_object(ast, n, cs, o, Ghost(fuel)),
            NodeKind::Application | NodeKind::NormalFormApplication | NodeKind::ExtendedApplication => {
                self.call_in(ast, k, cs, o, Ghost((fuel - 1) as nat))
            },
            NodeKind::IfStatement => self.if_in(ast, cs, o, Ghost((fuel - 1) as nat)),
            NodeKind::LetDecl | NodeKind::ConstDecl => self.decl_in(ast, k, cs, o, Ghost((fuel - 1) as nat)),
            _ => vstd::pervasive::unreached(),
        }
    }

    /// Lowers a node with one operand: a unary operator, an expression
    /// statement, or a range with one end.
    fn lower_one(&mut self, ast: &Ast, n: NodeIndex, k: NodeKind, cs: &[NodeIndex], o: Option<ScopeId>, Ghost(fuel): Ghost<nat>) -> (r: Result<Expr, LowerError>)
        requires
            ast.wf(),
            old(self).ready(o),
            can_lower(*ast, old(self).hir.source_map, o, n, fuel),
            ast.is_node(n),
            k == ast.nodes@[n as int],
            cs@ == ast.children_of(n),
            unary_op_of(k) is Some || is_range1(k) || k == NodeKind::ExprStatement,
        ensures
            lowering_keeps(*old(self), *final(self), o),
            lowers(*ast, old(self).hir.source_map, o, old(self).state(), n, final(self).state(), r, fuel),
        decreases fuel, 0int,
    {
        let re = self.lower_in(ast, cs[0], o, Ghost((fuel - 1) as nat));
        proof {
            assert(picked(re));
        }
        match re {
            Err(e) => Err(e),
            Ok(x) => match k {
                NodeKind::ExprStatement => Ok(Expr::ExprStatement(Box::new(x))),
                NodeKind::RangeFrom => Ok(Expr::Range { from: Box::new(x), to: Box::new(Expr::Null), inclusive: false }),
                NodeKind::RangeTo => Ok(Expr::Range { from: Box::new(Expr::Null), to: Box::new(x), inclusive: false }),
                NodeKind::RangeToInclusive => Ok(Expr::Range { from: Box::new(Expr::Null), to: Box::new(x), inclusive: true }),
                _ => Ok(Expr::UnaryApply { expr: Box::new(x), op: unary_op_exec(k) }),
            },
        }
    }

    /// Lowers a node with two operands: a binary operator or a range with
    /// both ends.
    fn lower_two(&mut self, ast: &Ast, n: NodeIndex, k: NodeKind, cs: &[NodeIndex], o: Option<ScopeId>, Ghost(fuel): Ghost<nat>) -> (r: Result<Expr, LowerError>)
        requires
            ast.wf(),
            old(self).ready(o),
            can_lower(*ast, old(self).hir.source_map, o, n, fuel),
            ast.is_node(n),
            k == ast.nodes@[n as int],
            cs@ == ast.children_of(n),
            binary_op_of(k) is Some || is_range2(k),
        ensures
            lowering_keeps(*old(self), *final(self), o),
            lowers(*ast, old(self).hir.source_map, o, old(self).state(), n, final(self).state(), r, fuel),
        decreases fuel, 0int,
    {
        let ghost c0 = *self;
        let rl = self.lower_in(ast, cs[0], o, Ghost((fuel - 1) as nat));
        let ghost m = self.state();
        let ghost c1 = *self;
        proof {
            assert(picked((m, rl)));
        }
        match rl {
            Err(e) => Err(e),
            Ok(l) => {
                let rr = self.lower_in(ast, cs[1], o, Ghost((fuel - 1) as nat));
                proof {
                    assert(picked(rr));
                    lemma_keeps_trans(c0, c1, *self, o);
                }
                match rr {
                    Err(e) => Err(e),
                    Ok(x) => match k {
                        NodeKind::RangeFromTo => Ok(Expr::Range { from: Box::new(l), to: Box::new(x), inclusive: false }),
                        NodeKind::RangeFromToInclusive => Ok(Expr::Range { from: Box::new(l), to: Box::new(x), inclusive: true }),
                        _ => Ok(Expr::BinaryApply { left: Box::new(l), right: Box::new(x), op: binary_op_exec(k) }),
                    },
                }
            },
        }
    }

    /// Lowers a list, a tuple or a block: the group of nodes at `cs[0]`.
    fn lower_group(&mut self, ast: &Ast, n: NodeIndex, k: NodeKind, cs: &[NodeIndex], o: Option<ScopeId>, Ghost(fuel): Ghost<nat>) -> (r: Result<Expr, LowerError>)
        requires
            ast.wf(),
            old(self).ready(o),
            can_lower(*ast, old(self).hir.source_map, o, n, fuel),
            ast.is_node(n),
            k == ast.nodes@[n as int],
            cs@ == ast.children_of(n),
            k == NodeKind::ListOf || k == NodeKind::Tuple || k == NodeKind::Block,
        ensures
            lowering_keeps(*old(self), *final(self), o),
            lowers(*ast, old(self).hir.source_map, o, old(self).state(), n, final(self).state(), r, fuel),
        decreases fuel, 0int,
    {
        let g = match ast.get_multi_child_slice(cs[0]) {
            Some(g) => g,
            None => vstd::pervasive::unreached(),
        };
        let rs = self.lower_seq_in(ast, g, o, Ghost((fuel - 1) as nat));
        proof {
            assert(picked(seq_result(rs)));
        }
        match rs {
            Err(e) => Err(e),
            Ok(v) => match k {
                NodeKind::ListOf => Ok(Expr::List(v)),
                NodeKind::Tuple => Ok(Expr::Tuple(v)),
                _ => Ok(Expr::Block(BlockKind::Normal, v)),
            },
        }
    }

    /// Lowers an object: its group of elements and named properties.
    fn lower_object(&mut self, ast: &Ast, n: NodeIndex, cs: &[NodeIndex], o: Option<ScopeId>, Ghost(fuel): Ghost<nat>) -> (r: Result<Expr, LowerError>)
        requires
            ast.wf(),
            old(self).ready(o),
            can_lower(*ast, old(self).hir.source_map, o, n, fuel),
            ast.is_node(n),
            ast.nodes@[n as int] == NodeKind::Object,
            cs@ == ast.children_of(n),
        ensures
            lowering_keeps(*old(self), *final(self), o),
            lowers(*ast, old(self).hir.source_map, o, old(self).state(), n, final(self).state(), r, fuel),
        decreases fuel, 0int,
    {
        let g = match ast.get_multi_child_slice(cs[0]) {
            Some(g) => g,
            None => vstd::pervasive::unreached(),
        };
        let rs = self.lower_entries_in(ast, g, o, NodeKind::Property, "Invalid Object child node", Ghost((fuel - 1) as nat));
        proof {
            assert(picked(entries_result(rs)));
        }
        match rs {
            Err(e) => Err(e),
            Ok((v, p)) => Ok(Expr::Object(v, p)),
        }
    }

    /// Lowers a group of nodes in order, stopping at the first error.
    fn lower_seq_in(&mut self, ast: &Ast, ns: &[NodeIndex], o: Option<ScopeId>, Ghost(f): Ghost<nat>) -> (r: Result<Vec<Expr>, LowerError>)
        requires
            ast.wf(),
            old(self).ready(o),
            can_lower_all(*ast, old(self).hir.source_map, o, ns@, f),
        ensures
            lowering_keeps(*old(self), *final(self), o),
            lowers_seq(*ast, old(self).hir.source_map, o, old(self).state(), ns@, final(self).state(), seq_result(r), f),
        decreases f, 2int,
    {
        let ghost c0 = *self;
        let ghost sm = self.hir.source_map;
        let ghost s0 = self.state();
        proof {
            lemma_keeps_refl(c0, o);
            assert(ns@.take(0) =~= Seq::<NodeIndex>::empty());
        }
        let mut out: Vec<Expr> = Vec::new();
        let mut i: usize = 0;
        while i < ns.len()
            invariant
                0 <= i <= ns@.len(),
                ast.wf(),
                self.ready(o),
                sm == self.hir.source_map,
                c0 == *old(self),
                c0.hir.source_map == sm,
                s0 == c0.state(),
                can_lower_all(*ast, sm, o, ns@, f),
                lowering_keeps(c0, *self, o),
                lowers_seq(*ast, sm, o, s0, ns@.take(i as int), self.state(), Ok(out@), f),
            decreases ns@.len() - i,
        {
            let ghost m = self.state();
            let ghost c1 = *self;
            let ghost done = out@;
            proof {
                assert(can_lower(*ast, sm, o, ns@[i as int], f));
                assert(ns@.take(i + 1).drop_last() =~= ns@.take(i as int));
                assert(picked((m, Ok::<Seq<Expr>, LowerError>(done))));
            }
            let re = self.lower_in(ast, ns[i], o, Ghost(f));
            proof {
                assert(picked(re));
                lemma_keeps_trans(c0, c1, *self, o);
            }
            match re {
                Err(e) => {
                    proof {
                        lemma_seq_err_extends(*ast, sm, o, s0, ns@, i + 1, self.state(), e, f);
                    }
                    return Err(e);
                },
                Ok(x) => {
                    out.push(x);
                },
            }
            i += 1;
        }
        proof {
            assert(ns@.take(ns@.len() as int) =~= ns@);
        }
        Ok(out)
    }

    /// Lowers the entries of an object or argument group in order: a node
    /// of kind `pk` becomes a named property, any other an element.
    fn lower_entries_in(
        &mut self,
        ast: &Ast,
        ns: &[NodeIndex],
        o: Option<ScopeId>,
        pk: NodeKind,
        msg: &str,
        Ghost(f): Ghost<nat>,
    ) -> (r: Result<(Vec<Expr>, Vec<Property>), LowerError>)
        requires
            ast.wf(),
            old(self).ready(o),
            can_entries(*ast, old(self).hir.source_map, o, ns@, pk, f),
        ensures
            lowering_keeps(*old(self), *final(self), o),
            lowers_entries(*ast, old(self).hir.source_map, o, old(self).state(), ns@, final(self).state(), entries_result(r), pk, msg@, f),
        decreases f, 2int,
    {
        let ghost c0 = *self;
        let ghost sm = self.hir.source_map;
        let ghost s0 = self.state();
        proof {
            lemma_keeps_refl(c0, o);
            assert(ns@.take(0) =~= Seq::<NodeIndex>::empty());
        }
        let mut es: Vec<Expr> = Vec::new();
        let mut ps: Vec<Property> = Vec::new();
        let mut i: usize = 0;
        while i < ns.len()
            invariant
                0 <= i <= ns@.len(),
                ast.wf(),
                self.ready(o),
                sm == self.hir.source_map,
                c0 == *old(self),
                c0.hir.source_map == sm,
                s0 == c0.state(),
                can_entries(*ast, sm, o, ns@, pk, f),
                lowering_keeps(c0, *self, o),
                lowers_entries(*ast, sm, o, s0, ns@.take(i as int), self.state(), Ok((es@, ps@)), pk, msg@, f),
            decreases ns@.len() - i,
        {
            let x = ns[i];
            let ghost m = self.state();
            let ghost c1 = *self;
            let ghost es0 = es@;
            let ghost ps0 = ps@;
            proof {
                assert(entry_ok(*ast, sm, o, ns@[i as int], pk, f));
                assert(ns@.take(i + 1).drop_last() =~= ns@.take(i as int));
                assert(picked((m, Ok::<(Seq<Expr>, Seq<Property>), LowerError>((es0, ps0)))));
            }
            match ast.get_node(x) {
                None => {
                    let e = internal(msg);
                    proof {
                        assert(entry_step(*ast, sm, o, m, x, es0, ps0, self.state(), Err(e), pk, msg@, f));
                        lemma_entries_err_extends(*ast, sm, o, s0, ns@, i + 1, self.state(), e, pk, msg@, f);
                    }
                    return Err(e);
                },
                Some((kind, _, cc)) => {
                    if kind == pk {
                        let name = text(ast, &self.hir.source_map, cc[0]);
                        let rv = self.lower_in(ast, cc[1], o, Ghost(f));
                        proof {
                            assert(picked(rv));
                            lemma_keeps_trans(c0, c1, *self, o);
                        }
                        match rv {
                            Err(e) => {
                                proof {
                                    assert(entry_step(*ast, sm, o, m, x, es0, ps0, self.state(), Err(e), pk, msg@, f));
                                    lemma_entries_err_extends(*ast, sm, o, s0, ns@, i + 1, self.state(), e, pk, msg@, f);
                                }
                                return Err(e);
                            },
                            Ok(v) => {
                                ps.push(Property { name: Symbol::intern(name.as_str()), value: Box::new(v) });
                                proof {
                                    assert(ps@.drop_last() =~= ps0);
                                    assert(entry_step(*ast, sm, o, m, x, es0, ps0, self.state(), Ok((es@, ps@)), pk, msg@, f));
                                }
                            },
                        }
                    } else {
                        let re = self.lower_in(ast, x, o, Ghost(f));
                        proof {
                            assert(picked(re));
                            lemma_keeps_trans(c0, c1, *self, o);
                        }
                        match re {
                            Err(e) => {
                                proof {
                                    assert(entry_step(*ast, sm, o, m, x, es0, ps0, self.state(), Err(e), pk, msg@, f));
                                    lemma_entries_err_extends(*ast, sm, o, s0, ns@, i + 1, self.state(), e, pk, msg@, f);
                                }
                                return Err(e);
                            },
                            Ok(v) => {
                                es.push(v);
                                proof {
                                    assert(entry_step(*ast, sm, o, m, x, es0, ps0, self.state(), Ok((es@, ps@)), pk, msg@, f));
                                }
                            },
                        }
                    }
                },
            }
            i += 1;
        }
        proof {
            assert(ns@.take(ns@.len() as int) =~= ns@);
        }
        Ok((es, ps))
    }

    /// Lowers a selection `cs[0].cs[1]`.
    fn select_in(&mut self, ast: &Ast, cs: &[NodeIndex], o: Option<ScopeId>, Ghost(f): Ghost<nat>) -> (r: Result<Expr, LowerError>)
        requires
            ast.wf(),
            old(self).ready(o),
            cs@.len() < 2 || (can_lower(*ast, old(self).hir.source_map, o, cs@[0], f) && text_ready(*ast, old(self).hir.source_map, cs@[1])),
        ensures
            lowering_keeps(*old(self), *final(self), o),
            select_lowers(*ast, old(self).hir.source_map, o, old(self).state(), cs@, final(self).state(), r, f),
        decreases f + 1, 0int,
    {
        proof {
            lemma_keeps_refl(*self, o);
        }
        if cs.len() < 2 {
            return Err(internal("Select node missing children"));
        }
        let re = self.lower_in(ast, cs[0], o, Ghost(f));
        proof {
            assert(picked(re));
        }
        match re {
            Err(e) => Err(e),
            Ok(x) => match ast.source_content(cs[1], &self.hir.source_map) {
                None => Err(internal("Failed to get selected ID")),
                Some(id) => Ok(Expr::Select(Box::new(x), Symbol::intern(id.as_str()))),
            },
        }
    }

    /// Lowers a call of kind `k`: the callee `cs[0]`, then the arguments in
    /// the group at `cs[1]`, named ones apart.
    fn call_in(&mut self, ast: &Ast, k: NodeKind, cs: &[NodeIndex], o: Option<ScopeId>, Ghost(f): Ghost<nat>) -> (r: Result<Expr, LowerError>)
        requires
            ast.wf(),
            old(self).ready(o),
            named_arg_kind(k) is Some,
            cs@.len() >= 2,
            can_lower(*ast, old(self).hir.source_map, o, cs@[0], f),
            group_ok(*ast, cs@[1]),
            can_entries(*ast, old(self).hir.source_map, o, group(*ast, cs@[1]), named_arg_kind(k).unwrap(), f),
        ensures
            lowering_keeps(*old(self), *final(self), o),
            call_lowers(*ast, old(self).hir.source_map, o, old(self).state(), k, cs@, final(self).state(), r, f),
        decreases f + 1, 0int,
    {
        let ghost c0 = *self;
        let rc = self.lower_in(ast, cs[0], o, Ghost(f));
        let ghost m = self.state();
        let ghost c1 = *self;
        proof {
            assert(picked((m, rc)));
        }
        match rc {
            Err(e) => Err(e),
            Ok(c) => {
                let g = match ast.get_multi_child_slice(cs[1]) {
                    Some(g) => g,
                    None => vstd::pervasive::unreached(),
                };
                let pk = if k == NodeKind::ExtendedApplication { NodeKind::Property } else { NodeKind::OptionalArg };
                let rs = self.lower_entries_in(ast, g, o, pk, "Invalid call argument node", Ghost(f));
                proof {
                    assert(picked(entries_result(rs)));
                    lemma_keeps_trans(c0, c1, *self, o);
                }
                match rs {
                    Err(e) => Err(e),
                    Ok((es, ps)) => match k {
                        NodeKind::Application => Ok(Expr::FnApply { callee: Box::new(c), args: es, optional_args: ps }),
                        NodeKind::NormalFormApplication => Ok(
                            Expr::NormalFormFnApply { callee: Box::new(c), args: es, optional_args: ps },
                        ),
                        _ => Ok(Expr::FnObjectApply { callee: Box::new(c), elements: es, properties: ps }),
                    },
                }
            },
        }
    }

    /// Lowers `if`: the condition `cs[0]`, the group at `cs[0]` as the
    /// block, then the `else` node `cs[2]` unless it is 0.
    fn if_in(&mut self, ast: &Ast, cs: &[NodeIndex], o: Option<ScopeId>, Ghost(f): Ghost<nat>) -> (r: Result<Expr, LowerError>)
        requires
            ast.wf(),
            old(self).ready(o),
            cs@.len() >= 3,
            can_lower(*ast, old(self).hir.source_map, o, cs@[0], f),
            group_ok(*ast, cs@[0]),
            can_lower_all(*ast, old(self).hir.source_map, o, group(*ast, cs@[0]), f),
            cs@[2] as int != ast.nodes@.len(),
            (cs@[2] != 0 && ast.is_node(cs@[2])) ==> can_lower(*ast, old(self).hir.source_map, o, cs@[2], f),
        ensures
            lowering_keeps(*old(self), *final(self), o),
            if_lowers(*ast, old(self).hir.source_map, o, old(self).state(), cs@, final(self).state(), r, f),
        decreases f + 1, 0int,
    {
        let ghost c0 = *self;
        let rc = self.lower_in(ast, cs[0], o, Ghost(f));
        let ghost m1 = self.state();
        let ghost c1 = *self;
        proof {
            assert(picked((m1, rc)));
        }
        match rc {
            Err(e) => Err(e),
            Ok(c) => {
                let g = match ast.get_multi_child_slice(cs[0]) {
                    Some(g) => g,
                    None => vstd::pervasive::unreached(),
                };
                let rt = self.lower_seq_in(ast, g, o, Ghost(f));
                let ghost m2 = self.state();
                let ghost c2 = *self;
                proof {
                    assert(picked((m2, seq_result(rt))));
                    lemma_keeps_trans(c0, c1, c2, o);
                }
                match rt {
                    Err(e) => Err(e),
                    Ok(ts) => {
                        let then_branch = Expr::Block(BlockKind::Normal, ts);
                        if cs[2] == 0 {
                            return Ok(Expr::If { condition: Box::new(c), then_branch: Box::new(then_branch), else_branch: None });
                        }
                        match ast.get_node(cs[2]) {
                            None => Err(internal("Invalid else branch")),
                            Some(_) => {
                                let re = self.lower_in(ast, cs[2], o, Ghost(f));
                                proof {
                                    assert(picked(re));
                                    lemma_keeps_trans(c0, c2, *self, o);
                                }
                                match re {
                                    Err(e) => Err(e),
                                    Ok(x) => Ok(
                                        Expr::If {
                                            condition: Box::new(c),
                                            then_branch: Box::new(then_branch),
                                            else_branch: Some(Box::new(x)),
                                        },
                                    ),
                                }
                            },
                        }
                    },
                }
            },
        }
    }

    /// Lowers `let` or `const`: the pattern `cs[0]`, the type `cs[1]`
    /// (`undefined` when 0), the initializer `cs[2]`; then the variable gets
    /// a HIR entry and is bound in the owner's scope.
    fn decl_in(&mut self, ast: &Ast, k: NodeKind, cs: &[NodeIndex], o: Option<ScopeId>, Ghost(f): Ghost<nat>) -> (r: Result<Expr, LowerError>)
        requires
            ast.wf(),
            old(self).ready(o),
            k == NodeKind::LetDecl || k == NodeKind::ConstDecl,
            cs@.len() >= 3,
            cs@[0] as int != ast.nodes@.len(),
            ast.is_node(cs@[0]) ==> ast.nodes@[cs@[0] as int] == NodeKind::Id && has_text(*ast, old(self).hir.source_map, cs@[0]),
            cs@[1] != 0 ==> can_lower(*ast, old(self).hir.source_map, o, cs@[1], f),
            can_lower(*ast, old(self).hir.source_map, o, cs@[2], f),
            o is Some,
        ensures
            lowering_keeps(*old(self), *final(self), o),
            decl_lowers(*ast, old(self).hir.source_map, o, old(self).state(), k, cs@, final(self).state(), r, f),
        decreases f + 1, 0int,
    {
        let ghost c0 = *self;
        let ghost s0 = self.state();
        proof {
            lemma_keeps_refl(c0, o);
        }
        let rp = self.pattern_in(ast, cs[0]);
        proof {
            assert(picked(pattern_result(rp)));
        }
        match rp {
            Err(e) => Err(e),
            Ok((p, vs)) => {
                let rt = if cs[1] != 0 {
                    self.lower_in(ast, cs[1], o, Ghost(f))
                } else {
                    Ok(Expr::Undefined)
                };
                let ghost m1 = self.state();
                let ghost c1 = *self;
                proof {
                    assert(picked((m1, rt)));
                    assert(ty_lowers(*ast, c0.hir.source_map, o, s0, cs@[1], m1, rt, f));
                }
                match rt {
                    Err(e) => Err(e),
                    Ok(t) => {
                        let ri = self.lower_in(ast, cs[2], o, Ghost(f));
                        let ghost m2 = self.state();
                        let ghost c2 = *self;
                        proof {
                            assert(picked((m2, ri)));
                            lemma_keeps_trans(c0, c1, c2, o);
                        }
                        match ri {
                            Err(e) => Err(e),
                            Ok(i) => {
                                let sid = match o {
                                    Some(s) => s,
                                    None => vstd::pervasive::unreached(),
                                };
                                let v = vs[0];
                                let id = self.hir.put(HirMapping::Expr(Expr::Ref(0), 0));
                                let item = Item::new(v, id, None);
                                let ghost mb = self.scopes@;
                                let res = self.scopes.add_item(item, sid);
                                proof {
                                    assert(picked(res));
                                    if res is Ok {
                                        lemma_added_keeps_ends(mb, self.scopes@, item, sid, o);
                                    }
                                    assert(self.hir.map@.subrange(0, c2.hir.map@.len() as int) =~= c2.hir.map@);
                                    lemma_keeps_trans(c0, c2, *self, o);
                                }
                                let e = if k == NodeKind::LetDecl {
                                    Expr::Let { pattern: Box::new(p), ty: Box::new(t), init: Box::new(i) }
                                } else {
                                    Expr::Const { pattern: Box::new(p), ty: Box::new(t), init: Box::new(i) }
                                };
                                match res {
                                    Ok(()) => Ok(e),
                                    Err(ScopeError::DuplicateSymbol(_)) => Ok(e),
                                    Err(ScopeError::InvalidParentScope(s)) => Err(LowerError::ScopeError(scope_err_msg(s))),
                                }
                            },
                        }
                    },
                }
            },
        }
    }

    fn pattern_in(&self, ast: &Ast, n: NodeIndex) -> (r: Result<(Pattern, Vec<Symbol>), LowerError>)
        requires
            ast.wf(),
            n as int != ast.nodes@.len(),
            ast.is_node(n) ==> ast.nodes@[n as int] == NodeKind::Id && has_text(*ast, self.hir.source_map, n),
        ensures
            pattern_lowers(*ast, self.hir.source_map, n, pattern_result(r)),
    {
        match ast.get_node(n) {
            None => Err(internal("Invalid node index")),
            Some(_) => {
                let src = text(ast, &self.hir.source_map, n);
                let sym = Symbol::intern(src.as_str());
                let mut vs: Vec<Symbol> = Vec::new();
                vs.push(sym);
                proof {
                    assert(vs@ =~= seq![sym]);
                }
                Ok((Pattern::Variable(sym), vs))
            },
        }
    }

    /// Lowers a selection `children[0].children[1]`: the base, then the
    /// selected name from its source text.
    pub fn lower_select_expr(&mut self, ast: &Ast, children: &[NodeIndex], owner: &Item) -> (r: Result<Expr, LowerError>)
        requires
            ast.wf(),
            old(self).ready(owner.scope_id),
            select_ready(*ast, old(self).hir.source_map, owner.scope_id, children@),
        ensures
            lowering_keeps(*old(self), *final(self), owner.scope_id),
            select_lowers(
                *ast,
                old(self).hir.source_map,
                owner.scope_id,
                old(self).state(),
                children@,
                final(self).state(),
                r,
                select_fuel(*ast, old(self).hir.source_map, owner.scope_id, children@),
            ),
    {
        let ghost f = select_fuel(*ast, self.hir.source_map, owner.scope_id, children@);
        self.select_in(ast, children, owner.scope_id, Ghost(f))
    }

    /// Lowers a normal-form call: the callee `children[0]`, then the
    /// arguments in the group at `children[1]`, named ones apart.
    pub fn lower_diamond_call(
        &mut self,
        ast: &Ast,
        node_index: NodeIndex,
        owner: &Item,
        children: &[NodeIndex],
    ) -> (r: Result<Expr, LowerError>)
        requires
            ast.wf(),
            old(self).ready(owner.scope_id),
            call_ready(*ast, old(self).hir.source_map, owner.scope_id, NodeKind::NormalFormApplication, children@),
        ensures
            lowering_keeps(*old(self), *final(self), owner.scope_id),
            call_lowers(
                *ast,
                old(self).hir.source_map,
                owner.scope_id,
                old(self).state(),
                NodeKind::NormalFormApplication,
                children@,
                final(self).state(),
                r,
                call_fuel(*ast, old(self).hir.source_map, owner.scope_id, NodeKind::NormalFormApplication, children@),
            ),
    {
        let ghost f = call_fuel(*ast, self.hir.source_map, owner.scope_id, NodeKind::NormalFormApplication, children@);
        self.call_in(ast, NodeKind::NormalFormApplication, children, owner.scope_id, Ghost(f))
    }

    /// Lowers the expression that a pattern holds: an identifier, a symbol,
    /// a selection or a normal-form call.
    pub fn lower_expr_in_pattern(&mut self, ast: &Ast, node_index: NodeIndex, owner: &Item) -> (r: Result<Expr, LowerError>)
        requires
            ast.wf(),
            old(self).ready(owner.scope_id),
            exists|f: nat| #[trigger] pattern_expr_ok(*ast, old(self).hir.source_map, owner.scope_id, node_index, f),
        ensures
            lowering_keeps(*old(self), *final(self), owner.scope_id),
            pattern_expr_lowers(
                *ast,
                old(self).hir.source_map,
                owner.scope_id,
                old(self).state(),
                node_index,
                final(self).state(),
                r,
                choose|f: nat| #[trigger] pattern_expr_ok(*ast, old(self).hir.source_map, owner.scope_id, node_index, f),
            ),
    {
        let ghost f = choose|f: nat| #[trigger] pattern_expr_ok(*ast, self.hir.source_map, owner.scope_id, node_index, f);
        proof {
            lemma_keeps_refl(*self, owner.scope_id);
        }
        let (k, _sp, cs) = match ast.get_node(node_index) {
            None => {
                return Err(internal("Invalid node index"));
            },
            Some(t) => t,
        };
        match k {
            NodeKind::Id => self.ident_in(ast, node_index, owner.scope_id),
            NodeKind::Symbol => {
                let src = text(ast, &self.hir.source_map, cs[0]);
                Ok(Expr::SymbolLiteral(Symbol::intern(src.as_str())))
            },
            NodeKind::Select => self.select_in(ast, cs, owner.scope_id, Ghost(f)),
            NodeKind::NormalFormApplication => self.call_in(ast, k, cs, owner.scope_id, Ghost(f)),
            _ => vstd::pervasive::unreached(),
        }
    }

    /// Lowers an expression node from the owner's scope.  The HIR table
    /// only grows, by one entry per bound variable; the scopes change only
    /// by those bindings.
    pub fn lower_expr(&mut self, ast: &Ast, node_index: NodeIndex, owner: &Item) -> (r: Result<Expr, LowerError>)
        requires
            ast.wf(),
            old(self).ready(owner.scope_id),
            lowerable(*ast, old(self).hir.source_map, owner.scope_id, node_index),
        ensures
            lowering_keeps(*old(self), *final(self), owner.scope_id),
            lowers(
                *ast,
                old(self).hir.source_map,
                owner.scope_id,
                old(self).state(),
                node_index,
                final(self).state(),
                r,
                lowering_fuel(*ast, old(self).hir.source_map, owner.scope_id, node_index),
            ),
    {
        let ghost f = lowering_fuel(*ast, self.hir.source_map, owner.scope_id, node_index);
        self.lower_in(ast, node_index, owner.scope_id, Ghost(f))
    }
}

/// A variable that a `let` or `const` binds is what its name stands for
/// afterwards: once the binding step has succeeded in an ordered scope,
/// lowering the name (when it is not reserved) from that scope gives a
/// reference to the variable's new HIR entry.
pub proof fn lemma_bound_variable_is_found(
    a: Ast,
    m: LState,
    v: Symbol,
    sid: ScopeId,
    s1: LState,
    ok: Expr,
    e: Expr,
    n: NodeIndex,
    r: Result<Expr, LowerError>,
)
    requires
        bind_lowers(m, v, sid, s1, ok, Ok(e)),
        m.1.contains_key(sid),
        m.1[sid].ordered,
        preserved_spec(v@) is None,
        ident_lowers(a, Some(sid), s1.1, n, v@, r),
    ensures
        e == ok,
        r == Ok::<Expr, LowerError>(Expr::Ref(m.0.len() as HirId)),
{
    let item = Item { symbol: v, hir_id: m.0.len() as HirId, scope_id: None };
    let res = choose|res: Result<(), ScopeError>|
        #[trigger] picked(res) && add_item_outcome(m.1, s1.1, item, sid, res) && match res {
            Ok(_) => Ok::<Expr, LowerError>(e) == Ok::<Expr, LowerError>(ok),
            Err(ScopeError::DuplicateSymbol(_)) => Ok::<Expr, LowerError>(e) == Ok::<Expr, LowerError>(ok),
            Err(er) => scope_err(Ok::<Expr, LowerError>(e), scope_error_text(er)),
        };
    assert(res is Ok);
    crate::scope::lemma_add_item_then_lookup(m.1, s1.1, item, sid);
    crate::scope::lemma_resolve_finds_local(s1.1, v@, sid, item);
}

/// Every scope of `m0` is still there in `m1`, ordered or not as before.
pub open spec fn scopes_kept(m0: Map<ScopeId, Scope>, m1: Map<ScopeId, Scope>) -> bool {
    forall|k: ScopeId|
        #![trigger m0.dom().contains(k)]
        #![trigger m1.dom().contains(k)]
        m0.dom().contains(k) ==> m1.dom().contains(k) && m1[k].ordered == m0[k].ordered
}

proof fn lemma_kept_trans(m0: Map<ScopeId, Scope>, m1: Map<ScopeId, Scope>, m2: Map<ScopeId, Scope>)
    requires
        scopes_kept(m0, m1),
        scopes_kept(m1, m2),
    ensures
        scopes_kept(m0, m2),
{
    assert forall|k: ScopeId| #[trigger] m0.dom().contains(k) implies m2.dom().contains(k) && m2[k].ordered == m0[k].ordered by {
        assert(m1.contains_key(k) && m1[k].ordered == m0[k].ordered);
        assert(m2.contains_key(k) && m2[k].ordered == m1[k].ordered);
    }
}

proof fn lemma_lowers_kept(
    a: Ast,
    sm: SourceMap,
    o: Option<ScopeId>,
    s0: LState,
    n: NodeIndex,
    s1: LState,
    r: Result<Expr, LowerError>,
    fuel: nat,
)
    requires
        lowers(a, sm, o, s0, n, s1, r, fuel),
    ensures
        scopes_kept(s0.1, s1.1),
    decreases fuel, 3int,
{
    if a.is_node(n) {
        let k = a.nodes@[n as int];
        let cs = a.children_of(n);
        let f = (fuel - 1) as nat;
        if special_expr(k) is Some || is_literal_kind(k) || k == NodeKind::Symbol || k == NodeKind::Id
            || k == NodeKind::RangeFull {
        } else if unary_op_of(k) is Some || is_range1(k) || k == NodeKind::ExprStatement {
            let re = choose|re: Result<Expr, LowerError>| #[trigger] picked(re) && lowers(a, sm, o, s0, cs[0], s1, re, f);
            lemma_lowers_kept(a, sm, o, s0, cs[0], s1, re, f);
        } else if binary_op_of(k) is Some || k == NodeKind::BoolImplies || is_range2(k) {
            let (m, rl) = choose|m: LState, rl: Result<Expr, LowerError>|
                #[trigger] picked((m, rl)) && lowers(a, sm, o, s0, cs[0], m, rl, f) && (rl is Err ==> s1 == m) && (rl is Ok
                    ==> exists|rr: Result<Expr, LowerError>| #[trigger] picked(rr) && lowers(a, sm, o, m, cs[1], s1, rr, f));
            lemma_lowers_kept(a, sm, o, s0, cs[0], m, rl, f);
            if rl is Ok {
                let rr = choose|rr: Result<Expr, LowerError>| #[trigger] picked(rr) && lowers(a, sm, o, m, cs[1], s1, rr, f);
                lemma_lowers_kept(a, sm, o, m, cs[1], s1, rr, f);
                lemma_kept_trans(s0.1, m.1, s1.1);
            }
        } else if k == NodeKind::Select {
            lemma_select_kept(a, sm, o, s0, cs, s1, r, f);
        } else if k == NodeKind::ListOf || k == NodeKind::Tuple || k == NodeKind::Block {
            let rs = choose|rs: Result<Seq<Expr>, LowerError>| #[trigger] picked(rs) && lowers_seq(a, sm, o, s0, group(a, cs[0]), s1, rs, f);
            lemma_seq_kept(a, sm, o, s0, group(a, cs[0]), s1, rs, f);
        } else if k == NodeKind::Object {
            let rs = choose|rs: Result<(Seq<Expr>, Seq<Property>), LowerError>|
                #[trigger] picked(rs) && lowers_entries(a, sm, o, s0, group(a, cs[0]), s1, rs, NodeKind::Property, "Invalid Object child node"@, f);
            lemma_entries_kept(a, sm, o, s0, group(a, cs[0]), s1, rs, NodeKind::Property, "Invalid Object child node"@, f);
        } else if named_arg_kind(k) is Some {
            lemma_call_kept(a, sm, o, s0, k, cs, s1, r, f);
        } else if k == NodeKind::IfStatement {
            lemma_if_kept(a, sm, o, s0, cs, s1, r, f);
        } else if k == NodeKind::LetDecl || k == NodeKind::ConstDecl {
            lemma_decl_kept(a, sm, o, s0, k, cs, s1, r, f);
        }
    }
}

proof fn lemma_seq_kept(
    a: Ast,
    sm: SourceMap,
    o: Option<ScopeId>,
    s0: LState,
    ns: Seq<NodeIndex>,
    s1: LState,
    r: Result<Seq<Expr>, LowerError>,
    fuel: nat,
)
    requires
        lowers_seq(a, sm, o, s0, ns, s1, r, fuel),
    ensures
        scopes_kept(s0.1, s1.1),
    decreases fuel, ns.len() + 4,
{
    if ns.len() > 0 {
        let (m, rp) = choose|m: LState, rp: Result<Seq<Expr>, LowerError>|
            #[trigger] picked((m, rp)) && lowers_seq(a, sm, o, s0, ns.drop_last(), m, rp, fuel) && (rp is Err ==> s1 == m) && (rp
                is Ok ==> exists|re: Result<Expr, LowerError>| #[trigger] picked(re) && lowers(a, sm, o, m, ns.last(), s1, re, fuel));
        lemma_seq_kept(a, sm, o, s0, ns.drop_last(), m, rp, fuel);
        if rp is Ok {
            let re = choose|re: Result<Expr, LowerError>| #[trigger] picked(re) && lowers(a, sm, o, m, ns.last(), s1, re, fuel);
            lemma_lowers_kept(a, sm, o, m, ns.last(), s1, re, fuel);
            lemma_kept_trans(s0.1, m.1, s1.1);
        }
    }
}

proof fn lemma_entries_kept(
    a: Ast,
    sm: SourceMap,
    o: Option<ScopeId>,
    s0: LState,
    ns: Seq<NodeIndex>,
    s1: LState,
    r: Result<(Seq<Expr>, Seq<Property>), LowerError>,
    pk: NodeKind,
    msg: Seq<char>,
    fuel: nat,
)
    requires
        lowers_entries(a, sm, o, s0, ns, s1, r, pk, msg, fuel),
    ensures
        scopes_kept(s0.1, s1.1),
    decreases fuel, ns.len() + 5,
{
    if ns.len() > 0 {
        let (m, rp) = choose|m: LState, rp: Result<(Seq<Expr>, Seq<Property>), LowerError>|
            #[trigger] picked((m, rp)) && lowers_entries(a, sm, o, s0, ns.drop_last(), m, rp, pk, msg, fuel) && match rp {
                Err(e) => s1 == m,
                Ok((es, ps)) => entry_step(a, sm, o, m, ns.last(), es, ps, s1, r, pk, msg, fuel),
            };
        lemma_entries_kept(a, sm, o, s0, ns.drop_last(), m, rp, pk, msg, fuel);
        match rp {
            Err(_) => {},
            Ok((es, ps)) => {
                lemma_step_kept(a, sm, o, m, ns.last(), es, ps, s1, r, pk, msg, fuel);
                lemma_kept_trans(s0.1, m.1, s1.1);
            },
        }
    }
}

proof fn lemma_step_kept(
    a: Ast,
    sm: SourceMap,
    o: Option<ScopeId>,
    m: LState,
    x: NodeIndex,
    es: Seq<Expr>,
    ps: Seq<Property>,
    s1: LState,
    r: Result<(Seq<Expr>, Seq<Property>), LowerError>,
    pk: NodeKind,
    msg: Seq<char>,
    fuel: nat,
)
    requires
        entry_step(a, sm, o, m, x, es, ps, s1, r, pk, msg, fuel),
    ensures
        scopes_kept(m.1, s1.1),
    decreases fuel, 4int,
{
    if a.is_node(x) {
        if a.nodes@[x as int] == pk {
            let cc = a.children_of(x);
            let rv = choose|rv: Result<Expr, LowerError>| #[trigger] picked(rv) && lowers(a, sm, o, m, cc[1], s1, rv, fuel);
            lemma_lowers_kept(a, sm, o, m, cc[1], s1, rv, fuel);
        } else {
            let re = choose|re: Result<Expr, LowerError>| #[trigger] picked(re) && lowers(a, sm, o, m, x, s1, re, fuel);
            lemma_lowers_kept(a, sm, o, m, x, s1, re, fuel);
        }
    }
}

proof fn lemma_select_kept(
    a: Ast,
    sm: SourceMap,
    o: Option<ScopeId>,
    s0: LState,
    cs: Seq<NodeIndex>,
    s1: LState,
    r: Result<Expr, LowerError>,
    fuel: nat,
)
    requires
        select_lowers(a, sm, o, s0, cs, s1, r, fuel),
    ensures
        scopes_kept(s0.1, s1.1),
    decreases fuel + 1, 0int,
{
    if cs.len() >= 2 {
        let re = choose|re: Result<Expr, LowerError>| #[trigger] picked(re) && lowers(a, sm, o, s0, cs[0], s1, re, fuel);
        lemma_lowers_kept(a, sm, o, s0, cs[0], s1, re, fuel);
    }
}

proof fn lemma_call_kept(
    a: Ast,
    sm: SourceMap,
    o: Option<ScopeId>,
    s0: LState,
    k: NodeKind,
    cs: Seq<NodeIndex>,
    s1: LState,
    r: Result<Expr, LowerError>,
    fuel: nat,
)
    requires
        call_lowers(a, sm, o, s0, k, cs, s1, r, fuel),
    ensures
        scopes_kept(s0.1, s1.1),
    decreases fuel + 1, 0int,
{
    let pk = named_arg_kind(k).unwrap();
    let msg = "Invalid call argument node"@;
    let (m, rc) = choose|m: LState, rc: Result<Expr, LowerError>|
        #[trigger] picked((m, rc)) && lowers(a, sm, o, s0, cs[0], m, rc, fuel) && (rc is Err ==> s1 == m) && (rc is Ok ==> exists|
            rs: Result<(Seq<Expr>, Seq<Property>), LowerError>,
        | #[trigger] picked(rs) && lowers_entries(a, sm, o, m, group(a, cs[1]), s1, rs, pk, msg, fuel));
    lemma_lowers_kept(a, sm, o, s0, cs[0], m, rc, fuel);
    if rc is Ok {
        let rs = choose|rs: Result<(Seq<Expr>, Seq<Property>), LowerError>|
            #[trigger] picked(rs) && lowers_entries(a, sm, o, m, group(a, cs[1]), s1, rs, pk, msg, fuel);
        lemma_entries_kept(a, sm, o, m, group(a, cs[1]), s1, rs, pk, msg, fuel);
        lemma_kept_trans(s0.1, m.1, s1.1);
    }
}

proof fn lemma_if_kept(
    a: Ast,
    sm: SourceMap,
    o: Option<ScopeId>,
    s0: LState,
    cs: Seq<NodeIndex>,
    s1: LState,
    r: Result<Expr, LowerError>,
    fuel: nat,
)
    requires
        if_lowers(a, sm, o, s0, cs, s1, r, fuel),
    ensures
        scopes_kept(s0.1, s1.1),
    decreases fuel + 1, 0int,
{
    let (m1, rc) = choose|m1: LState, rc: Result<Expr, LowerError>|
        #[trigger] picked((m1, rc)) && lowers(a, sm, o, s0, cs[0], m1, rc, fuel) && (rc is Err ==> s1 == m1) && (rc is Ok ==> exists|
            m2: LState,
            rt: Result<Seq<Expr>, LowerError>,
        |
            #[trigger] picked((m2, rt)) && lowers_seq(a, sm, o, m1, group(a, cs[0]), m2, rt, fuel) && (rt is Err ==> s1 == m2) && (rt
                is Ok ==> (s1 == m2 || exists|re: Result<Expr, LowerError>| #[trigger] picked(re) && lowers(a, sm, o, m2, cs[2], s1, re, fuel))));
    lemma_lowers_kept(a, sm, o, s0, cs[0], m1, rc, fuel);
    if rc is Ok {
        let (m2, rt) = choose|m2: LState, rt: Result<Seq<Expr>, LowerError>|
            #[trigger] picked((m2, rt)) && lowers_seq(a, sm, o, m1, group(a, cs[0]), m2, rt, fuel) && (rt is Err ==> s1 == m2) && (rt
                is Ok ==> (s1 == m2 || exists|re: Result<Expr, LowerError>| #[trigger] picked(re) && lowers(a, sm, o, m2, cs[2], s1, re, fuel)));
        lemma_seq_kept(a, sm, o, m1, group(a, cs[0]), m2, rt, fuel);
        lemma_kept_trans(s0.1, m1.1, m2.1);
        if rt is Ok && s1 != m2 {
            let re = choose|re: Result<Expr, LowerError>| #[trigger] picked(re) && lowers(a, sm, o, m2, cs[2], s1, re, fuel);
            lemma_lowers_kept(a, sm, o, m2, cs[2], s1, re, fuel);
            lemma_kept_trans(s0.1, m2.1, s1.1);
        }
    }
}

proof fn lemma_decl_kept(
    a: Ast,
    sm: SourceMap,
    o: Option<ScopeId>,
    s0: LState,
    k: NodeKind,
    cs: Seq<NodeIndex>,
    s1: LState,
    r: Result<Expr, LowerError>,
    fuel: nat,
)
    requires
        decl_lowers(a, sm, o, s0, k, cs, s1, r, fuel),
    ensures
        scopes_kept(s0.1, s1.1),
    decreases fuel + 1, 0int,
{
    let rp = choose|rp: Result<(Pattern, Seq<Symbol>), LowerError>| #[trigger] picked(rp) && pattern_lowers(a, sm, cs[0], rp) && match rp {
        Err(e) => s1 == s0 && r == Err::<Expr, LowerError>(e),
        Ok((p, vs)) => exists|m1: LState, rt: Result<Expr, LowerError>|
            #[trigger] picked((m1, rt)) && ty_lowers(a, sm, o, s0, cs[1], m1, rt, fuel) && match rt {
                Err(e) => s1 == m1 && r == Err::<Expr, LowerError>(e),
                Ok(t) => exists|m2: LState, ri: Result<Expr, LowerError>|
                    #[trigger] picked((m2, ri)) && lowers(a, sm, o, m1, cs[2], m2, ri, fuel) && match ri {
                        Err(e) => s1 == m2 && r == Err::<Expr, LowerError>(e),
                        Ok(i) => o is Some && bind_lowers(m2, vs[0], o.unwrap(), s1, decl_expr(k, p, t, i), r),
                    },
            },
    };
    match rp {
        Err(_) => {},
        Ok((p, vs)) => {
            let (m1, rt) = choose|m1: LState, rt: Result<Expr, LowerError>|
                #[trigger] picked((m1, rt)) && ty_lowers(a, sm, o, s0, cs[1], m1, rt, fuel) && match rt {
                    Err(e) => s1 == m1 && r == Err::<Expr, LowerError>(e),
                    Ok(t) => exists|m2: LState, ri: Result<Expr, LowerError>|
                        #[trigger] picked((m2, ri)) && lowers(a, sm, o, m1, cs[2], m2, ri, fuel) && match ri {
                            Err(e) => s1 == m2 && r == Err::<Expr, LowerError>(e),
                            Ok(i) => o is Some && bind_lowers(m2, vs[0], o.unwrap(), s1, decl_expr(k, p, t, i), r),
                        },
                };
            if cs[1] != 0 {
                lemma_lowers_kept(a, sm, o, s0, cs[1], m1, rt, fuel);
            } else {
                assert(scopes_kept(s0.1, m1.1));
            }
            match rt {
                Err(_) => {},
                Ok(t) => {
                    let (m2, ri) = choose|m2: LState, ri: Result<Expr, LowerError>|
                        #[trigger] picked((m2, ri)) && lowers(a, sm, o, m1, cs[2], m2, ri, fuel) && match ri {
                            Err(e) => s1 == m2 && r == Err::<Expr, LowerError>(e),
                            Ok(i) => o is Some && bind_lowers(m2, vs[0], o.unwrap(), s1, decl_expr(k, p, t, i), r),
                        };
                    lemma_lowers_kept(a, sm, o, m1, cs[2], m2, ri, fuel);
                    lemma_kept_trans(s0.1, m1.1, m2.1);
                    match ri {
                        Err(_) => {},
                        Ok(i) => {
                            let sid = o.unwrap();
                            let item = Item { symbol: vs[0], hir_id: m2.0.len() as HirId, scope_id: None };
                            let res = choose|res: Result<(), ScopeError>|
                                #[trigger] picked(res) && add_item_outcome(m2.1, s1.1, item, sid, res);
                            assert forall|q: ScopeId| #[trigger] m2.1.dom().contains(q) implies s1.1.dom().contains(q)
                                && s1.1[q].ordered == m2.1[q].ordered by {
                                if res is Ok && q == sid {
                                }
                            }
                            lemma_kept_trans(s0.1, m2.1, s1.1);
                        },
                    }
                },
            }
        },
    }
}

/// A `let` or `const` binds its variable for what follows: once lowering
/// the binding succeeds from an ordered owner scope, the variable's name
/// (when it is not reserved) lowers, from that scope, to a reference to the
/// last entry of the HIR table, the one made for the variable.
pub proof fn lemma_binding_then_use(
    a: Ast,
    sm: SourceMap,
    o: Option<ScopeId>,
    s0: LState,
    n: NodeIndex,
    s1: LState,
    e: Expr,
    fuel: nat,
    u: NodeIndex,
    r: Result<Expr, LowerError>,
)
    requires
        lowers(a, sm, o, s0, n, s1, Ok(e), fuel),
        a.is_node(n),
        a.nodes@[n as int] == NodeKind::LetDecl || a.nodes@[n as int] == NodeKind::ConstDecl,
        o is Some,
        s0.1.contains_key(o.unwrap()),
        s0.1[o.unwrap()].ordered,
        preserved_spec(text_of(a, sm, a.children_of(n)[0]).unwrap()) is None,
        ident_lowers(a, o, s1.1, u, text_of(a, sm, a.children_of(n)[0]).unwrap(), r),
    ensures
        s1.0.len() >= 1,
        r == Ok::<Expr, LowerError>(Expr::Ref((s1.0.len() - 1) as HirId)),
{
    let k = a.nodes@[n as int];
    let cs = a.children_of(n);
    let f = (fuel - 1) as nat;
    let rr = Ok::<Expr, LowerError>(e);
    assert(decl_lowers(a, sm, o, s0, k, cs, s1, rr, f));
    let rp = choose|rp: Result<(Pattern, Seq<Symbol>), LowerError>| #[trigger] picked(rp) && pattern_lowers(a, sm, cs[0], rp) && match rp {
        Err(e) => s1 == s0 && rr == Err::<Expr, LowerError>(e),
        Ok((p, vs)) => exists|m1: LState, rt: Result<Expr, LowerError>|
            #[trigger] picked((m1, rt)) && ty_lowers(a, sm, o, s0, cs[1], m1, rt, f) && match rt {
                Err(e) => s1 == m1 && rr == Err::<Expr, LowerError>(e),
                Ok(t) => exists|m2: LState, ri: Result<Expr, LowerError>|
                    #[trigger] picked((m2, ri)) && lowers(a, sm, o, m1, cs[2], m2, ri, f) && match ri {
                        Err(e) => s1 == m2 && rr == Err::<Expr, LowerError>(e),
                        Ok(i) => o is Some && bind_lowers(m2, vs[0], o.unwrap(), s1, decl_expr(k, p, t, i), rr),
                    },
            },
    };
    let (p, vs) = rp->Ok_0;
    let (m1, rt) = choose|m1: LState, rt: Result<Expr, LowerError>|
        #[trigger] picked((m1, rt)) && ty_lowers(a, sm, o, s0, cs[1], m1, rt, f) && match rt {
            Err(e) => s1 == m1 && rr == Err::<Expr, LowerError>(e),
            Ok(t) => exists|m2: LState, ri: Result<Expr, LowerError>|
                #[trigger] picked((m2, ri)) && lowers(a, sm, o, m1, cs[2], m2, ri, f) && match ri {
                    Err(e) => s1 == m2 && rr == Err::<Expr, LowerError>(e),
                    Ok(i) => o is Some && bind_lowers(m2, vs[0], o.unwrap(), s1, decl_expr(k, p, t, i), rr),
                },
        };
    let t = rt->Ok_0;
    let (m2, ri) = choose|m2: LState, ri: Result<Expr, LowerError>|
        #[trigger] picked((m2, ri)) && lowers(a, sm, o, m1, cs[2], m2, ri, f) && match ri {
            Err(e) => s1 == m2 && rr == Err::<Expr, LowerError>(e),
            Ok(i) => o is Some && bind_lowers(m2, vs[0], o.unwrap(), s1, decl_expr(k, p, t, i), rr),
        };
    let i = ri->Ok_0;
    if cs[1] != 0 {
        lemma_lowers_kept(a, sm, o, s0, cs[1], m1, rt, f);
    } else {
        assert(scopes_kept(s0.1, m1.1));
    }
    lemma_lowers_kept(a, sm, o, m1, cs[2], m2, ri, f);
    lemma_kept_trans(s0.1, m1.1, m2.1);
    let sid = o.unwrap();
    assert(m2.1.dom().contains(sid));
    lemma_bound_variable_is_found(a, m2, vs[0], sid, s1, decl_expr(k, p, t, i), e, u, r);
}

/// Every binary operator node kind that lowering handles lowers to the
/// operator of the same name; `TypedWith` lowers to the typed-with test.
pub proof fn lemma_binary_op_keeps_name(k: NodeKind)
    requires
        binary_op_of(k) is Some,
    ensures
        binary_op_name(binary_op_of(k).unwrap()) == spec_kind_name(k) || (k == NodeKind::TypedWith
            && binary_op_of(k).unwrap() == BinaryOp::BoolTypedWith),
{
}

/// The binary operator kinds that lowering handles: the arithmetic
/// operators, comparisons, `and`, `or`, and `TypedWith`.
pub proof fn lemma_binary_kinds_have_operators(k: NodeKind)
    requires
        k == NodeKind::Add || k == NodeKind::Sub || k == NodeKind::Mul || k == NodeKind::Div || k == NodeKind::BoolEq
            || k == NodeKind::BoolNotEq || k == NodeKind::BoolGt || k == NodeKind::BoolGtEq || k == NodeKind::BoolLt
            || k == NodeKind::BoolLtEq || k == NodeKind::BoolAnd || k == NodeKind::BoolOr || k == NodeKind::TypedWith,
    ensures
        binary_op_of(k) is Some,
{
}

/// Lowering a binary operator node, when it succeeds, applies the operator
/// named like the node's kind to its two operands.
pub proof fn lemma_lowered_binary_op(
    a: Ast,
    sm: SourceMap,
    o: Option<ScopeId>,
    s0: LState,
    n: NodeIndex,
    s1: LState,
    e: Expr,
    fuel: nat,
)
    requires
        lowers(a, sm, o, s0, n, s1, Ok(e), fuel),
        a.is_node(n),
        binary_op_of(a.nodes@[n as int]) is Some,
    ensures
        e matches Expr::BinaryApply { op, .. } && (binary_op_name(op) == spec_kind_name(a.nodes@[n as int]) || (
        a.nodes@[n as int] == NodeKind::TypedWith && op == BinaryOp::BoolTypedWith)),
{
    let k = a.nodes@[n as int];
    let cs = a.children_of(n);
    let f = (fuel - 1) as nat;
    let r = Ok::<Expr, LowerError>(e);
    let (m, rl) = choose|m: LState, rl: Result<Expr, LowerError>|
        #[trigger] picked((m, rl)) && lowers(a, sm, o, s0, cs[0], m, rl, f) && match rl {
            Err(e) => s1 == m && r == Err::<Expr, LowerError>(e),
            Ok(l) => exists|rr: Result<Expr, LowerError>|
                #[trigger] picked(rr) && lowers(a, sm, o, m, cs[1], s1, rr, f) && match rr {
                    Err(e) => r == Err::<Expr, LowerError>(e),
                    Ok(x) => binary_op_of(k) is Some && r == Ok::<Expr, LowerError>(
                        Expr::BinaryApply { left: Box::new(l), right: Box::new(x), op: binary_op_of(k).unwrap() },
                    ),
                },
        };
    let l = rl->Ok_0;
    let rr = choose|rr: Result<Expr, LowerError>|
        #[trigger] picked(rr) && lowers(a, sm, o, m, cs[1], s1, rr, f) && match rr {
            Err(e) => r == Err::<Expr, LowerError>(e),
            Ok(x) => binary_op_of(k) is Some && r == Ok::<Expr, LowerError>(
                Expr::BinaryApply { left: Box::new(l), right: Box::new(x), op: binary_op_of(k).unwrap() },
            ),
        };
    assert(e == Expr::BinaryApply { left: Box::new(l), right: Box::new(rr->Ok_0), op: binary_op_of(k).unwrap() });
    lemma_binary_op_keeps_name(k);
}

/// Every unary operator node kind lowers to the operator of the same name,
/// `BoolNot` to logical negation.
pub proof fn lemma_unary_op_keeps_name(k: NodeKind)
    requires
        unary_op_of(k) is Some,
    ensures
        unary_op_name(unary_op_of(k).unwrap()) == spec_kind_name(k) || (k == NodeKind::BoolNot && unary_op_of(k).unwrap()
            == UnaryOp::Not),
{
}

} // verus!

//! Structural equality and deep copies of the name-resolution HIR.
//!
//! Two trees are the same when they have the same shape and the same
//! leaves, symbols being compared by their text.
use vstd::prelude::*;

use crate::luna_hir::{
    Clause, Definition, Enum, Expr, Function, HirId, Module, Param, Pattern, Property, Struct, clause_text, clauses_text,
    def_text, defs_text, enum_text, expr_text, exprs_text, function_text, module_text, param_text, params_text,
    pattern_text, patterns_text, prop_text, props_text, struct_text,
};

verus! {

/// Whether two values of `Expr` are the same tree.
pub open spec fn expr_same(a: Expr, b: Expr) -> bool
    decreases a,
{
    match a {
        Expr::Ref(xa0) => match b { Expr::Ref(ya0) => (xa0 == ya0), _ => false },
        Expr::IntLiteral(xa0) => match b { Expr::IntLiteral(ya0) => (xa0 == ya0), _ => false },
        Expr::BoolLiteral(xa0) => match b { Expr::BoolLiteral(ya0) => (xa0 == ya0), _ => false },
        Expr::RealLiteral(xa0, xa1) => match b { Expr::RealLiteral(ya0, ya1) => (xa0 == ya0) && (xa1 == ya1), _ => false },
        Expr::StrLiteral(xa0) => match b { Expr::StrLiteral(ya0) => (xa0@ == ya0@), _ => false },
        Expr::CharLiteral(xa0) => match b { Expr::CharLiteral(ya0) => (xa0 == ya0), _ => false },
        Expr::SymbolLiteral(xa0) => match b { Expr::SymbolLiteral(ya0) => (xa0@ == ya0@), _ => false },
        Expr::Null => b is Null,
        Expr::Undefined => b is Undefined,
        Expr::Unit => b is Unit,
        Expr::Any => b is Any,
        Expr::SelfVal => b is SelfVal,
        Expr::List(xa0) => match b { Expr::List(ya0) => (exprs_same(xa0@, ya0@)), _ => false },
        Expr::Tuple(xa0) => match b { Expr::Tuple(ya0) => (exprs_same(xa0@, ya0@)), _ => false },
        Expr::Object(xa0, xa1) => match b { Expr::Object(ya0, ya1) => (exprs_same(xa0@, ya0@)) && (props_same(xa1@, ya1@)), _ => false },
        Expr::Range { from: xfrom, to: xto, inclusive: xinclusive } => match b { Expr::Range { from: yfrom, to: yto, inclusive: yinclusive } => (expr_same(*xfrom, *yfrom)) && (expr_same(*xto, *yto)) && (xinclusive == yinclusive), _ => false },
        Expr::Pattern(xa0) => match b { Expr::Pattern(ya0) => (pattern_same(*xa0, *ya0)), _ => false },
        Expr::FnApply { callee: xcallee, args: xargs, optional_args: xoptional_args } => match b { Expr::FnApply { callee: ycallee, args: yargs, optional_args: yoptional_args } => (expr_same(*xcallee, *ycallee)) && (exprs_same(xargs@, yargs@)) && (props_same(xoptional_args@, yoptional_args@)), _ => false },
        Expr::NormalFormFnApply { callee: xcallee, args: xargs, optional_args: xoptional_args } => match b { Expr::NormalFormFnApply { callee: ycallee, args: yargs, optional_args: yoptional_args } => (expr_same(*xcallee, *ycallee)) && (exprs_same(xargs@, yargs@)) && (props_same(xoptional_args@, yoptional_args@)), _ => false },
        Expr::FnObjectApply { callee: xcallee, elements: xelements, properties: xproperties } => match b { Expr::FnObjectApply { callee: ycallee, elements: yelements, properties: yproperties } => (expr_same(*xcallee, *ycallee)) && (exprs_same(xelements@, yelements@)) && (props_same(xproperties@, yproperties@)), _ => false },
        Expr::UnaryApply { expr: xexpr, op: xop } => match b { Expr::UnaryApply { expr: yexpr, op: yop } => (expr_same(*xexpr, *yexpr)) && (xop == yop), _ => false },
        Expr::BinaryApply { left: xleft, right: xright, op: xop } => match b { Expr::BinaryApply { left: yleft, right: yright, op: yop } => (expr_same(*xleft, *yleft)) && (expr_same(*xright, *yright)) && (xop == yop), _ => false },
        Expr::ObjectApply { callee: xcallee, args: xargs, optional_args: xoptional_args, object: xobject } => match b { Expr::ObjectApply { callee: ycallee, args: yargs, optional_args: yoptional_args, object: yobject } => (expr_same(*xcallee, *ycallee)) && (exprs_same(xargs@, yargs@)) && (props_same(xoptional_args@, yoptional_args@)) && (expr_same(*xobject, *yobject)), _ => false },
        Expr::Index(xa0, xa1) => match b { Expr::Index(ya0, ya1) => (expr_same(*xa0, *ya0)) && (expr_same(*xa1, *ya1)), _ => false },
        Expr::Matches(xa0, xa1) => match b { Expr::Matches(ya0, ya1) => (expr_same(*xa0, *ya0)) && (pattern_same(*xa1, *ya1)), _ => false },
        Expr::If { condition: xcondition, then_branch: xthen_branch, else_branch: xelse_branch } => match b { Expr::If { condition: ycondition, then_branch: ythen_branch, else_branch: yelse_branch } => (expr_same(*xcondition, *ycondition)) && (expr_same(*xthen_branch, *ythen_branch)) && (match (xelse_branch, yelse_branch) { (Some(x), Some(y)) => expr_same(*x, *y), (None, None) => true, _ => false }), _ => false },
        Expr::When { conditions: xconditions, branches: xbranches } => match b { Expr::When { conditions: yconditions, branches: ybranches } => (exprs_same(xconditions@, yconditions@)) && (exprs_same(xbranches@, ybranches@)), _ => false },
        Expr::Match { subject: xsubject, arms: xarms } => match b { Expr::Match { subject: ysubject, arms: yarms } => (expr_same(*xsubject, *ysubject)) && (patterns_same(xarms@, yarms@)), _ => false },
        Expr::While { condition: xcondition, body: xbody } => match b { Expr::While { condition: ycondition, body: ybody } => (expr_same(*xcondition, *ycondition)) && (expr_same(*xbody, *ybody)), _ => false },
        Expr::For { pattern: xpattern, iterable: xiterable, body: xbody } => match b { Expr::For { pattern: ypattern, iterable: yiterable, body: ybody } => (pattern_same(*xpattern, *ypattern)) && (expr_same(*xiterable, *yiterable)) && (expr_same(*xbody, *ybody)), _ => false },
        Expr::Let { pattern: xpattern, ty: xty, init: xinit } => match b { Expr::Let { pattern: ypattern, ty: yty, init: yinit } => (pattern_same(*xpattern, *ypattern)) && (expr_same(*xty, *yty)) && (expr_same(*xinit, *yinit)), _ => false },
        Expr::Const { pattern: xpattern, ty: xty, init: xinit } => match b { Expr::Const { pattern: ypattern, ty: yty, init: yinit } => (pattern_same(*xpattern, *ypattern)) && (expr_same(*xty, *yty)) && (expr_same(*xinit, *yinit)), _ => false },
        Expr::Assign { location: xlocation, value: xvalue } => match b { Expr::Assign { location: ylocation, value: yvalue } => (expr_same(*xlocation, *ylocation)) && (expr_same(*xvalue, *yvalue)), _ => false },
        Expr::Block(xa0, xa1) => match b { Expr::Block(ya0, ya1) => (xa0 == ya0) && (exprs_same(xa1@, ya1@)), _ => false },
        Expr::ExprStatement(xa0) => match b { Expr::ExprStatement(ya0) => (expr_same(*xa0, *ya0)), _ => false },
        Expr::Break(xa0) => match b { Expr::Break(ya0) => (match (xa0, ya0) { (Some(x), Some(y)) => x@ == y@, (None, None) => true, _ => false }), _ => false },
        Expr::Continue(xa0) => match b { Expr::Continue(ya0) => (match (xa0, ya0) { (Some(x), Some(y)) => x@ == y@, (None, None) => true, _ => false }), _ => false },
        Expr::Return(xa0) => match b { Expr::Return(ya0) => (match (xa0, ya0) { (Some(x), Some(y)) => expr_same(*x, *y), (None, None) => true, _ => false }), _ => false },
        Expr::Resume(xa0) => match b { Expr::Resume(ya0) => (match (xa0, ya0) { (Some(x), Some(y)) => expr_same(*x, *y), (None, None) => true, _ => false }), _ => false },
        Expr::TyVoid => b is TyVoid,
        Expr::TyNoReturn => b is TyNoReturn,
        Expr::TyAny => b is TyAny,
        Expr::TySelf => b is TySelf,
        Expr::TyInteger => b is TyInteger,
        Expr::TyReal => b is TyReal,
        Expr::TyChar => b is TyChar,
        Expr::TySymbol => b is TySymbol,
        Expr::TyObject => b is TyObject,
        Expr::TyStr => b is TyStr,
        Expr::TyBool => b is TyBool,
        Expr::TyInt(xa0, xa1) => match b { Expr::TyInt(ya0, ya1) => (xa0 == ya0) && (xa1 == ya1), _ => false },
        Expr::TyFloat(xa0) => match b { Expr::TyFloat(ya0) => (xa0 == ya0), _ => false },
        Expr::TyOptional(xa0) => match b { Expr::TyOptional(ya0) => (expr_same(*xa0, *ya0)), _ => false },
        Expr::TyTuple(xa0) => match b { Expr::TyTuple(ya0) => (exprs_same(xa0@, ya0@)), _ => false },
        Expr::TyPointer(xa0) => match b { Expr::TyPointer(ya0) => (expr_same(*xa0, *ya0)), _ => false },
        Expr::TyArray(xa0, xa1) => match b { Expr::TyArray(ya0, ya1) => (expr_same(*xa0, *ya0)) && (expr_same(*xa1, *ya1)), _ => false },
        Expr::TyScheme(xa0, xa1) => match b { Expr::TyScheme(ya0, ya1) => (params_same(xa0@, ya0@)) && (expr_same(*xa1, *ya1)), _ => false },
        Expr::TyNamed(xa0, xa1) => match b { Expr::TyNamed(ya0, ya1) => (xa0@ == ya0@) && (def_same(*xa1, *ya1)), _ => false },
        Expr::TyAlias(xa0, xa1) => match b { Expr::TyAlias(ya0, ya1) => (xa0@ == ya0@) && (expr_same(*xa1, *ya1)), _ => false },
        Expr::Select(xa0, xa1) => match b { Expr::Select(ya0, ya1) => (expr_same(*xa0, *ya0)) && (xa1@ == ya1@), _ => false },
    }
}

/// Whether two values of `Pattern` are the same tree.
pub open spec fn pattern_same(a: Pattern, b: Pattern) -> bool
    decreases a,
{
    match a {
        Pattern::Ref(xa0) => match b { Pattern::Ref(ya0) => (xa0 == ya0), _ => false },
        Pattern::Wildcard => b is Wildcard,
        Pattern::Literal(xa0) => match b { Pattern::Literal(ya0) => (expr_same(*xa0, *ya0)), _ => false },
        Pattern::Symbol(xa0) => match b { Pattern::Symbol(ya0) => (xa0@ == ya0@), _ => false },
        Pattern::Null => b is Null,
        Pattern::OptionSome(xa0) => match b { Pattern::OptionSome(ya0) => (pattern_same(*xa0, *ya0)), _ => false },
        Pattern::ResultOk(xa0) => match b { Pattern::ResultOk(ya0) => (pattern_same(*xa0, *ya0)), _ => false },
        Pattern::ResultErr(xa0) => match b { Pattern::ResultErr(ya0) => (pattern_same(*xa0, *ya0)), _ => false },
        Pattern::Range { from: xfrom, to: xto, inclusive: xinclusive } => match b { Pattern::Range { from: yfrom, to: yto, inclusive: yinclusive } => (pattern_same(*xfrom, *yfrom)) && (pattern_same(*xto, *yto)) && (xinclusive == yinclusive), _ => false },
        Pattern::TupleDestructure(xa0) => match b { Pattern::TupleDestructure(ya0) => (patterns_same(xa0@, ya0@)), _ => false },
        Pattern::CallDestructure(xa0, xa1) => match b { Pattern::CallDestructure(ya0, ya1) => (expr_same(*xa0, *ya0)) && (patterns_same(xa1@, ya1@)), _ => false },
        Pattern::ListDestructure(xa0) => match b { Pattern::ListDestructure(ya0) => (patterns_same(xa0@, ya0@)), _ => false },
        Pattern::ObjectDestructure(xa0) => match b { Pattern::ObjectDestructure(ya0) => (patterns_same(xa0@, ya0@)), _ => false },
        Pattern::ObjectCallDestructure(xa0, xa1) => match b { Pattern::ObjectCallDestructure(ya0, ya1) => (expr_same(*xa0, *ya0)) && (patterns_same(xa1@, ya1@)), _ => false },
        Pattern::Property(xa0, xa1) => match b { Pattern::Property(ya0, ya1) => (xa0@ == ya0@) && (pattern_same(*xa1, *ya1)), _ => false },
        Pattern::Variable(xa0) => match b { Pattern::Variable(ya0) => (xa0@ == ya0@), _ => false },
    }
}

/// Whether two values of `Definition` are the same tree.
pub open spec fn def_same(a: Definition, b: Definition) -> bool
    decreases a,
{
    match a {
        Definition::Module(xa0) => match b { Definition::Module(ya0) => (module_same(xa0, ya0)), _ => false },
        Definition::Struct(xa0) => match b { Definition::Struct(ya0) => (struct_same(xa0, ya0)), _ => false },
        Definition::StructField(xa0, xa1, xa2) => match b { Definition::StructField(ya0, ya1, ya2) => (xa0@ == ya0@) && (expr_same(*xa1, *ya1)) && (match (xa2, ya2) { (Some(x), Some(y)) => expr_same(*x, *y), (None, None) => true, _ => false }), _ => false },
        Definition::Enum(xa0) => match b { Definition::Enum(ya0) => (enum_same(xa0, ya0)), _ => false },
        Definition::EnumVariant(xa0) => match b { Definition::EnumVariant(ya0) => (xa0@ == ya0@), _ => false },
        Definition::EnumVariantWithStruct(xa0, xa1) => match b { Definition::EnumVariantWithStruct(ya0, ya1) => (xa0@ == ya0@) && (defs_same(xa1@, ya1@)), _ => false },
        Definition::EnumVariantWithTuple(xa0, xa1) => match b { Definition::EnumVariantWithTuple(ya0, ya1) => (xa0@ == ya0@) && (exprs_same(xa1@, ya1@)), _ => false },
        Definition::EnumVariantWithPattern(xa0, xa1) => match b { Definition::EnumVariantWithPattern(ya0, ya1) => (xa0@ == ya0@) && (pattern_same(*xa1, *ya1)), _ => false },
        Definition::EnumVariantWithSubEnum(xa0, xa1) => match b { Definition::EnumVariantWithSubEnum(ya0, ya1) => (xa0@ == ya0@) && (defs_same(xa1@, ya1@)), _ => false },
        Definition::Function(xa0) => match b { Definition::Function(ya0) => (function_same(xa0, ya0)), _ => false },
        Definition::FileScope { name: xname, items: xitems, scope_id: xscope_id } => match b { Definition::FileScope { name: yname, items: yitems, scope_id: yscope_id } => (xname@ == yname@) && (defs_same(xitems@, yitems@)) && (xscope_id == yscope_id), _ => false },
        Definition::Package { name: xname, scope_id: xscope_id } => match b { Definition::Package { name: yname, scope_id: yscope_id } => (xname@ == yname@) && (xscope_id == yscope_id), _ => false },
    }
}

/// Whether two values of `Function` are the same tree.
pub open spec fn function_same(a: Function, b: Function) -> bool
    decreases a,
{
    (a.kind == b.kind) && (a.name@ == b.name@) && (a.clauses@ == b.clauses@) && (a.params@ == b.params@) && (expr_same(*a.return_type, *b.return_type)) && (expr_same(*a.body, *b.body)) && (a.body_scope == b.body_scope)
}

/// Whether two values of `Param` are the same tree.
pub open spec fn param_same(a: Param, b: Param) -> bool
    decreases a,
{
    match a {
        Param::Itself { is_ref: xis_ref } => match b { Param::Itself { is_ref: yis_ref } => (xis_ref == yis_ref), _ => false },
        Param::Typed(xa0, xa1, xa2) => match b { Param::Typed(ya0, ya1, ya2) => (xa0@ == ya0@) && (expr_same(*xa1, *ya1)) && (match (xa2, ya2) { (Some(x), Some(y)) => expr_same(*x, *y), (None, None) => true, _ => false }), _ => false },
        Param::AutoCollectToTuple(xa0, xa1) => match b { Param::AutoCollectToTuple(ya0, ya1) => (xa0@ == ya0@) && (expr_same(*xa1, *ya1)), _ => false },
        Param::AutoCollectToObject(xa0, xa1) => match b { Param::AutoCollectToObject(ya0, ya1) => (xa0@ == ya0@) && (expr_same(*xa1, *ya1)), _ => false },
    }
}

/// Whether two values of `Module` are the same tree.
pub open spec fn module_same(a: Module, b: Module) -> bool
    decreases a,
{
    (a.name@ == b.name@) && (clauses_same(a.clauses@, b.clauses@)) && (a.scope_id == b.scope_id)
}

/// Whether two values of `Struct` are the same tree.
pub open spec fn struct_same(a: Struct, b: Struct) -> bool
    decreases a,
{
    (a.name@ == b.name@) && (clauses_same(a.clauses@, b.clauses@)) && (defs_same(a.fields@, b.fields@)) && (a.scope_id == b.scope_id)
}

/// Whether two values of `Enum` are the same tree.
pub open spec fn enum_same(a: Enum, b: Enum) -> bool
    decreases a,
{
    (a.name@ == b.name@) && (clauses_same(a.clauses@, b.clauses@)) && (defs_same(a.variants@, b.variants@)) && (defs_same(a.items@, b.items@))
}

/// Whether two values of `Property` are the same tree.
pub open spec fn prop_same(a: Property, b: Property) -> bool
    decreases a,
{
    (a.name@ == b.name@) && (expr_same(*a.value, *b.value))
}

/// Whether two values of `Clause` are the same tree.
pub open spec fn clause_same(a: Clause, b: Clause) -> bool
{
    match a {
        Clause::TypeDecl { symbol: xsymbol, owner: xowner, self_id: xself_id } => match b { Clause::TypeDecl { symbol: ysymbol, owner: yowner, self_id: yself_id } => (xsymbol@ == ysymbol@) && (xowner == yowner) && (xself_id == yself_id), _ => false },
        Clause::TypeTraitBounded { symbol: xsymbol, trait_bound: xtrait_bound, owner: xowner, self_id: xself_id } => match b { Clause::TypeTraitBounded { symbol: ysymbol, trait_bound: ytrait_bound, owner: yowner, self_id: yself_id } => (xsymbol@ == ysymbol@) && (xtrait_bound == ytrait_bound) && (xowner == yowner) && (xself_id == yself_id), _ => false },
        Clause::Decl { symbol: xsymbol, ty: xty, default: xdefault, owner: xowner, self_id: xself_id } => match b { Clause::Decl { symbol: ysymbol, ty: yty, default: ydefault, owner: yowner, self_id: yself_id } => (xsymbol@ == ysymbol@) && (xty == yty) && (match (xdefault, ydefault) { (Some(x), Some(y)) => x == y, (None, None) => true, _ => false }) && (xowner == yowner) && (xself_id == yself_id), _ => false },
        Clause::Requires => b is Requires,
        Clause::Ensures => b is Ensures,
        Clause::Decreases => b is Decreases,
        Clause::Outcomes => b is Outcomes,
    }
}

/// Whether two lists of `Expr` are the same, element by element.
pub open spec fn exprs_same(a: Seq<Expr>, b: Seq<Expr>) -> bool
    decreases a,
{
    a.len() == b.len() && (a.len() == 0 || (exprs_same(a.drop_last(), b.drop_last()) && expr_same(a.last(), b.last())))
}

/// Whether two lists of `Pattern` are the same, element by element.
pub open spec fn patterns_same(a: Seq<Pattern>, b: Seq<Pattern>) -> bool
    decreases a,
{
    a.len() == b.len() && (a.len() == 0 || (patterns_same(a.drop_last(), b.drop_last()) && pattern_same(a.last(), b.last())))
}

/// Whether two lists of `Definition` are the same, element by element.
pub open spec fn defs_same(a: Seq<Definition>, b: Seq<Definition>) -> bool
    decreases a,
{
    a.len() == b.len() && (a.len() == 0 || (defs_same(a.drop_last(), b.drop_last()) && def_same(a.last(), b.last())))
}

/// Whether two lists of `Param` are the same, element by element.
pub open spec fn params_same(a: Seq<Param>, b: Seq<Param>) -> bool
    decreases a,
{
    a.len() == b.len() && (a.len() == 0 || (params_same(a.drop_last(), b.drop_last()) && param_same(a.last(), b.last())))
}

/// Whether two lists of `Clause` are the same, element by element.
pub open spec fn clauses_same(a: Seq<Clause>, b: Seq<Clause>) -> bool
    decreases a,
{
    a.len() == b.len() && (a.len() == 0 || (clauses_same(a.drop_last(), b.drop_last()) && clause_same(a.last(), b.last())))
}

/// Whether two lists of `Property` are the same, element by element.
pub open spec fn props_same(a: Seq<Property>, b: Seq<Property>) -> bool
    decreases a,
{
    a.len() == b.len() && (a.len() == 0 || (props_same(a.drop_last(), b.drop_last()) && prop_same(a.last(), b.last())))
}

fn ids_equal(a: &Vec<HirId>, b: &Vec<HirId>) -> (r: bool)
    ensures
        r == (a@ == b@),
{
    if a.len() != b.len() {
        return false;
    }
    let mut i: usize = 0;
    while i < a.len()
        invariant
            a@.len() == b@.len(),
            0 <= i <= a@.len(),
            forall|k: int| 0 <= k < i ==> a@[k] == b@[k],
        decreases a@.len() - i,
    {
        if a[i] != b[i] {
            return false;
        }
        i += 1;
    }
    proof {
        assert(a@ =~= b@);
    }
    true
}

fn copy_ids(v: &Vec<HirId>) -> (r: Vec<HirId>)
    ensures
        r@ == v@,
{
    let mut r: Vec<HirId> = Vec::new();
    let mut i: usize = 0;
    while i < v.len()
        invariant
            0 <= i <= v@.len(),
            r@ == v@.take(i as int),
        decreases v@.len() - i,
    {
        r.push(v[i]);
        proof {
            assert(r@ =~= v@.take(i + 1));
        }
        i += 1;
    }
    proof {
        assert(v@.take(v@.len() as int) =~= v@);
    }
    r
}

fn exprs_same_as(a: &Vec<Expr>, b: &Vec<Expr>) -> (r: bool)
    ensures
        r == exprs_same(a@, b@),
    decreases a@,
{
    if a.len() != b.len() {
        return false;
    }
    let mut i: usize = 0;
    while i < a.len()
        invariant
            a@.len() == b@.len(),
            0 <= i <= a@.len(),
            exprs_same(a@.take(i as int), b@.take(i as int)),
        decreases a@.len() - i,
    {
        let ghost ta = a@.take(i as int + 1);
        let ghost tb = b@.take(i as int + 1);
        proof {
            assert(ta.drop_last() == a@.take(i as int));
            assert(tb.drop_last() == b@.take(i as int));
        }
        if !a[i].same_as(&b[i]) {
            proof {
                assert(!exprs_same(ta, tb));
                exprs_prefix(a@, b@, i as int + 1);
            }
            return false;
        }
        i += 1;
    }
    proof {
        assert(a@.take(a@.len() as int) == a@);
        assert(b@.take(b@.len() as int) == b@);
    }
    true
}

proof fn exprs_prefix(a: Seq<Expr>, b: Seq<Expr>, i: int)
    requires
        0 <= i <= a.len(),
        a.len() == b.len(),
        !exprs_same(a.take(i), b.take(i)),
    ensures
        !exprs_same(a, b),
    decreases a.len() - i,
{
    if i < a.len() {
        assert(a.take(i + 1).drop_last() == a.take(i));
        assert(b.take(i + 1).drop_last() == b.take(i));
        exprs_prefix(a, b, i + 1);
    } else {
        assert(a.take(i) == a);
        assert(b.take(i) == b);
    }
}

fn exprs_clone(v: &Vec<Expr>) -> (r: Vec<Expr>)
    ensures
        exprs_same(r@, v@),
    decreases v@,
{
    let mut r: Vec<Expr> = Vec::new();
    let mut i: usize = 0;
    while i < v.len()
        invariant
            0 <= i <= v@.len(),
            r@.len() == i,
            exprs_same(r@, v@.take(i as int)),
        decreases v@.len() - i,
    {
        let ghost before = r@;
        let x = v[i].deep_clone();
        r.push(x);
        proof {
            assert(r@.drop_last() == before);
            assert(v@.take(i as int + 1).drop_last() == v@.take(i as int));
        }
        i += 1;
    }
    proof {
        assert(v@.take(v@.len() as int) == v@);
    }
    r
}

fn patterns_same_as(a: &Vec<Pattern>, b: &Vec<Pattern>) -> (r: bool)
    ensures
        r == patterns_same(a@, b@),
    decreases a@,
{
    if a.len() != b.len() {
        return false;
    }
    let mut i: usize = 0;
    while i < a.len()
        invariant
            a@.len() == b@.len(),
            0 <= i <= a@.len(),
            patterns_same(a@.take(i as int), b@.take(i as int)),
        decreases a@.len() - i,
    {
        let ghost ta = a@.take(i as int + 1);
        let ghost tb = b@.take(i as int + 1);
        proof {
            assert(ta.drop_last() == a@.take(i as int));
            assert(tb.drop_last() == b@.take(i as int));
        }
        if !a[i].same_as(&b[i]) {
            proof {
                assert(!patterns_same(ta, tb));
                patterns_prefix(a@, b@, i as int + 1);
            }
            return false;
        }
        i += 1;
    }
    proof {
        assert(a@.take(a@.len() as int) == a@);
        assert(b@.take(b@.len() as int) == b@);
    }
    true
}

proof fn patterns_prefix(a: Seq<Pattern>, b: Seq<Pattern>, i: int)
    requires
        0 <= i <= a.len(),
        a.len() == b.len(),
        !patterns_same(a.take(i), b.take(i)),
    ensures
        !patterns_same(a, b),
    decreases a.len() - i,
{
    if i < a.len() {
        assert(a.take(i + 1).drop_last() == a.take(i));
        assert(b.take(i + 1).drop_last() == b.take(i));
        patterns_prefix(a, b, i + 1);
    } else {
        assert(a.take(i) == a);
        assert(b.take(i) == b);
    }
}

fn patterns_clone(v: &Vec<Pattern>) -> (r: Vec<Pattern>)
    ensures
        patterns_same(r@, v@),
    decreases v@,
{
    let mut r: Vec<Pattern> = Vec::new();
    let mut i: usize = 0;
    while i < v.len()
        invariant
            0 <= i <= v@.len(),
            r@.len() == i,
            patterns_same(r@, v@.take(i as int)),
        decreases v@.len() - i,
    {
        let ghost before = r@;
        let x = v[i].deep_clone();
        r.push(x);
        proof {
            assert(r@.drop_last() == before);
            assert(v@.take(i as int + 1).drop_last() == v@.take(i as int));
        }
        i += 1;
    }
    proof {
        assert(v@.take(v@.len() as int) == v@);
    }
    r
}

fn defs_same_as(a: &Vec<Definition>, b: &Vec<Definition>) -> (r: bool)
    ensures
        r == defs_same(a@, b@),
    decreases a@,
{
    if a.len() != b.len() {
        return false;
    }
    let mut i: usize = 0;
    while i < a.len()
        invariant
            a@.len() == b@.len(),
            0 <= i <= a@.len(),
            defs_same(a@.take(i as int), b@.take(i as int)),
        decreases a@.len() - i,
    {
        let ghost ta = a@.take(i as int + 1);
        let ghost tb = b@.take(i as int + 1);
        proof {
            assert(ta.drop_last() == a@.take(i as int));
            assert(tb.drop_last() == b@.take(i as int));
        }
        if !a[i].same_as(&b[i]) {
            proof {
                assert(!defs_same(ta, tb));
                defs_prefix(a@, b@, i as int + 1);
            }
            return false;
        }
        i += 1;
    }
    proof {
        assert(a@.take(a@.len() as int) == a@);
        assert(b@.take(b@.len() as int) == b@);
    }
    true
}

proof fn defs_prefix(a: Seq<Definition>, b: Seq<Definition>, i: int)
    requires
        0 <= i <= a.len(),
        a.len() == b.len(),
        !defs_same(a.take(i), b.take(i)),
    ensures
        !defs_same(a, b),
    decreases a.len() - i,
{
    if i < a.len() {
        assert(a.take(i + 1).drop_last() == a.take(i));
        assert(b.take(i + 1).drop_last() == b.take(i));
        defs_prefix(a, b, i + 1);
    } else {
        assert(a.take(i) == a);
        assert(b.take(i) == b);
    }
}

fn defs_clone(v: &Vec<Definition>) -> (r: Vec<Definition>)
    ensures
        defs_same(r@, v@),
    decreases v@,
{
    let mut r: Vec<Definition> = Vec::new();
    let mut i: usize = 0;
    while i < v.len()
        invariant
            0 <= i <= v@.len(),
            r@.len() == i,
            defs_same(r@, v@.take(i as int)),
        decreases v@.len() - i,
    {
        let ghost before = r@;
        let x = v[i].deep_clone();
        r.push(x);
        proof {
            assert(r@.drop_last() == before);
            assert(v@.take(i as int + 1).drop_last() == v@.take(i as int));
        }
        i += 1;
    }
    proof {
        assert(v@.take(v@.len() as int) == v@);
    }
    r
}

fn params_same_as(a: &Vec<Param>, b: &Vec<Param>) -> (r: bool)
    ensures
        r == params_same(a@, b@),
    decreases a@,
{
    if a.len() != b.len() {
        return false;
    }
    let mut i: usize = 0;
    while i < a.len()
        invariant
            a@.len() == b@.len(),
            0 <= i <= a@.len(),
            params_same(a@.take(i as int), b@.take(i as int)),
        decreases a@.len() - i,
    {
        let ghost ta = a@.take(i as int + 1);
        let ghost tb = b@.take(i as int + 1);
        proof {
            assert(ta.drop_last() == a@.take(i as int));
            assert(tb.drop_last() == b@.take(i as int));
        }
        if !a[i].same_as(&b[i]) {
            proof {
                assert(!params_same(ta, tb));
                params_prefix(a@, b@, i as int + 1);
            }
            return false;
        }
        i += 1;
    }
    proof {
        assert(a@.take(a@.len() as int) == a@);
        assert(b@.take(b@.len() as int) == b@);
    }
    true
}

proof fn params_prefix(a: Seq<Param>, b: Seq<Param>, i: int)
    requires
        0 <= i <= a.len(),
        a.len() == b.len(),
        !params_same(a.take(i), b.take(i)),
    ensures
        !params_same(a, b),
    decreases a.len() - i,
{
    if i < a.len() {
        assert(a.take(i + 1).drop_last() == a.take(i));
        assert(b.take(i + 1).drop_last() == b.take(i));
        params_prefix(a, b, i + 1);
    } else {
        assert(a.take(i) == a);
        assert(b.take(i) == b);
    }
}

fn params_clone(v: &Vec<Param>) -> (r: Vec<Param>)
    ensures
        params_same(r@, v@),
    decreases v@,
{
    let mut r: Vec<Param> = Vec::new();
    let mut i: usize = 0;
    while i < v.len()
        invariant
            0 <= i <= v@.len(),
            r@.len() == i,
            params_same(r@, v@.take(i as int)),
        decreases v@.len() - i,
    {
        let ghost before = r@;
        let x = v[i].deep_clone();
        r.push(x);
        proof {
            assert(r@.drop_last() == before);
            assert(v@.take(i as int + 1).drop_last() == v@.take(i as int));
        }
        i += 1;
    }
    proof {
        assert(v@.take(v@.len() as int) == v@);
    }
    r
}

fn clauses_same_as(a: &Vec<Clause>, b: &Vec<Clause>) -> (r: bool)
    ensures
        r == clauses_same(a@, b@),
    decreases a@,
{
    if a.len() != b.len() {
        return false;
    }
    let mut i: usize = 0;
    while i < a.len()
        invariant
            a@.len() == b@.len(),
            0 <= i <= a@.len(),
            clauses_same(a@.take(i as int), b@.take(i as int)),
        decreases a@.len() - i,
    {
        let ghost ta = a@.take(i as int + 1);
        let ghost tb = b@.take(i as int + 1);
        proof {
            assert(ta.drop_last() == a@.take(i as int));
            assert(tb.drop_last() == b@.take(i as int));
        }
        if !a[i].same_as(&b[i]) {
            proof {
                assert(!clauses_same(ta, tb));
                clauses_prefix(a@, b@, i as int + 1);
            }
            return false;
        }
        i += 1;
    }
    proof {
        assert(a@.take(a@.len() as int) == a@);
        assert(b@.take(b@.len() as int) == b@);
    }
    true
}

proof fn clauses_prefix(a: Seq<Clause>, b: Seq<Clause>, i: int)
    requires
        0 <= i <= a.len(),
        a.len() == b.len(),
        !clauses_same(a.take(i), b.take(i)),
    ensures
        !clauses_same(a, b),
    decreases a.len() - i,
{
    if i < a.len() {
        assert(a.take(i + 1).drop_last() == a.take(i));
        assert(b.take(i + 1).drop_last() == b.take(i));
        clauses_prefix(a, b, i + 1);
    } else {
        assert(a.take(i) == a);
        assert(b.take(i) == b);
    }
}

fn clauses_clone(v: &Vec<Clause>) -> (r: Vec<Clause>)
    ensures
        clauses_same(r@, v@),
    decreases v@,
{
    let mut r: Vec<Clause> = Vec::new();
    let mut i: usize = 0;
    while i < v.len()
        invariant
            0 <= i <= v@.len(),
            r@.len() == i,
            clauses_same(r@, v@.take(i as int)),
        decreases v@.len() - i,
    {
        let ghost before = r@;
        let x = v[i];
        r.push(x);
        proof {
            assert(r@.drop_last() == before);
            assert(v@.take(i as int + 1).drop_last() == v@.take(i as int));
        }
        i += 1;
    }
    proof {
        assert(v@.take(v@.len() as int) == v@);
    }
    r
}

fn props_same_as(a: &Vec<Property>, b: &Vec<Property>) -> (r: bool)
    ensures
        r == props_same(a@, b@),
    decreases a@,
{
    if a.len() != b.len() {
        return false;
    }
    let mut i: usize = 0;
    while i < a.len()
        invariant
            a@.len() == b@.len(),
            0 <= i <= a@.len(),
            props_same(a@.take(i as int), b@.take(i as int)),
        decreases a@.len() - i,
    {
        let ghost ta = a@.take(i as int + 1);
        let ghost tb = b@.take(i as int + 1);
        proof {
            assert(ta.drop_last() == a@.take(i as int));
            assert(tb.drop_last() == b@.take(i as int));
        }
        if !a[i].same_as(&b[i]) {
            proof {
                assert(!props_same(ta, tb));
                props_prefix(a@, b@, i as int + 1);
            }
            return false;
        }
        i += 1;
    }
    proof {
        assert(a@.take(a@.len() as int) == a@);
        assert(b@.take(b@.len() as int) == b@);
    }
    true
}

proof fn props_prefix(a: Seq<Property>, b: Seq<Property>, i: int)
    requires
        0 <= i <= a.len(),
        a.len() == b.len(),
        !props_same(a.take(i), b.take(i)),
    ensures
        !props_same(a, b),
    decreases a.len() - i,
{
    if i < a.len() {
        assert(a.take(i + 1).drop_last() == a.take(i));
        assert(b.take(i + 1).drop_last() == b.take(i));
        props_prefix(a, b, i + 1);
    } else {
        assert(a.take(i) == a);
        assert(b.take(i) == b);
    }
}

fn props_clone(v: &Vec<Property>) -> (r: Vec<Property>)
    ensures
        props_same(r@, v@),
    decreases v@,
{
    let mut r: Vec<Property> = Vec::new();
    let mut i: usize = 0;
    while i < v.len()
        invariant
            0 <= i <= v@.len(),
            r@.len() == i,
            props_same(r@, v@.take(i as int)),
        decreases v@.len() - i,
    {
        let ghost before = r@;
        let x = v[i].deep_clone();
        r.push(x);
        proof {
            assert(r@.drop_last() == before);
            assert(v@.take(i as int + 1).drop_last() == v@.take(i as int));
        }
        i += 1;
    }
    proof {
        assert(v@.take(v@.len() as int) == v@);
    }
    r
}

impl Expr {
    /// Whether `other` is the same tree as `self`.
    #[verifier::rlimit(100)]
    #[verifier::spinoff_prover]
    pub fn same_as(&self, other: &Expr) -> (r: bool)
        ensures
            r == expr_same(*self, *other),
        decreases *self,
    {
        match self {
            Expr::Ref(xa0) => match other { Expr::Ref(ya0) => { (*xa0 == *ya0) }, _ => false },
            Expr::IntLiteral(xa0) => match other { Expr::IntLiteral(ya0) => { (*xa0 == *ya0) }, _ => false },
            Expr::BoolLiteral(xa0) => match other { Expr::BoolLiteral(ya0) => { (*xa0 == *ya0) }, _ => false },
            Expr::RealLiteral(xa0, xa1) => match other { Expr::RealLiteral(ya0, ya1) => { (*xa0 == *ya0) && (*xa1 == *ya1) }, _ => false },
            Expr::StrLiteral(xa0) => match other { Expr::StrLiteral(ya0) => { (xa0.same(ya0)) }, _ => false },
            Expr::CharLiteral(xa0) => match other { Expr::CharLiteral(ya0) => { (*xa0 == *ya0) }, _ => false },
            Expr::SymbolLiteral(xa0) => match other { Expr::SymbolLiteral(ya0) => { (xa0.same(ya0)) }, _ => false },
            Expr::Null => match other { Expr::Null => true, _ => false },
            Expr::Undefined => match other { Expr::Undefined => true, _ => false },
            Expr::Unit => match other { Expr::Unit => true, _ => false },
            Expr::Any => match other { Expr::Any => true, _ => false },
            Expr::SelfVal => match other { Expr::SelfVal => true, _ => false },
            Expr::List(xa0) => match other { Expr::List(ya0) => { (exprs_same_as(xa0, ya0)) }, _ => false },
            Expr::Tuple(xa0) => match other { Expr::Tuple(ya0) => { (exprs_same_as(xa0, ya0)) }, _ => false },
            Expr::Object(xa0, xa1) => match other { Expr::Object(ya0, ya1) => { (exprs_same_as(xa0, ya0)) && (props_same_as(xa1, ya1)) }, _ => false },
            Expr::Range { from: xfrom, to: xto, inclusive: xinclusive } => match other { Expr::Range { from: yfrom, to: yto, inclusive: yinclusive } => { (xfrom.same_as(yfrom)) && (xto.same_as(yto)) && (*xinclusive == *yinclusive) }, _ => false },
            Expr::Pattern(xa0) => match other { Expr::Pattern(ya0) => { (xa0.same_as(ya0)) }, _ => false },
            Expr::FnApply { callee: xcallee, args: xargs, optional_args: xoptional_args } => match other { Expr::FnApply { callee: ycallee, args: yargs, optional_args: yoptional_args } => { (xcallee.same_as(ycallee)) && (exprs_same_as(xargs, yargs)) && (props_same_as(xoptional_args, yoptional_args)) }, _ => false },
            Expr::NormalFormFnApply { callee: xcallee, args: xargs, optional_args: xoptional_args } => match other { Expr::NormalFormFnApply { callee: ycallee, args: yargs, optional_args: yoptional_args } => { (xcallee.same_as(ycallee)) && (exprs_same_as(xargs, yargs)) && (props_same_as(xoptional_args, yoptional_args)) }, _ => false },
            Expr::FnObjectApply { callee: xcallee, elements: xelements, properties: xproperties } => match other { Expr::FnObjectApply { callee: ycallee, elements: yelements, properties: yproperties } => { (xcallee.same_as(ycallee)) && (exprs_same_as(xelements, yelements)) && (props_same_as(xproperties, yproperties)) }, _ => false },
            Expr::UnaryApply { expr: xexpr, op: xop } => match other { Expr::UnaryApply { expr: yexpr, op: yop } => { (xexpr.same_as(yexpr)) && (*xop == *yop) }, _ => false },
            Expr::BinaryApply { left: xleft, right: xright, op: xop } => match other { Expr::BinaryApply { left: yleft, right: yright, op: yop } => { (xleft.same_as(yleft)) && (xright.same_as(yright)) && (*xop == *yop) }, _ => false },
            Expr::ObjectApply { callee: xcallee, args: xargs, optional_args: xoptional_args, object: xobject } => match other { Expr::ObjectApply { callee: ycallee, args: yargs, optional_args: yoptional_args, object: yobject } => { (xcallee.same_as(ycallee)) && (exprs_same_as(xargs, yargs)) && (props_same_as(xoptional_args, yoptional_args)) && (xobject.same_as(yobject)) }, _ => false },
            Expr::Index(xa0, xa1) => match other { Expr::Index(ya0, ya1) => { (xa0.same_as(ya0)) && (xa1.same_as(ya1)) }, _ => false },
            Expr::Matches(xa0, xa1) => match other { Expr::Matches(ya0, ya1) => { (xa0.same_as(ya0)) && (xa1.same_as(ya1)) }, _ => false },
            Expr::If { condition: xcondition, then_branch: xthen_branch, else_branch: xelse_branch } => match other { Expr::If { condition: ycondition, then_branch: ythen_branch, else_branch: yelse_branch } => { (xcondition.same_as(ycondition)) && (xthen_branch.same_as(ythen_branch)) && (match (xelse_branch, yelse_branch) { (Some(x), Some(y)) => { x.same_as(y) }, (None, None) => true, _ => false }) }, _ => false },
            Expr::When { conditions: xconditions, branches: xbranches } => match other { Expr::When { conditions: yconditions, branches: ybranches } => { (exprs_same_as(xconditions, yconditions)) && (exprs_same_as(xbranches, ybranches)) }, _ => false },
            Expr::Match { subject: xsubject, arms: xarms } => match other { Expr::Match { subject: ysubject, arms: yarms } => { (xsubject.same_as(ysubject)) && (patterns_same_as(xarms, yarms)) }, _ => false },
            Expr::While { condition: xcondition, body: xbody } => match other { Expr::While { condition: ycondition, body: ybody } => { (xcondition.same_as(ycondition)) && (xbody.same_as(ybody)) }, _ => false },
            Expr::For { pattern: xpattern, iterable: xiterable, body: xbody } => match other { Expr::For { pattern: ypattern, iterable: yiterable, body: ybody } => { (xpattern.same_as(ypattern)) && (xiterable.same_as(yiterable)) && (xbody.same_as(ybody)) }, _ => false },
            Expr::Let { pattern: xpattern, ty: xty, init: xinit } => match other { Expr::Let { pattern: ypattern, ty: yty, init: yinit } => { (xpattern.same_as(ypattern)) && (xty.same_as(yty)) && (xinit.same_as(yinit)) }, _ => false },
            Expr::Const { pattern: xpattern, ty: xty, init: xinit } => match other { Expr::Const { pattern: ypattern, ty: yty, init: yinit } => { (xpattern.same_as(ypattern)) && (xty.same_as(yty)) && (xinit.same_as(yinit)) }, _ => false },
            Expr::Assign { location: xlocation, value: xvalue } => match other { Expr::Assign { location: ylocation, value: yvalue } => { (xlocation.same_as(ylocation)) && (xvalue.same_as(yvalue)) }, _ => false },
            Expr::Block(xa0, xa1) => match other { Expr::Block(ya0, ya1) => { (*xa0 == *ya0) && (exprs_same_as(xa1, ya1)) }, _ => false },
            Expr::ExprStatement(xa0) => match other { Expr::ExprStatement(ya0) => { (xa0.same_as(ya0)) }, _ => false },
            Expr::Break(xa0) => match other { Expr::Break(ya0) => { (match (xa0, ya0) { (Some(x), Some(y)) => { x.same(y) }, (None, None) => true, _ => false }) }, _ => false },
            Expr::Continue(xa0) => match other { Expr::Continue(ya0) => { (match (xa0, ya0) { (Some(x), Some(y)) => { x.same(y) }, (None, None) => true, _ => false }) }, _ => false },
            Expr::Return(xa0) => match other { Expr::Return(ya0) => { (match (xa0, ya0) { (Some(x), Some(y)) => { x.same_as(y) }, (None, None) => true, _ => false }) }, _ => false },
            Expr::Resume(xa0) => match other { Expr::Resume(ya0) => { (match (xa0, ya0) { (Some(x), Some(y)) => { x.same_as(y) }, (None, None) => true, _ => false }) }, _ => false },
            Expr::TyVoid => match other { Expr::TyVoid => true, _ => false },
            Expr::TyNoReturn => match other { Expr::TyNoReturn => true, _ => false },
            Expr::TyAny => match other { Expr::TyAny => true, _ => false },
            Expr::TySelf => match other { Expr::TySelf => true, _ => false },
            Expr::TyInteger => match other { Expr::TyInteger => true, _ => false },
            Expr::TyReal => match other { Expr::TyReal => true, _ => false },
            Expr::TyChar => match other { Expr::TyChar => true, _ => false },
            Expr::TySymbol => match other { Expr::TySymbol => true, _ => false },
            Expr::TyObject => match other { Expr::TyObject => true, _ => false },
            Expr::TyStr => match other { Expr::TyStr => true, _ => false },
            Expr::TyBool => match other { Expr::TyBool => true, _ => false },
            Expr::TyInt(xa0, xa1) => match other { Expr::TyInt(ya0, ya1) => { (*xa0 == *ya0) && (*xa1 == *ya1) }, _ => false },
            Expr::TyFloat(xa0) => match other { Expr::TyFloat(ya0) => { (*xa0 == *ya0) }, _ => false },
            Expr::TyOptional(xa0) => match other { Expr::TyOptional(ya0) => { (xa0.same_as(ya0)) }, _ => false },
            Expr::TyTuple(xa0) => match other { Expr::TyTuple(ya0) => { (exprs_same_as(xa0, ya0)) }, _ => false },
            Expr::TyPointer(xa0) => match other { Expr::TyPointer(ya0) => { (xa0.same_as(ya0)) }, _ => false },
            Expr::TyArray(xa0, xa1) => match other { Expr::TyArray(ya0, ya1) => { (xa0.same_as(ya0)) && (xa1.same_as(ya1)) }, _ => false },
            Expr::TyScheme(xa0, xa1) => match other { Expr::TyScheme(ya0, ya1) => { (params_same_as(xa0, ya0)) && (xa1.same_as(ya1)) }, _ => false },
            Expr::TyNamed(xa0, xa1) => match other { Expr::TyNamed(ya0, ya1) => { (xa0.same(ya0)) && (xa1.same_as(ya1)) }, _ => false },
            Expr::TyAlias(xa0, xa1) => match other { Expr::TyAlias(ya0, ya1) => { (xa0.same(ya0)) && (xa1.same_as(ya1)) }, _ => false },
            Expr::Select(xa0, xa1) => match other { Expr::Select(ya0, ya1) => { (xa0.same_as(ya0)) && (xa1.same(ya1)) }, _ => false },
        }
    }

    /// A copy of the whole tree.
    #[verifier::rlimit(100)]
    #[verifier::spinoff_prover]
    pub fn deep_clone(&self) -> (r: Expr)
        ensures
            expr_same(r, *self),
        decreases *self,
    {
        match self {
            Expr::Ref(xa0) => Expr::Ref(*xa0),
            Expr::IntLiteral(xa0) => Expr::IntLiteral(*xa0),
            Expr::BoolLiteral(xa0) => Expr::BoolLiteral(*xa0),
            Expr::RealLiteral(xa0, xa1) => Expr::RealLiteral(*xa0, *xa1),
            Expr::StrLiteral(xa0) => Expr::StrLiteral(*xa0),
            Expr::CharLiteral(xa0) => Expr::CharLiteral(*xa0),
            Expr::SymbolLiteral(xa0) => Expr::SymbolLiteral(*xa0),
            Expr::Null => Expr::Null,
            Expr::Undefined => Expr::Undefined,
            Expr::Unit => Expr::Unit,
            Expr::Any => Expr::Any,
            Expr::SelfVal => Expr::SelfVal,
            Expr::List(xa0) => Expr::List(exprs_clone(xa0)),
            Expr::Tuple(xa0) => Expr::Tuple(exprs_clone(xa0)),
            Expr::Object(xa0, xa1) => Expr::Object(exprs_clone(xa0), props_clone(xa1)),
            Expr::Range { from: xfrom, to: xto, inclusive: xinclusive } => Expr::Range { from: Box::new(xfrom.deep_clone()), to: Box::new(xto.deep_clone()), inclusive: *xinclusive },
            Expr::Pattern(xa0) => Expr::Pattern(Box::new(xa0.deep_clone())),
            Expr::FnApply { callee: xcallee, args: xargs, optional_args: xoptional_args } => Expr::FnApply { callee: Box::new(xcallee.deep_clone()), args: exprs_clone(xargs), optional_args: props_clone(xoptional_args) },
            Expr::NormalFormFnApply { callee: xcallee, args: xargs, optional_args: xoptional_args } => Expr::NormalFormFnApply { callee: Box::new(xcallee.deep_clone()), args: exprs_clone(xargs), optional_args: props_clone(xoptional_args) },
            Expr::FnObjectApply { callee: xcallee, elements: xelements, properties: xproperties } => Expr::FnObjectApply { callee: Box::new(xcallee.deep_clone()), elements: exprs_clone(xelements), properties: props_clone(xproperties) },
            Expr::UnaryApply { expr: xexpr, op: xop } => Expr::UnaryApply { expr: Box::new(xexpr.deep_clone()), op: *xop },
            Expr::BinaryApply { left: xleft, right: xright, op: xop } => Expr::BinaryApply { left: Box::new(xleft.deep_clone()), right: Box::new(xright.deep_clone()), op: *xop },
            Expr::ObjectApply { callee: xcallee, args: xargs, optional_args: xoptional_args, object: xobject } => Expr::ObjectApply { callee: Box::new(xcallee.deep_clone()), args: exprs_clone(xargs), optional_args: props_clone(xoptional_args), object: Box::new(xobject.deep_clone()) },
            Expr::Index(xa0, xa1) => Expr::Index(Box::new(xa0.deep_clone()), Box::new(xa1.deep_clone())),
            Expr::Matches(xa0, xa1) => Expr::Matches(Box::new(xa0.deep_clone()), Box::new(xa1.deep_clone())),
            Expr::If { condition: xcondition, then_branch: xthen_branch, else_branch: xelse_branch } => Expr::If { condition: Box::new(xcondition.deep_clone()), then_branch: Box::new(xthen_branch.deep_clone()), else_branch: match xelse_branch { Some(x) => Some(Box::new(x.deep_clone())), None => None } },
            Expr::When { conditions: xconditions, branches: xbranches } => Expr::When { conditions: exprs_clone(xconditions), branches: exprs_clone(xbranches) },
            Expr::Match { subject: xsubject, arms: xarms } => Expr::Match { subject: Box::new(xsubject.deep_clone()), arms: patterns_clone(xarms) },
            Expr::While { condition: xcondition, body: xbody } => Expr::While { condition: Box::new(xcondition.deep_clone()), body: Box::new(xbody.deep_clone()) },
            Expr::For { pattern: xpattern, iterable: xiterable, body: xbody } => Expr::For { pattern: Box::new(xpattern.deep_clone()), iterable: Box::new(xiterable.deep_clone()), body: Box::new(xbody.deep_clone()) },
            Expr::Let { pattern: xpattern, ty: xty, init: xinit } => Expr::Let { pattern: Box::new(xpattern.deep_clone()), ty: Box::new(xty.deep_clone()), init: Box::new(xinit.deep_clone()) },
            Expr::Const { pattern: xpattern, ty: xty, init: xinit } => Expr::Const { pattern: Box::new(xpattern.deep_clone()), ty: Box::new(xty.deep_clone()), init: Box::new(xinit.deep_clone()) },
            Expr::Assign { location: xlocation, value: xvalue } => Expr::Assign { location: Box::new(xlocation.deep_clone()), value: Box::new(xvalue.deep_clone()) },
            Expr::Block(xa0, xa1) => Expr::Block(*xa0, exprs_clone(xa1)),
            Expr::ExprStatement(xa0) => Expr::ExprStatement(Box::new(xa0.deep_clone())),
            Expr::Break(xa0) => Expr::Break(*xa0),
            Expr::Continue(xa0) => Expr::Continue(*xa0),
            Expr::Return(xa0) => Expr::Return(match xa0 { Some(x) => Some(Box::new(x.deep_clone())), None => None }),
            Expr::Resume(xa0) => Expr::Resume(match xa0 { Some(x) => Some(Box::new(x.deep_clone())), None => None }),
            Expr::TyVoid => Expr::TyVoid,
            Expr::TyNoReturn => Expr::TyNoReturn,
            Expr::TyAny => Expr::TyAny,
            Expr::TySelf => Expr::TySelf,
            Expr::TyInteger => Expr::TyInteger,
            Expr::TyReal => Expr::TyReal,
            Expr::TyChar => Expr::TyChar,
            Expr::TySymbol => Expr::TySymbol,
            Expr::TyObject => Expr::TyObject,
            Expr::TyStr => Expr::TyStr,
            Expr::TyBool => Expr::TyBool,
            Expr::TyInt(xa0, xa1) => Expr::TyInt(*xa0, *xa1),
            Expr::TyFloat(xa0) => Expr::TyFloat(*xa0),
            Expr::TyOptional(xa0) => Expr::TyOptional(Box::new(xa0.deep_clone())),
            Expr::TyTuple(xa0) => Expr::TyTuple(exprs_clone(xa0)),
            Expr::TyPointer(xa0) => Expr::TyPointer(Box::new(xa0.deep_clone())),
            Expr::TyArray(xa0, xa1) => Expr::TyArray(Box::new(xa0.deep_clone()), Box::new(xa1.deep_clone())),
            Expr::TyScheme(xa0, xa1) => Expr::TyScheme(params_clone(xa0), Box::new(xa1.deep_clone())),
            Expr::TyNamed(xa0, xa1) => Expr::TyNamed(*xa0, Box::new(xa1.deep_clone())),
            Expr::TyAlias(xa0, xa1) => Expr::TyAlias(*xa0, Box::new(xa1.deep_clone())),
            Expr::Select(xa0, xa1) => Expr::Select(Box::new(xa0.deep_clone()), *xa1),
        }
    }
}

impl Pattern {
    /// Whether `other` is the same tree as `self`.
    #[verifier::rlimit(100)]
    #[verifier::spinoff_prover]
    pub fn same_as(&self, other: &Pattern) -> (r: bool)
        ensures
            r == pattern_same(*self, *other),
        decreases *self,
    {
        match self {
            Pattern::Ref(xa0) => match other { Pattern::Ref(ya0) => { (*xa0 == *ya0) }, _ => false },
            Pattern::Wildcard => match other { Pattern::Wildcard => true, _ => false },
            Pattern::Literal(xa0) => match other { Pattern::Literal(ya0) => { (xa0.same_as(ya0)) }, _ => false },
            Pattern::Symbol(xa0) => match other { Pattern::Symbol(ya0) => { (xa0.same(ya0)) }, _ => false },
            Pattern::Null => match other { Pattern::Null => true, _ => false },
            Pattern::OptionSome(xa0) => match other { Pattern::OptionSome(ya0) => { (xa0.same_as(ya0)) }, _ => false },
            Pattern::ResultOk(xa0) => match other { Pattern::ResultOk(ya0) => { (xa0.same_as(ya0)) }, _ => false },
            Pattern::ResultErr(xa0) => match other { Pattern::ResultErr(ya0) => { (xa0.same_as(ya0)) }, _ => false },
            Pattern::Range { from: xfrom, to: xto, inclusive: xinclusive } => match other { Pattern::Range { from: yfrom, to: yto, inclusive: yinclusive } => { (xfrom.same_as(yfrom)) && (xto.same_as(yto)) && (*xinclusive == *yinclusive) }, _ => false },
            Pattern::TupleDestructure(xa0) => match other { Pattern::TupleDestructure(ya0) => { (patterns_same_as(xa0, ya0)) }, _ => false },
            Pattern::CallDestructure(xa0, xa1) => match other { Pattern::CallDestructure(ya0, ya1) => { (xa0.same_as(ya0)) && (patterns_same_as(xa1, ya1)) }, _ => false },
            Pattern::ListDestructure(xa0) => match other { Pattern::ListDestructure(ya0) => { (patterns_same_as(xa0, ya0)) }, _ => false },
            Pattern::ObjectDestructure(xa0) => match other { Pattern::ObjectDestructure(ya0) => { (patterns_same_as(xa0, ya0)) }, _ => false },
            Pattern::ObjectCallDestructure(xa0, xa1) => match other { Pattern::ObjectCallDestructure(ya0, ya1) => { (xa0.same_as(ya0)) && (patterns_same_as(xa1, ya1)) }, _ => false },
            Pattern::Property(xa0, xa1) => match other { Pattern::Property(ya0, ya1) => { (xa0.same(ya0)) && (xa1.same_as(ya1)) }, _ => false },
            Pattern::Variable(xa0) => match other { Pattern::Variable(ya0) => { (xa0.same(ya0)) }, _ => false },
        }
    }

    /// A copy of the whole tree.
    #[verifier::rlimit(100)]
    #[verifier::spinoff_prover]
    pub fn deep_clone(&self) -> (r: Pattern)
        ensures
            pattern_same(r, *self),
        decreases *self,
    {
        match self {
            Pattern::Ref(xa0) => Pattern::Ref(*xa0),
            Pattern::Wildcard => Pattern::Wildcard,
            Pattern::Literal(xa0) => Pattern::Literal(Box::new(xa0.deep_clone())),
            Pattern::Symbol(xa0) => Pattern::Symbol(*xa0),
            Pattern::Null => Pattern::Null,
            Pattern::OptionSome(xa0) => Pattern::OptionSome(Box::new(xa0.deep_clone())),
            Pattern::ResultOk(xa0) => Pattern::ResultOk(Box::new(xa0.deep_clone())),
            Pattern::ResultErr(xa0) => Pattern::ResultErr(Box::new(xa0.deep_clone())),
            Pattern::Range { from: xfrom, to: xto, inclusive: xinclusive } => Pattern::Range { from: Box::new(xfrom.deep_clone()), to: Box::new(xto.deep_clone()), inclusive: *xinclusive },
            Pattern::TupleDestructure(xa0) => Pattern::TupleDestructure(patterns_clone(xa0)),
            Pattern::CallDestructure(xa0, xa1) => Pattern::CallDestructure(Box::new(xa0.deep_clone()), patterns_clone(xa1)),
            Pattern::ListDestructure(xa0) => Pattern::ListDestructure(patterns_clone(xa0)),
            Pattern::ObjectDestructure(xa0) => Pattern::ObjectDestructure(patterns_clone(xa0)),
            Pattern::ObjectCallDestructure(xa0, xa1) => Pattern::ObjectCallDestructure(Box::new(xa0.deep_clone()), patterns_clone(xa1)),
            Pattern::Property(xa0, xa1) => Pattern::Property(*xa0, Box::new(xa1.deep_clone())),
            Pattern::Variable(xa0) => Pattern::Variable(*xa0),
        }
    }
}

impl Definition {
    /// Whether `other` is the same tree as `self`.
    #[verifier::rlimit(100)]
    #[verifier::spinoff_prover]
    pub fn same_as(&self, other: &Definition) -> (r: bool)
        ensures
            r == def_same(*self, *other),
        decreases *self,
    {
        match self {
            Definition::Module(xa0) => match other { Definition::Module(ya0) => { (xa0.same_as(ya0)) }, _ => false },
            Definition::Struct(xa0) => match other { Definition::Struct(ya0) => { (xa0.same_as(ya0)) }, _ => false },
            Definition::StructField(xa0, xa1, xa2) => match other { Definition::StructField(ya0, ya1, ya2) => { (xa0.same(ya0)) && (xa1.same_as(ya1)) && (match (xa2, ya2) { (Some(x), Some(y)) => { x.same_as(y) }, (None, None) => true, _ => false }) }, _ => false },
            Definition::Enum(xa0) => match other { Definition::Enum(ya0) => { (xa0.same_as(ya0)) }, _ => false },
            Definition::EnumVariant(xa0) => match other { Definition::EnumVariant(ya0) => { (xa0.same(ya0)) }, _ => false },
            Definition::EnumVariantWithStruct(xa0, xa1) => match other { Definition::EnumVariantWithStruct(ya0, ya1) => { (xa0.same(ya0)) && (defs_same_as(xa1, ya1)) }, _ => false },
            Definition::EnumVariantWithTuple(xa0, xa1) => match other { Definition::EnumVariantWithTuple(ya0, ya1) => { (xa0.same(ya0)) && (exprs_same_as(xa1, ya1)) }, _ => false },
            Definition::EnumVariantWithPattern(xa0, xa1) => match other { Definition::EnumVariantWithPattern(ya0, ya1) => { (xa0.same(ya0)) && (xa1.same_as(ya1)) }, _ => false },
            Definition::EnumVariantWithSubEnum(xa0, xa1) => match other { Definition::EnumVariantWithSubEnum(ya0, ya1) => { (xa0.same(ya0)) && (defs_same_as(xa1, ya1)) }, _ => false },
            Definition::Function(xa0) => match other { Definition::Function(ya0) => { (xa0.same_as(ya0)) }, _ => false },
            Definition::FileScope { name: xname, items: xitems, scope_id: xscope_id } => match other { Definition::FileScope { name: yname, items: yitems, scope_id: yscope_id } => { (xname.same(yname)) && (defs_same_as(xitems, yitems)) && (*xscope_id == *yscope_id) }, _ => false },
            Definition::Package { name: xname, scope_id: xscope_id } => match other { Definition::Package { name: yname, scope_id: yscope_id } => { (xname.same(yname)) && (*xscope_id == *yscope_id) }, _ => false },
        }
    }

    /// A copy of the whole tree.
    #[verifier::rlimit(100)]
    #[verifier::spinoff_prover]
    pub fn deep_clone(&self) -> (r: Definition)
        ensures
            def_same(r, *self),
        decreases *self,
    {
        match self {
            Definition::Module(xa0) => Definition::Module(xa0.deep_clone()),
            Definition::Struct(xa0) => Definition::Struct(xa0.deep_clone()),
            Definition::StructField(xa0, xa1, xa2) => Definition::StructField(*xa0, Box::new(xa1.deep_clone()), match xa2 { Some(x) => Some(Box::new(x.deep_clone())), None => None }),
            Definition::Enum(xa0) => Definition::Enum(xa0.deep_clone()),
            Definition::EnumVariant(xa0) => Definition::EnumVariant(*xa0),
            Definition::EnumVariantWithStruct(xa0, xa1) => Definition::EnumVariantWithStruct(*xa0, defs_clone(xa1)),
            Definition::EnumVariantWithTuple(xa0, xa1) => Definition::EnumVariantWithTuple(*xa0, exprs_clone(xa1)),
            Definition::EnumVariantWithPattern(xa0, xa1) => Definition::EnumVariantWithPattern(*xa0, Box::new(xa1.deep_clone())),
            Definition::EnumVariantWithSubEnum(xa0, xa1) => Definition::EnumVariantWithSubEnum(*xa0, defs_clone(xa1)),
            Definition::Function(xa0) => Definition::Function(xa0.deep_clone()),
            Definition::FileScope { name: xname, items: xitems, scope_id: xscope_id } => Definition::FileScope { name: *xname, items: defs_clone(xitems), scope_id: *xscope_id },
            Definition::Package { name: xname, scope_id: xscope_id } => Definition::Package { name: *xname, scope_id: *xscope_id },
        }
    }
}

impl Function {
    /// Whether `other` is the same tree as `self`.
    pub fn same_as(&self, other: &Function) -> (r: bool)
        ensures
            r == function_same(*self, *other),
        decreases *self,
    {
        (*(&self.kind) == *(&other.kind)) && ((&self.name).same((&other.name))) && (ids_equal((&self.clauses), (&other.clauses))) && (ids_equal((&self.params), (&other.params))) && ((&self.return_type).same_as((&other.return_type))) && ((&self.body).same_as((&other.body))) && (*(&self.body_scope) == *(&other.body_scope))
    }

    /// A copy of the whole tree.
    pub fn deep_clone(&self) -> (r: Function)
        ensures
            function_same(r, *self),
        decreases *self,
    {
        Function { kind: *(&self.kind), name: *(&self.name), clauses: copy_ids((&self.clauses)), params: copy_ids((&self.params)), return_type: Box::new((&self.return_type).deep_clone()), body: Box::new((&self.body).deep_clone()), body_scope: *(&self.body_scope) }
    }
}

impl Param {
    /// Whether `other` is the same tree as `self`.
    pub fn same_as(&self, other: &Param) -> (r: bool)
        ensures
            r == param_same(*self, *other),
        decreases *self,
    {
        match self {
            Param::Itself { is_ref: xis_ref } => match other { Param::Itself { is_ref: yis_ref } => { (*xis_ref == *yis_ref) }, _ => false },
            Param::Typed(xa0, xa1, xa2) => match other { Param::Typed(ya0, ya1, ya2) => { (xa0.same(ya0)) && (xa1.same_as(ya1)) && (match (xa2, ya2) { (Some(x), Some(y)) => { x.same_as(y) }, (None, None) => true, _ => false }) }, _ => false },
            Param::AutoCollectToTuple(xa0, xa1) => match other { Param::AutoCollectToTuple(ya0, ya1) => { (xa0.same(ya0)) && (xa1.same_as(ya1)) }, _ => false },
            Param::AutoCollectToObject(xa0, xa1) => match other { Param::AutoCollectToObject(ya0, ya1) => { (xa0.same(ya0)) && (xa1.same_as(ya1)) }, _ => false },
        }
    }

    /// A copy of the whole tree.
    pub fn deep_clone(&self) -> (r: Param)
        ensures
            param_same(r, *self),
        decreases *self,
    {
        match self {
            Param::Itself { is_ref: xis_ref } => Param::Itself { is_ref: *xis_ref },
            Param::Typed(xa0, xa1, xa2) => Param::Typed(*xa0, Box::new(xa1.deep_clone()), match xa2 { Some(x) => Some(Box::new(x.deep_clone())), None => None }),
            Param::AutoCollectToTuple(xa0, xa1) => Param::AutoCollectToTuple(*xa0, Box::new(xa1.deep_clone())),
            Param::AutoCollectToObject(xa0, xa1) => Param::AutoCollectToObject(*xa0, Box::new(xa1.deep_clone())),
        }
    }
}

impl Module {
    /// Whether `other` is the same tree as `self`.
    pub fn same_as(&self, other: &Module) -> (r: bool)
        ensures
            r == module_same(*self, *other),
        decreases *self,
    {
        ((&self.name).same((&other.name))) && (clauses_same_as((&self.clauses), (&other.clauses))) && (*(&self.scope_id) == *(&other.scope_id))
    }

    /// A copy of the whole tree.
    pub fn deep_clone(&self) -> (r: Module)
        ensures
            module_same(r, *self),
        decreases *self,
    {
        Module { name: *(&self.name), clauses: clauses_clone((&self.clauses)), scope_id: *(&self.scope_id) }
    }
}

impl Struct {
    /// Whether `other` is the same tree as `self`.
    pub fn same_as(&self, other: &Struct) -> (r: bool)
        ensures
            r == struct_same(*self, *other),
        decreases *self,
    {
        ((&self.name).same((&other.name))) && (clauses_same_as((&self.clauses), (&other.clauses))) && (defs_same_as((&self.fields), (&other.fields))) && (*(&self.scope_id) == *(&other.scope_id))
    }

    /// A copy of the whole tree.
    pub fn deep_clone(&self) -> (r: Struct)
        ensures
            struct_same(r, *self),
        decreases *self,
    {
        Struct { name: *(&self.name), clauses: clauses_clone((&self.clauses)), fields: defs_clone((&self.fields)), scope_id: *(&self.scope_id) }
    }
}

impl Enum {
    /// Whether `other` is the same tree as `self`.
    pub fn same_as(&self, other: &Enum) -> (r: bool)
        ensures
            r == enum_same(*self, *other),
        decreases *self,
    {
        ((&self.name).same((&other.name))) && (clauses_same_as((&self.clauses), (&other.clauses))) && (defs_same_as((&self.variants), (&other.variants))) && (defs_same_as((&self.items), (&other.items)))
    }

    /// A copy of the whole tree.
    pub fn deep_clone(&self) -> (r: Enum)
        ensures
            enum_same(r, *self),
        decreases *self,
    {
        Enum { name: *(&self.name), clauses: clauses_clone((&self.clauses)), variants: defs_clone((&self.variants)), items: defs_clone((&self.items)) }
    }
}

impl Property {
    /// Whether `other` is the same tree as `self`.
    pub fn same_as(&self, other: &Property) -> (r: bool)
        ensures
            r == prop_same(*self, *other),
        decreases *self,
    {
        ((&self.name).same((&other.name))) && ((&self.value).same_as((&other.value)))
    }

    /// A copy of the whole tree.
    pub fn deep_clone(&self) -> (r: Property)
        ensures
            prop_same(r, *self),
        decreases *self,
    {
        Property { name: *(&self.name), value: Box::new((&self.value).deep_clone()) }
    }
}

impl Clause {
    /// Whether `other` is the same tree as `self`.
    pub fn same_as(&self, other: &Clause) -> (r: bool)
        ensures
            r == clause_same(*self, *other),
    {
        match self {
            Clause::TypeDecl { symbol: xsymbol, owner: xowner, self_id: xself_id } => match other { Clause::TypeDecl { symbol: ysymbol, owner: yowner, self_id: yself_id } => { (xsymbol.same(ysymbol)) && (*xowner == *yowner) && (*xself_id == *yself_id) }, _ => false },
            Clause::TypeTraitBounded { symbol: xsymbol, trait_bound: xtrait_bound, owner: xowner, self_id: xself_id } => match other { Clause::TypeTraitBounded { symbol: ysymbol, trait_bound: ytrait_bound, owner: yowner, self_id: yself_id } => { (xsymbol.same(ysymbol)) && (*xtrait_bound == *ytrait_bound) && (*xowner == *yowner) && (*xself_id == *yself_id) }, _ => false },
            Clause::Decl { symbol: xsymbol, ty: xty, default: xdefault, owner: xowner, self_id: xself_id } => match other { Clause::Decl { symbol: ysymbol, ty: yty, default: ydefault, owner: yowner, self_id: yself_id } => { (xsymbol.same(ysymbol)) && (*xty == *yty) && (match (xdefault, ydefault) { (Some(x), Some(y)) => { *x == *y }, (None, None) => true, _ => false }) && (*xowner == *yowner) && (*xself_id == *yself_id) }, _ => false },
            Clause::Requires => match other { Clause::Requires => true, _ => false },
            Clause::Ensures => match other { Clause::Ensures => true, _ => false },
            Clause::Decreases => match other { Clause::Decreases => true, _ => false },
            Clause::Outcomes => match other { Clause::Outcomes => true, _ => false },
        }
    }

    /// A copy of the whole tree.
    pub fn deep_clone(&self) -> (r: Clause)
        ensures
            clause_same(r, *self),
    {
        match self {
            Clause::TypeDecl { symbol: xsymbol, owner: xowner, self_id: xself_id } => Clause::TypeDecl { symbol: *xsymbol, owner: *xowner, self_id: *xself_id },
            Clause::TypeTraitBounded { symbol: xsymbol, trait_bound: xtrait_bound, owner: xowner, self_id: xself_id } => Clause::TypeTraitBounded { symbol: *xsymbol, trait_bound: *xtrait_bound, owner: *xowner, self_id: *xself_id },
            Clause::Decl { symbol: xsymbol, ty: xty, default: xdefault, owner: xowner, self_id: xself_id } => Clause::Decl { symbol: *xsymbol, ty: *xty, default: *xdefault, owner: *xowner, self_id: *xself_id },
            Clause::Requires => Clause::Requires,
            Clause::Ensures => Clause::Ensures,
            Clause::Decreases => Clause::Decreases,
            Clause::Outcomes => Clause::Outcomes,
        }
    }
}

/// Every `Expr` value is the same as itself.
pub proof fn lemma_expr_same_reflexive(a: Expr)
    ensures
        expr_same(a, a),
    decreases a,
{
    match a {
        Expr::List(aa0) => { lemma_exprs_same_reflexive(aa0@); },
        Expr::Tuple(aa0) => { lemma_exprs_same_reflexive(aa0@); },
        Expr::Object(aa0, aa1) => { lemma_exprs_same_reflexive(aa0@); lemma_props_same_reflexive(aa1@); },
        Expr::Range { from: afrom, to: ato, inclusive: ainclusive } => { lemma_expr_same_reflexive(*afrom); lemma_expr_same_reflexive(*ato); },
        Expr::Pattern(aa0) => { lemma_pattern_same_reflexive(*aa0); },
        Expr::FnApply { callee: acallee, args: aargs, optional_args: aoptional_args } => { lemma_expr_same_reflexive(*acallee); lemma_exprs_same_reflexive(aargs@); lemma_props_same_reflexive(aoptional_args@); },
        Expr::NormalFormFnApply { callee: acallee, args: aargs, optional_args: aoptional_args } => { lemma_expr_same_reflexive(*acallee); lemma_exprs_same_reflexive(aargs@); lemma_props_same_reflexive(aoptional_args@); },
        Expr::FnObjectApply { callee: acallee, elements: aelements, properties: aproperties } => { lemma_expr_same_reflexive(*acallee); lemma_exprs_same_reflexive(aelements@); lemma_props_same_reflexive(aproperties@); },
        Expr::UnaryApply { expr: aexpr, op: aop } => { lemma_expr_same_reflexive(*aexpr); },
        Expr::BinaryApply { left: aleft, right: aright, op: aop } => { lemma_expr_same_reflexive(*aleft); lemma_expr_same_reflexive(*aright); },
        Expr::ObjectApply { callee: acallee, args: aargs, optional_args: aoptional_args, object: aobject } => { lemma_expr_same_reflexive(*acallee); lemma_exprs_same_reflexive(aargs@); lemma_props_same_reflexive(aoptional_args@); lemma_expr_same_reflexive(*aobject); },
        Expr::Index(aa0, aa1) => { lemma_expr_same_reflexive(*aa0); lemma_expr_same_reflexive(*aa1); },
        Expr::Matches(aa0, aa1) => { lemma_expr_same_reflexive(*aa0); lemma_pattern_same_reflexive(*aa1); },
        Expr::If { condition: acondition, then_branch: athen_branch, else_branch: aelse_branch } => { lemma_expr_same_reflexive(*acondition); lemma_expr_same_reflexive(*athen_branch); match (aelse_branch) { (Some(o0)) => { lemma_expr_same_reflexive(*o0); }, _ => {} } },
        Expr::When { conditions: aconditions, branches: abranches } => { lemma_exprs_same_reflexive(aconditions@); lemma_exprs_same_reflexive(abranches@); },
        Expr::Match { subject: asubject, arms: aarms } => { lemma_expr_same_reflexive(*asubject); lemma_patterns_same_reflexive(aarms@); },
        Expr::While { condition: acondition, body: abody } => { lemma_expr_same_reflexive(*acondition); lemma_expr_same_reflexive(*abody); },
        Expr::For { pattern: apattern, iterable: aiterable, body: abody } => { lemma_pattern_same_reflexive(*apattern); lemma_expr_same_reflexive(*aiterable); lemma_expr_same_reflexive(*abody); },
        Expr::Let { pattern: apattern, ty: aty, init: ainit } => { lemma_pattern_same_reflexive(*apattern); lemma_expr_same_reflexive(*aty); lemma_expr_same_reflexive(*ainit); },
        Expr::Const { pattern: apattern, ty: aty, init: ainit } => { lemma_pattern_same_reflexive(*apattern); lemma_expr_same_reflexive(*aty); lemma_expr_same_reflexive(*ainit); },
        Expr::Assign { location: alocation, value: avalue } => { lemma_expr_same_reflexive(*alocation); lemma_expr_same_reflexive(*avalue); },
        Expr::Block(aa0, aa1) => { lemma_exprs_same_reflexive(aa1@); },
        Expr::ExprStatement(aa0) => { lemma_expr_same_reflexive(*aa0); },
        Expr::Return(aa0) => { match (aa0) { (Some(o0)) => { lemma_expr_same_reflexive(*o0); }, _ => {} } },
        Expr::Resume(aa0) => { match (aa0) { (Some(o0)) => { lemma_expr_same_reflexive(*o0); }, _ => {} } },
        Expr::TyOptional(aa0) => { lemma_expr_same_reflexive(*aa0); },
        Expr::TyTuple(aa0) => { lemma_exprs_same_reflexive(aa0@); },
        Expr::TyPointer(aa0) => { lemma_expr_same_reflexive(*aa0); },
        Expr::TyArray(aa0, aa1) => { lemma_expr_same_reflexive(*aa0); lemma_expr_same_reflexive(*aa1); },
        Expr::TyScheme(aa0, aa1) => { lemma_params_same_reflexive(aa0@); lemma_expr_same_reflexive(*aa1); },
        Expr::TyNamed(aa0, aa1) => { lemma_def_same_reflexive(*aa1); },
        Expr::TyAlias(aa0, aa1) => { lemma_expr_same_reflexive(*aa1); },
        Expr::Select(aa0, aa1) => { lemma_expr_same_reflexive(*aa0); },
        _ => {},
    }
}

/// Every `Pattern` value is the same as itself.
pub proof fn lemma_pattern_same_reflexive(a: Pattern)
    ensures
        pattern_same(a, a),
    decreases a,
{
    match a {
        Pattern::Literal(aa0) => { lemma_expr_same_reflexive(*aa0); },
        Pattern::OptionSome(aa0) => { lemma_pattern_same_reflexive(*aa0); },
        Pattern::ResultOk(aa0) => { lemma_pattern_same_reflexive(*aa0); },
        Pattern::ResultErr(aa0) => { lemma_pattern_same_reflexive(*aa0); },
        Pattern::Range { from: afrom, to: ato, inclusive: ainclusive } => { lemma_pattern_same_reflexive(*afrom); lemma_pattern_same_reflexive(*ato); },
        Pattern::TupleDestructure(aa0) => { lemma_patterns_same_reflexive(aa0@); },
        Pattern::CallDestructure(aa0, aa1) => { lemma_expr_same_reflexive(*aa0); lemma_patterns_same_reflexive(aa1@); },
        Pattern::ListDestructure(aa0) => { lemma_patterns_same_reflexive(aa0@); },
        Pattern::ObjectDestructure(aa0) => { lemma_patterns_same_reflexive(aa0@); },
        Pattern::ObjectCallDestructure(aa0, aa1) => { lemma_expr_same_reflexive(*aa0); lemma_patterns_same_reflexive(aa1@); },
        Pattern::Property(aa0, aa1) => { lemma_pattern_same_reflexive(*aa1); },
        _ => {},
    }
}

/// Every `Definition` value is the same as itself.
pub proof fn lemma_def_same_reflexive(a: Definition)
    ensures
        def_same(a, a),
    decreases a,
{
    match a {
        Definition::Module(aa0) => { lemma_module_same_reflexive(aa0); },
        Definition::Struct(aa0) => { lemma_struct_same_reflexive(aa0); },
        Definition::StructField(aa0, aa1, aa2) => { lemma_expr_same_reflexive(*aa1); match (aa2) { (Some(o0)) => { lemma_expr_same_reflexive(*o0); }, _ => {} } },
        Definition::Enum(aa0) => { lemma_enum_same_reflexive(aa0); },
        Definition::EnumVariantWithStruct(aa0, aa1) => { lemma_defs_same_reflexive(aa1@); },
        Definition::EnumVariantWithTuple(aa0, aa1) => { lemma_exprs_same_reflexive(aa1@); },
        Definition::EnumVariantWithPattern(aa0, aa1) => { lemma_pattern_same_reflexive(*aa1); },
        Definition::EnumVariantWithSubEnum(aa0, aa1) => { lemma_defs_same_reflexive(aa1@); },
        Definition::Function(aa0) => { lemma_function_same_reflexive(aa0); },
        Definition::FileScope { name: aname, items: aitems, scope_id: ascope_id } => { lemma_defs_same_reflexive(aitems@); },
        _ => {},
    }
}

/// Every `Function` value is the same as itself.
pub proof fn lemma_function_same_reflexive(a: Function)
    ensures
        function_same(a, a),
    decreases a,
{
    lemma_expr_same_reflexive(*a.return_type);
    lemma_expr_same_reflexive(*a.body);
}

/// Every `Param` value is the same as itself.
pub proof fn lemma_param_same_reflexive(a: Param)
    ensures
        param_same(a, a),
    decreases a,
{
    match a {
        Param::Typed(aa0, aa1, aa2) => { lemma_expr_same_reflexive(*aa1); match (aa2) { (Some(o0)) => { lemma_expr_same_reflexive(*o0); }, _ => {} } },
        Param::AutoCollectToTuple(aa0, aa1) => { lemma_expr_same_reflexive(*aa1); },
        Param::AutoCollectToObject(aa0, aa1) => { lemma_expr_same_reflexive(*aa1); },
        _ => {},
    }
}

/// Every `Module` value is the same as itself.
pub proof fn lemma_module_same_reflexive(a: Module)
    ensures
        module_same(a, a),
    decreases a,
{
    lemma_clauses_same_reflexive(a.clauses@);
}

/// Every `Struct` value is the same as itself.
pub proof fn lemma_struct_same_reflexive(a: Struct)
    ensures
        struct_same(a, a),
    decreases a,
{
    lemma_clauses_same_reflexive(a.clauses@);
    lemma_defs_same_reflexive(a.fields@);
}

/// Every `Enum` value is the same as itself.
pub proof fn lemma_enum_same_reflexive(a: Enum)
    ensures
        enum_same(a, a),
    decreases a,
{
    lemma_clauses_same_reflexive(a.clauses@);
    lemma_defs_same_reflexive(a.variants@);
    lemma_defs_same_reflexive(a.items@);
}

/// Every `Property` value is the same as itself.
pub proof fn lemma_prop_same_reflexive(a: Property)
    ensures
        prop_same(a, a),
    decreases a,
{
    lemma_expr_same_reflexive(*a.value);
}

/// Every `Clause` value is the same as itself.
pub proof fn lemma_clause_same_reflexive(a: Clause)
    ensures
        clause_same(a, a),
{
    match a {
        _ => {},
    }
}

pub proof fn lemma_exprs_same_reflexive(a: Seq<Expr>)
    ensures
        exprs_same(a, a),
    decreases a,
{
    if a.len() > 0 {
        lemma_exprs_same_reflexive(a.drop_last());
        lemma_expr_same_reflexive(a.last());
    }
}

pub proof fn lemma_patterns_same_reflexive(a: Seq<Pattern>)
    ensures
        patterns_same(a, a),
    decreases a,
{
    if a.len() > 0 {
        lemma_patterns_same_reflexive(a.drop_last());
        lemma_pattern_same_reflexive(a.last());
    }
}

pub proof fn lemma_defs_same_reflexive(a: Seq<Definition>)
    ensures
        defs_same(a, a),
    decreases a,
{
    if a.len() > 0 {
        lemma_defs_same_reflexive(a.drop_last());
        lemma_def_same_reflexive(a.last());
    }
}

pub proof fn lemma_params_same_reflexive(a: Seq<Param>)
    ensures
        params_same(a, a),
    decreases a,
{
    if a.len() > 0 {
        lemma_params_same_reflexive(a.drop_last());
        lemma_param_same_reflexive(a.last());
    }
}

pub proof fn lemma_clauses_same_reflexive(a: Seq<Clause>)
    ensures
        clauses_same(a, a),
    decreases a,
{
    if a.len() > 0 {
        lemma_clauses_same_reflexive(a.drop_last());
        lemma_clause_same_reflexive(a.last());
    }
}

pub proof fn lemma_props_same_reflexive(a: Seq<Property>)
    ensures
        props_same(a, a),
    decreases a,
{
    if a.len() > 0 {
        lemma_props_same_reflexive(a.drop_last());
        lemma_prop_same_reflexive(a.last());
    }
}

/// Sameness of `Expr` values is symmetric.
pub proof fn lemma_expr_same_symmetric(a: Expr, b: Expr)
    requires
        expr_same(a, b),
    ensures
        expr_same(b, a),
    decreases a,
{
    match a {
        Expr::List(aa0) => { match b { Expr::List(ba0) => { lemma_exprs_same_symmetric(aa0@, ba0@); }, _ => {} } },
        Expr::Tuple(aa0) => { match b { Expr::Tuple(ba0) => { lemma_exprs_same_symmetric(aa0@, ba0@); }, _ => {} } },
        Expr::Object(aa0, aa1) => { match b { Expr::Object(ba0, ba1) => { lemma_exprs_same_symmetric(aa0@, ba0@); lemma_props_same_symmetric(aa1@, ba1@); }, _ => {} } },
        Expr::Range { from: afrom, to: ato, inclusive: ainclusive } => { match b { Expr::Range { from: bfrom, to: bto, inclusive: binclusive } => { lemma_expr_same_symmetric(*afrom, *bfrom); lemma_expr_same_symmetric(*ato, *bto); }, _ => {} } },
        Expr::Pattern(aa0) => { match b { Expr::Pattern(ba0) => { lemma_pattern_same_symmetric(*aa0, *ba0); }, _ => {} } },
        Expr::FnApply { callee: acallee, args: aargs, optional_args: aoptional_args } => { match b { Expr::FnApply { callee: bcallee, args: bargs, optional_args: boptional_args } => { lemma_expr_same_symmetric(*acallee, *bcallee); lemma_exprs_same_symmetric(aargs@, bargs@); lemma_props_same_symmetric(aoptional_args@, boptional_args@); }, _ => {} } },
        Expr::NormalFormFnApply { callee: acallee, args: aargs, optional_args: aoptional_args } => { match b { Expr::NormalFormFnApply { callee: bcallee, args: bargs, optional_args: boptional_args } => { lemma_expr_same_symmetric(*acallee, *bcallee); lemma_exprs_same_symmetric(aargs@, bargs@); lemma_props_same_symmetric(aoptional_args@, boptional_args@); }, _ => {} } },
        Expr::FnObjectApply { callee: acallee, elements: aelements, properties: aproperties } => { match b { Expr::FnObjectApply { callee: bcallee, elements: belements, properties: bproperties } => { lemma_expr_same_symmetric(*acallee, *bcallee); lemma_exprs_same_symmetric(aelements@, belements@); lemma_props_same_symmetric(aproperties@, bproperties@); }, _ => {} } },
        Expr::UnaryApply { expr: aexpr, op: aop } => { match b { Expr::UnaryApply { expr: bexpr, op: bop } => { lemma_expr_same_symmetric(*aexpr, *bexpr); }, _ => {} } },
        Expr::BinaryApply { left: aleft, right: aright, op: aop } => { match b { Expr::BinaryApply { left: bleft, right: bright, op: bop } => { lemma_expr_same_symmetric(*aleft, *bleft); lemma_expr_same_symmetric(*aright, *bright); }, _ => {} } },
        Expr::ObjectApply { callee: acallee, args: aargs, optional_args: aoptional_args, object: aobject } => { match b { Expr::ObjectApply { callee: bcallee, args: bargs, optional_args: boptional_args, object: bobject } => { lemma_expr_same_symmetric(*acallee, *bcallee); lemma_exprs_same_symmetric(aargs@, bargs@); lemma_props_same_symmetric(aoptional_args@, boptional_args@); lemma_expr_same_symmetric(*aobject, *bobject); }, _ => {} } },
        Expr::Index(aa0, aa1) => { match b { Expr::Index(ba0, ba1) => { lemma_expr_same_symmetric(*aa0, *ba0); lemma_expr_same_symmetric(*aa1, *ba1); }, _ => {} } },
        Expr::Matches(aa0, aa1) => { match b { Expr::Matches(ba0, ba1) => { lemma_expr_same_symmetric(*aa0, *ba0); lemma_pattern_same_symmetric(*aa1, *ba1); }, _ => {} } },
        Expr::If { condition: acondition, then_branch: athen_branch, else_branch: aelse_branch } => { match b { Expr::If { condition: bcondition, then_branch: bthen_branch, else_branch: belse_branch } => { lemma_expr_same_symmetric(*acondition, *bcondition); lemma_expr_same_symmetric(*athen_branch, *bthen_branch); match (aelse_branch, belse_branch) { (Some(o0), Some(o1)) => { lemma_expr_same_symmetric(*o0, *o1); }, _ => {} } }, _ => {} } },
        Expr::When { conditions: aconditions, branches: abranches } => { match b { Expr::When { conditions: bconditions, branches: bbranches } => { lemma_exprs_same_symmetric(aconditions@, bconditions@); lemma_exprs_same_symmetric(abranches@, bbranches@); }, _ => {} } },
        Expr::Match { subject: asubject, arms: aarms } => { match b { Expr::Match { subject: bsubject, arms: barms } => { lemma_expr_same_symmetric(*asubject, *bsubject); lemma_patterns_same_symmetric(aarms@, barms@); }, _ => {} } },
        Expr::While { condition: acondition, body: abody } => { match b { Expr::While { condition: bcondition, body: bbody } => { lemma_expr_same_symmetric(*acondition, *bcondition); lemma_expr_same_symmetric(*abody, *bbody); }, _ => {} } },
        Expr::For { pattern: apattern, iterable: aiterable, body: abody } => { match b { Expr::For { pattern: bpattern, iterable: biterable, body: bbody } => { lemma_pattern_same_symmetric(*apattern, *bpattern); lemma_expr_same_symmetric(*aiterable, *biterable); lemma_expr_same_symmetric(*abody, *bbody); }, _ => {} } },
        Expr::Let { pattern: apattern, ty: aty, init: ainit } => { match b { Expr::Let { pattern: bpattern, ty: bty, init: binit } => { lemma_pattern_same_symmetric(*apattern, *bpattern); lemma_expr_same_symmetric(*aty, *bty); lemma_expr_same_symmetric(*ainit, *binit); }, _ => {} } },
        Expr::Const { pattern: apattern, ty: aty, init: ainit } => { match b { Expr::Const { pattern: bpattern, ty: bty, init: binit } => { lemma_pattern_same_symmetric(*apattern, *bpattern); lemma_expr_same_symmetric(*aty, *bty); lemma_expr_same_symmetric(*ainit, *binit); }, _ => {} } },
        Expr::Assign { location: alocation, value: avalue } => { match b { Expr::Assign { location: blocation, value: bvalue } => { lemma_expr_same_symmetric(*alocation, *blocation); lemma_expr_same_symmetric(*avalue, *bvalue); }, _ => {} } },
        Expr::Block(aa0, aa1) => { match b { Expr::Block(ba0, ba1) => { lemma_exprs_same_symmetric(aa1@, ba1@); }, _ => {} } },
        Expr::ExprStatement(aa0) => { match b { Expr::ExprStatement(ba0) => { lemma_expr_same_symmetric(*aa0, *ba0); }, _ => {} } },
        Expr::Return(aa0) => { match b { Expr::Return(ba0) => { match (aa0, ba0) { (Some(o0), Some(o1)) => { lemma_expr_same_symmetric(*o0, *o1); }, _ => {} } }, _ => {} } },
        Expr::Resume(aa0) => { match b { Expr::Resume(ba0) => { match (aa0, ba0) { (Some(o0), Some(o1)) => { lemma_expr_same_symmetric(*o0, *o1); }, _ => {} } }, _ => {} } },
        Expr::TyOptional(aa0) => { match b { Expr::TyOptional(ba0) => { lemma_expr_same_symmetric(*aa0, *ba0); }, _ => {} } },
        Expr::TyTuple(aa0) => { match b { Expr::TyTuple(ba0) => { lemma_exprs_same_symmetric(aa0@, ba0@); }, _ => {} } },
        Expr::TyPointer(aa0) => { match b { Expr::TyPointer(ba0) => { lemma_expr_same_symmetric(*aa0, *ba0); }, _ => {} } },
        Expr::TyArray(aa0, aa1) => { match b { Expr::TyArray(ba0, ba1) => { lemma_expr_same_symmetric(*aa0, *ba0); lemma_expr_same_symmetric(*aa1, *ba1); }, _ => {} } },
        Expr::TyScheme(aa0, aa1) => { match b { Expr::TyScheme(ba0, ba1) => { lemma_params_same_symmetric(aa0@, ba0@); lemma_expr_same_symmetric(*aa1, *ba1); }, _ => {} } },
        Expr::TyNamed(aa0, aa1) => { match b { Expr::TyNamed(ba0, ba1) => { lemma_def_same_symmetric(*aa1, *ba1); }, _ => {} } },
        Expr::TyAlias(aa0, aa1) => { match b { Expr::TyAlias(ba0, ba1) => { lemma_expr_same_symmetric(*aa1, *ba1); }, _ => {} } },
        Expr::Select(aa0, aa1) => { match b { Expr::Select(ba0, ba1) => { lemma_expr_same_symmetric(*aa0, *ba0); }, _ => {} } },
        _ => {},
    }
}

/// Sameness of `Pattern` values is symmetric.
pub proof fn lemma_pattern_same_symmetric(a: Pattern, b: Pattern)
    requires
        pattern_same(a, b),
    ensures
        pattern_same(b, a),
    decreases a,
{
    match a {
        Pattern::Literal(aa0) => { match b { Pattern::Literal(ba0) => { lemma_expr_same_symmetric(*aa0, *ba0); }, _ => {} } },
        Pattern::OptionSome(aa0) => { match b { Pattern::OptionSome(ba0) => { lemma_pattern_same_symmetric(*aa0, *ba0); }, _ => {} } },
        Pattern::ResultOk(aa0) => { match b { Pattern::ResultOk(ba0) => { lemma_pattern_same_symmetric(*aa0, *ba0); }, _ => {} } },
        Pattern::ResultErr(aa0) => { match b { Pattern::ResultErr(ba0) => { lemma_pattern_same_symmetric(*aa0, *ba0); }, _ => {} } },
        Pattern::Range { from: afrom, to: ato, inclusive: ainclusive } => { match b { Pattern::Range { from: bfrom, to: bto, inclusive: binclusive } => { lemma_pattern_same_symmetric(*afrom, *bfrom); lemma_pattern_same_symmetric(*ato, *bto); }, _ => {} } },
        Pattern::TupleDestructure(aa0) => { match b { Pattern::TupleDestructure(ba0) => { lemma_patterns_same_symmetric(aa0@, ba0@); }, _ => {} } },
        Pattern::CallDestructure(aa0, aa1) => { match b { Pattern::CallDestructure(ba0, ba1) => { lemma_expr_same_symmetric(*aa0, *ba0); lemma_patterns_same_symmetric(aa1@, ba1@); }, _ => {} } },
        Pattern::ListDestructure(aa0) => { match b { Pattern::ListDestructure(ba0) => { lemma_patterns_same_symmetric(aa0@, ba0@); }, _ => {} } },
        Pattern::ObjectDestructure(aa0) => { match b { Pattern::ObjectDestructure(ba0) => { lemma_patterns_same_symmetric(aa0@, ba0@); }, _ => {} } },
        Pattern::ObjectCallDestructure(aa0, aa1) => { match b { Pattern::ObjectCallDestructure(ba0, ba1) => { lemma_expr_same_symmetric(*aa0, *ba0); lemma_patterns_same_symmetric(aa1@, ba1@); }, _ => {} } },
        Pattern::Property(aa0, aa1) => { match b { Pattern::Property(ba0, ba1) => { lemma_pattern_same_symmetric(*aa1, *ba1); }, _ => {} } },
        _ => {},
    }
}

/// Sameness of `Definition` values is symmetric.
pub proof fn lemma_def_same_symmetric(a: Definition, b: Definition)
    requires
        def_same(a, b),
    ensures
        def_same(b, a),
    decreases a,
{
    match a {
        Definition::Module(aa0) => { match b { Definition::Module(ba0) => { lemma_module_same_symmetric(aa0, ba0); }, _ => {} } },
        Definition::Struct(aa0) => { match b { Definition::Struct(ba0) => { lemma_struct_same_symmetric(aa0, ba0); }, _ => {} } },
        Definition::StructField(aa0, aa1, aa2) => { match b { Definition::StructField(ba0, ba1, ba2) => { lemma_expr_same_symmetric(*aa1, *ba1); match (aa2, ba2) { (Some(o0), Some(o1)) => { lemma_expr_same_symmetric(*o0, *o1); }, _ => {} } }, _ => {} } },
        Definition::Enum(aa0) => { match b { Definition::Enum(ba0) => { lemma_enum_same_symmetric(aa0, ba0); }, _ => {} } },
        Definition::EnumVariantWithStruct(aa0, aa1) => { match b { Definition::EnumVariantWithStruct(ba0, ba1) => { lemma_defs_same_symmetric(aa1@, ba1@); }, _ => {} } },
        Definition::EnumVariantWithTuple(aa0, aa1) => { match b { Definition::EnumVariantWithTuple(ba0, ba1) => { lemma_exprs_same_symmetric(aa1@, ba1@); }, _ => {} } },
        Definition::EnumVariantWithPattern(aa0, aa1) => { match b { Definition::EnumVariantWithPattern(ba0, ba1) => { lemma_pattern_same_symmetric(*aa1, *ba1); }, _ => {} } },
        Definition::EnumVariantWithSubEnum(aa0, aa1) => { match b { Definition::EnumVariantWithSubEnum(ba0, ba1) => { lemma_defs_same_symmetric(aa1@, ba1@); }, _ => {} } },
        Definition::Function(aa0) => { match b { Definition::Function(ba0) => { lemma_function_same_symmetric(aa0, ba0); }, _ => {} } },
        Definition::FileScope { name: aname, items: aitems, scope_id: ascope_id } => { match b { Definition::FileScope { name: bname, items: bitems, scope_id: bscope_id } => { lemma_defs_same_symmetric(aitems@, bitems@); }, _ => {} } },
        _ => {},
    }
}

/// Sameness of `Function` values is symmetric.
pub proof fn lemma_function_same_symmetric(a: Function, b: Function)
    requires
        function_same(a, b),
    ensures
        function_same(b, a),
    decreases a,
{
    lemma_expr_same_symmetric(*a.return_type, *b.return_type);
    lemma_expr_same_symmetric(*a.body, *b.body);
}

/// Sameness of `Param` values is symmetric.
pub proof fn lemma_param_same_symmetric(a: Param, b: Param)
    requires
        param_same(a, b),
    ensures
        param_same(b, a),
    decreases a,
{
    match a {
        Param::Typed(aa0, aa1, aa2) => { match b { Param::Typed(ba0, ba1, ba2) => { lemma_expr_same_symmetric(*aa1, *ba1); match (aa2, ba2) { (Some(o0), Some(o1)) => { lemma_expr_same_symmetric(*o0, *o1); }, _ => {} } }, _ => {} } },
        Param::AutoCollectToTuple(aa0, aa1) => { match b { Param::AutoCollectToTuple(ba0, ba1) => { lemma_expr_same_symmetric(*aa1, *ba1); }, _ => {} } },
        Param::AutoCollectToObject(aa0, aa1) => { match b { Param::AutoCollectToObject(ba0, ba1) => { lemma_expr_same_symmetric(*aa1, *ba1); }, _ => {} } },
        _ => {},
    }
}

/// Sameness of `Module` values is symmetric.
pub proof fn lemma_module_same_symmetric(a: Module, b: Module)
    requires
        module_same(a, b),
    ensures
        module_same(b, a),
    decreases a,
{
    lemma_clauses_same_symmetric(a.clauses@, b.clauses@);
}

/// Sameness of `Struct` values is symmetric.
pub proof fn lemma_struct_same_symmetric(a: Struct, b: Struct)
    requires
        struct_same(a, b),
    ensures
        struct_same(b, a),
    decreases a,
{
    lemma_clauses_same_symmetric(a.clauses@, b.clauses@);
    lemma_defs_same_symmetric(a.fields@, b.fields@);
}

/// Sameness of `Enum` values is symmetric.
pub proof fn lemma_enum_same_symmetric(a: Enum, b: Enum)
    requires
        enum_same(a, b),
    ensures
        enum_same(b, a),
    decreases a,
{
    lemma_clauses_same_symmetric(a.clauses@, b.clauses@);
    lemma_defs_same_symmetric(a.variants@, b.variants@);
    lemma_defs_same_symmetric(a.items@, b.items@);
}

/// Sameness of `Property` values is symmetric.
pub proof fn lemma_prop_same_symmetric(a: Property, b: Property)
    requires
        prop_same(a, b),
    ensures
        prop_same(b, a),
    decreases a,
{
    lemma_expr_same_symmetric(*a.value, *b.value);
}

/// Sameness of `Clause` values is symmetric.
pub proof fn lemma_clause_same_symmetric(a: Clause, b: Clause)
    requires
        clause_same(a, b),
    ensures
        clause_same(b, a),
{
    match a {
        _ => {},
    }
}

pub proof fn lemma_exprs_same_symmetric(a: Seq<Expr>, b: Seq<Expr>)
    requires
        exprs_same(a, b),
    ensures
        exprs_same(b, a),
    decreases a,
{
    if a.len() > 0 {
        lemma_exprs_same_symmetric(a.drop_last(), b.drop_last());
        lemma_expr_same_symmetric(a.last(), b.last());
    }
}

pub proof fn lemma_patterns_same_symmetric(a: Seq<Pattern>, b: Seq<Pattern>)
    requires
        patterns_same(a, b),
    ensures
        patterns_same(b, a),
    decreases a,
{
    if a.len() > 0 {
        lemma_patterns_same_symmetric(a.drop_last(), b.drop_last());
        lemma_pattern_same_symmetric(a.last(), b.last());
    }
}

pub proof fn lemma_defs_same_symmetric(a: Seq<Definition>, b: Seq<Definition>)
    requires
        defs_same(a, b),
    ensures
        defs_same(b, a),
    decreases a,
{
    if a.len() > 0 {
        lemma_defs_same_symmetric(a.drop_last(), b.drop_last());
        lemma_def_same_symmetric(a.last(), b.last());
    }
}

pub proof fn lemma_params_same_symmetric(a: Seq<Param>, b: Seq<Param>)
    requires
        params_same(a, b),
    ensures
        params_same(b, a),
    decreases a,
{
    if a.len() > 0 {
        lemma_params_same_symmetric(a.drop_last(), b.drop_last());
        lemma_param_same_symmetric(a.last(), b.last());
    }
}

pub proof fn lemma_clauses_same_symmetric(a: Seq<Clause>, b: Seq<Clause>)
    requires
        clauses_same(a, b),
    ensures
        clauses_same(b, a),
    decreases a,
{
    if a.len() > 0 {
        lemma_clauses_same_symmetric(a.drop_last(), b.drop_last());
        lemma_clause_same_symmetric(a.last(), b.last());
    }
}

pub proof fn lemma_props_same_symmetric(a: Seq<Property>, b: Seq<Property>)
    requires
        props_same(a, b),
    ensures
        props_same(b, a),
    decreases a,
{
    if a.len() > 0 {
        lemma_props_same_symmetric(a.drop_last(), b.drop_last());
        lemma_prop_same_symmetric(a.last(), b.last());
    }
}

/// Sameness of `Expr` values is transitive.
pub proof fn lemma_expr_same_transitive(a: Expr, b: Expr, c: Expr)
    requires
        expr_same(a, b),
        expr_same(b, c),
    ensures
        expr_same(a, c),
    decreases a,
{
    match a {
        Expr::List(aa0) => { match b { Expr::List(ba0) => { match c { Expr::List(ca0) => { lemma_exprs_same_transitive(aa0@, ba0@, ca0@); }, _ => {} } }, _ => {} } },
        Expr::Tuple(aa0) => { match b { Expr::Tuple(ba0) => { match c { Expr::Tuple(ca0) => { lemma_exprs_same_transitive(aa0@, ba0@, ca0@); }, _ => {} } }, _ => {} } },
        Expr::Object(aa0, aa1) => { match b { Expr::Object(ba0, ba1) => { match c { Expr::Object(ca0, ca1) => { lemma_exprs_same_transitive(aa0@, ba0@, ca0@); lemma_props_same_transitive(aa1@, ba1@, ca1@); }, _ => {} } }, _ => {} } },
        Expr::Range { from: afrom, to: ato, inclusive: ainclusive } => { match b { Expr::Range { from: bfrom, to: bto, inclusive: binclusive } => { match c { Expr::Range { from: cfrom, to: cto, inclusive: cinclusive } => { lemma_expr_same_transitive(*afrom, *bfrom, *cfrom); lemma_expr_same_transitive(*ato, *bto, *cto); }, _ => {} } }, _ => {} } },
        Expr::Pattern(aa0) => { match b { Expr::Pattern(ba0) => { match c { Expr::Pattern(ca0) => { lemma_pattern_same_transitive(*aa0, *ba0, *ca0); }, _ => {} } }, _ => {} } },
        Expr::FnApply { callee: acallee, args: aargs, optional_args: aoptional_args } => { match b { Expr::FnApply { callee: bcallee, args: bargs, optional_args: boptional_args } => { match c { Expr::FnApply { callee: ccallee, args: cargs, optional_args: coptional_args } => { lemma_expr_same_transitive(*acallee, *bcallee, *ccallee); lemma_exprs_same_transitive(aargs@, bargs@, cargs@); lemma_props_same_transitive(aoptional_args@, boptional_args@, coptional_args@); }, _ => {} } }, _ => {} } },
        Expr::NormalFormFnApply { callee: acallee, args: aargs, optional_args: aoptional_args } => { match b { Expr::NormalFormFnApply { callee: bcallee, args: bargs, optional_args: boptional_args } => { match c { Expr::NormalFormFnApply { callee: ccallee, args: cargs, optional_args: coptional_args } => { lemma_expr_same_transitive(*acallee, *bcallee, *ccallee); lemma_exprs_same_transitive(aargs@, bargs@, cargs@); lemma_props_same_transitive(aoptional_args@, boptional_args@, coptional_args@); }, _ => {} } }, _ => {} } },
        Expr::FnObjectApply { callee: acallee, elements: aelements, properties: aproperties } => { match b { Expr::FnObjectApply { callee: bcallee, elements: belements, properties: bproperties } => { match c { Expr::FnObjectApply { callee: ccallee, elements: celements, properties: cproperties } => { lemma_expr_same_transitive(*acallee, *bcallee, *ccallee); lemma_exprs_same_transitive(aelements@, belements@, celements@); lemma_props_same_transitive(aproperties@, bproperties@, cproperties@); }, _ => {} } }, _ => {} } },
        Expr::UnaryApply { expr: aexpr, op: aop } => { match b { Expr::UnaryApply { expr: bexpr, op: bop } => { match c { Expr::UnaryApply { expr: cexpr, op: cop } => { lemma_expr_same_transitive(*aexpr, *bexpr, *cexpr); }, _ => {} } }, _ => {} } },
        Expr::BinaryApply { left: aleft, right: aright, op: aop } => { match b { Expr::BinaryApply { left: bleft, right: bright, op: bop } => { match c { Expr::BinaryApply { left: cleft, right: cright, op: cop } => { lemma_expr_same_transitive(*aleft, *bleft, *cleft); lemma_expr_same_transitive(*aright, *bright, *cright); }, _ => {} } }, _ => {} } },
        Expr::ObjectApply { callee: acallee, args: aargs, optional_args: aoptional_args, object: aobject } => { match b { Expr::ObjectApply { callee: bcallee, args: bargs, optional_args: boptional_args, object: bobject } => { match c { Expr::ObjectApply { callee: ccallee, args: cargs, optional_args: coptional_args, object: cobject } => { lemma_expr_same_transitive(*acallee, *bcallee, *ccallee); lemma_exprs_same_transitive(aargs@, bargs@, cargs@); lemma_props_same_transitive(aoptional_args@, boptional_args@, coptional_args@); lemma_expr_same_transitive(*aobject, *bobject, *cobject); }, _ => {} } }, _ => {} } },
        Expr::Index(aa0, aa1) => { match b { Expr::Index(ba0, ba1) => { match c { Expr::Index(ca0, ca1) => { lemma_expr_same_transitive(*aa0, *ba0, *ca0); lemma_expr_same_transitive(*aa1, *ba1, *ca1); }, _ => {} } }, _ => {} } },
        Expr::Matches(aa0, aa1) => { match b { Expr::Matches(ba0, ba1) => { match c { Expr::Matches(ca0, ca1) => { lemma_expr_same_transitive(*aa0, *ba0, *ca0); lemma_pattern_same_transitive(*aa1, *ba1, *ca1); }, _ => {} } }, _ => {} } },
        Expr::If { condition: acondition, then_branch: athen_branch, else_branch: aelse_branch } => { match b { Expr::If { condition: bcondition, then_branch: bthen_branch, else_branch: belse_branch } => { match c { Expr::If { condition: ccondition, then_branch: cthen_branch, else_branch: celse_branch } => { lemma_expr_same_transitive(*acondition, *bcondition, *ccondition); lemma_expr_same_transitive(*athen_branch, *bthen_branch, *cthen_branch); match (aelse_branch, belse_branch, celse_branch) { (Some(o0), Some(o1), Some(o2)) => { lemma_expr_same_transitive(*o0, *o1, *o2); }, _ => {} } }, _ => {} } }, _ => {} } },
        Expr::When { conditions: aconditions, branches: abranches } => { match b { Expr::When { conditions: bconditions, branches: bbranches } => { match c { Expr::When { conditions: cconditions, branches: cbranches } => { lemma_exprs_same_transitive(aconditions@, bconditions@, cconditions@); lemma_exprs_same_transitive(abranches@, bbranches@, cbranches@); }, _ => {} } }, _ => {} } },
        Expr::Match { subject: asubject, arms: aarms } => { match b { Expr::Match { subject: bsubject, arms: barms } => { match c { Expr::Match { subject: csubject, arms: carms } => { lemma_expr_same_transitive(*asubject, *bsubject, *csubject); lemma_patterns_same_transitive(aarms@, barms@, carms@); }, _ => {} } }, _ => {} } },
        Expr::While { condition: acondition, body: abody } => { match b { Expr::While { condition: bcondition, body: bbody } => { match c { Expr::While { condition: ccondition, body: cbody } => { lemma_expr_same_transitive(*acondition, *bcondition, *ccondition); lemma_expr_same_transitive(*abody, *bbody, *cbody); }, _ => {} } }, _ => {} } },
        Expr::For { pattern: apattern, iterable: aiterable, body: abody } => { match b { Expr::For { pattern: bpattern, iterable: biterable, body: bbody } => { match c { Expr::For { pattern: cpattern, iterable: citerable, body: cbody } => { lemma_pattern_same_transitive(*apattern, *bpattern, *cpattern); lemma_expr_same_transitive(*aiterable, *biterable, *citerable); lemma_expr_same_transitive(*abody, *bbody, *cbody); }, _ => {} } }, _ => {} } },
        Expr::Let { pattern: apattern, ty: aty, init: ainit } => { match b { Expr::Let { pattern: bpattern, ty: bty, init: binit } => { match c { Expr::Let { pattern: cpattern, ty: cty, init: cinit } => { lemma_pattern_same_transitive(*apattern, *bpattern, *cpattern); lemma_expr_same_transitive(*aty, *bty, *cty); lemma_expr_same_transitive(*ainit, *binit, *cinit); }, _ => {} } }, _ => {} } },
        Expr::Const { pattern: apattern, ty: aty, init: ainit } => { match b { Expr::Const { pattern: bpattern, ty: bty, init: binit } => { match c { Expr::Const { pattern: cpattern, ty: cty, init: cinit } => { lemma_pattern_same_transitive(*apattern, *bpattern, *cpattern); lemma_expr_same_transitive(*aty, *bty, *cty); lemma_expr_same_transitive(*ainit, *binit, *cinit); }, _ => {} } }, _ => {} } },
        Expr::Assign { location: alocation, value: avalue } => { match b { Expr::Assign { location: blocation, value: bvalue } => { match c { Expr::Assign { location: clocation, value: cvalue } => { lemma_expr_same_transitive(*alocation, *blocation, *clocation); lemma_expr_same_transitive(*avalue, *bvalue, *cvalue); }, _ => {} } }, _ => {} } },
        Expr::Block(aa0, aa1) => { match b { Expr::Block(ba0, ba1) => { match c { Expr::Block(ca0, ca1) => { lemma_exprs_same_transitive(aa1@, ba1@, ca1@); }, _ => {} } }, _ => {} } },
        Expr::ExprStatement(aa0) => { match b { Expr::ExprStatement(ba0) => { match c { Expr::ExprStatement(ca0) => { lemma_expr_same_transitive(*aa0, *ba0, *ca0); }, _ => {} } }, _ => {} } },
        Expr::Return(aa0) => { match b { Expr::Return(ba0) => { match c { Expr::Return(ca0) => { match (aa0, ba0, ca0) { (Some(o0), Some(o1), Some(o2)) => { lemma_expr_same_transitive(*o0, *o1, *o2); }, _ => {} } }, _ => {} } }, _ => {} } },
        Expr::Resume(aa0) => { match b { Expr::Resume(ba0) => { match c { Expr::Resume(ca0) => { match (aa0, ba0, ca0) { (Some(o0), Some(o1), Some(o2)) => { lemma_expr_same_transitive(*o0, *o1, *o2); }, _ => {} } }, _ => {} } }, _ => {} } },
        Expr::TyOptional(aa0) => { match b { Expr::TyOptional(ba0) => { match c { Expr::TyOptional(ca0) => { lemma_expr_same_transitive(*aa0, *ba0, *ca0); }, _ => {} } }, _ => {} } },
        Expr::TyTuple(aa0) => { match b { Expr::TyTuple(ba0) => { match c { Expr::TyTuple(ca0) => { lemma_exprs_same_transitive(aa0@, ba0@, ca0@); }, _ => {} } }, _ => {} } },
        Expr::TyPointer(aa0) => { match b { Expr::TyPointer(ba0) => { match c { Expr::TyPointer(ca0) => { lemma_expr_same_transitive(*aa0, *ba0, *ca0); }, _ => {} } }, _ => {} } },
        Expr::TyArray(aa0, aa1) => { match b { Expr::TyArray(ba0, ba1) => { match c { Expr::TyArray(ca0, ca1) => { lemma_expr_same_transitive(*aa0, *ba0, *ca0); lemma_expr_same_transitive(*aa1, *ba1, *ca1); }, _ => {} } }, _ => {} } },
        Expr::TyScheme(aa0, aa1) => { match b { Expr::TyScheme(ba0, ba1) => { match c { Expr::TyScheme(ca0, ca1) => { lemma_params_same_transitive(aa0@, ba0@, ca0@); lemma_expr_same_transitive(*aa1, *ba1, *ca1); }, _ => {} } }, _ => {} } },
        Expr::TyNamed(aa0, aa1) => { match b { Expr::TyNamed(ba0, ba1) => { match c { Expr::TyNamed(ca0, ca1) => { lemma_def_same_transitive(*aa1, *ba1, *ca1); }, _ => {} } }, _ => {} } },
        Expr::TyAlias(aa0, aa1) => { match b { Expr::TyAlias(ba0, ba1) => { match c { Expr::TyAlias(ca0, ca1) => { lemma_expr_same_transitive(*aa1, *ba1, *ca1); }, _ => {} } }, _ => {} } },
        Expr::Select(aa0, aa1) => { match b { Expr::Select(ba0, ba1) => { match c { Expr::Select(ca0, ca1) => { lemma_expr_same_transitive(*aa0, *ba0, *ca0); }, _ => {} } }, _ => {} } },
        _ => {},
    }
}

/// Sameness of `Pattern` values is transitive.
pub proof fn lemma_pattern_same_transitive(a: Pattern, b: Pattern, c: Pattern)
    requires
        pattern_same(a, b),
        pattern_same(b, c),
    ensures
        pattern_same(a, c),
    decreases a,
{
    match a {
        Pattern::Literal(aa0) => { match b { Pattern::Literal(ba0) => { match c { Pattern::Literal(ca0) => { lemma_expr_same_transitive(*aa0, *ba0, *ca0); }, _ => {} } }, _ => {} } },
        Pattern::OptionSome(aa0) => { match b { Pattern::OptionSome(ba0) => { match c { Pattern::OptionSome(ca0) => { lemma_pattern_same_transitive(*aa0, *ba0, *ca0); }, _ => {} } }, _ => {} } },
        Pattern::ResultOk(aa0) => { match b { Pattern::ResultOk(ba0) => { match c { Pattern::ResultOk(ca0) => { lemma_pattern_same_transitive(*aa0, *ba0, *ca0); }, _ => {} } }, _ => {} } },
        Pattern::ResultErr(aa0) => { match b { Pattern::ResultErr(ba0) => { match c { Pattern::ResultErr(ca0) => { lemma_pattern_same_transitive(*aa0, *ba0, *ca0); }, _ => {} } }, _ => {} } },
        Pattern::Range { from: afrom, to: ato, inclusive: ainclusive } => { match b { Pattern::Range { from: bfrom, to: bto, inclusive: binclusive } => { match c { Pattern::Range { from: cfrom, to: cto, inclusive: cinclusive } => { lemma_pattern_same_transitive(*afrom, *bfrom, *cfrom); lemma_pattern_same_transitive(*ato, *bto, *cto); }, _ => {} } }, _ => {} } },
        Pattern::TupleDestructure(aa0) => { match b { Pattern::TupleDestructure(ba0) => { match c { Pattern::TupleDestructure(ca0) => { lemma_patterns_same_transitive(aa0@, ba0@, ca0@); }, _ => {} } }, _ => {} } },
        Pattern::CallDestructure(aa0, aa1) => { match b { Pattern::CallDestructure(ba0, ba1) => { match c { Pattern::CallDestructure(ca0, ca1) => { lemma_expr_same_transitive(*aa0, *ba0, *ca0); lemma_patterns_same_transitive(aa1@, ba1@, ca1@); }, _ => {} } }, _ => {} } },
        Pattern::ListDestructure(aa0) => { match b { Pattern::ListDestructure(ba0) => { match c { Pattern::ListDestructure(ca0) => { lemma_patterns_same_transitive(aa0@, ba0@, ca0@); }, _ => {} } }, _ => {} } },
        Pattern::ObjectDestructure(aa0) => { match b { Pattern::ObjectDestructure(ba0) => { match c { Pattern::ObjectDestructure(ca0) => { lemma_patterns_same_transitive(aa0@, ba0@, ca0@); }, _ => {} } }, _ => {} } },
        Pattern::ObjectCallDestructure(aa0, aa1) => { match b { Pattern::ObjectCallDestructure(ba0, ba1) => { match c { Pattern::ObjectCallDestructure(ca0, ca1) => { lemma_expr_same_transitive(*aa0, *ba0, *ca0); lemma_patterns_same_transitive(aa1@, ba1@, ca1@); }, _ => {} } }, _ => {} } },
        Pattern::Property(aa0, aa1) => { match b { Pattern::Property(ba0, ba1) => { match c { Pattern::Property(ca0, ca1) => { lemma_pattern_same_transitive(*aa1, *ba1, *ca1); }, _ => {} } }, _ => {} } },
        _ => {},
    }
}

/// Sameness of `Definition` values is transitive.
pub proof fn lemma_def_same_transitive(a: Definition, b: Definition, c: Definition)
    requires
        def_same(a, b),
        def_same(b, c),
    ensures
        def_same(a, c),
    decreases a,
{
    match a {
        Definition::Module(aa0) => { match b { Definition::Module(ba0) => { match c { Definition::Module(ca0) => { lemma_module_same_transitive(aa0, ba0, ca0); }, _ => {} } }, _ => {} } },
        Definition::Struct(aa0) => { match b { Definition::Struct(ba0) => { match c { Definition::Struct(ca0) => { lemma_struct_same_transitive(aa0, ba0, ca0); }, _ => {} } }, _ => {} } },
        Definition::StructField(aa0, aa1, aa2) => { match b { Definition::StructField(ba0, ba1, ba2) => { match c { Definition::StructField(ca0, ca1, ca2) => { lemma_expr_same_transitive(*aa1, *ba1, *ca1); match (aa2, ba2, ca2) { (Some(o0), Some(o1), Some(o2)) => { lemma_expr_same_transitive(*o0, *o1, *o2); }, _ => {} } }, _ => {} } }, _ => {} } },
        Definition::Enum(aa0) => { match b { Definition::Enum(ba0) => { match c { Definition::Enum(ca0) => { lemma_enum_same_transitive(aa0, ba0, ca0); }, _ => {} } }, _ => {} } },
        Definition::EnumVariantWithStruct(aa0, aa1) => { match b { Definition::EnumVariantWithStruct(ba0, ba1) => { match c { Definition::EnumVariantWithStruct(ca0, ca1) => { lemma_defs_same_transitive(aa1@, ba1@, ca1@); }, _ => {} } }, _ => {} } },
        Definition::EnumVariantWithTuple(aa0, aa1) => { match b { Definition::EnumVariantWithTuple(ba0, ba1) => { match c { Definition::EnumVariantWithTuple(ca0, ca1) => { lemma_exprs_same_transitive(aa1@, ba1@, ca1@); }, _ => {} } }, _ => {} } },
        Definition::EnumVariantWithPattern(aa0, aa1) => { match b { Definition::EnumVariantWithPattern(ba0, ba1) => { match c { Definition::EnumVariantWithPattern(ca0, ca1) => { lemma_pattern_same_transitive(*aa1, *ba1, *ca1); }, _ => {} } }, _ => {} } },
        Definition::EnumVariantWithSubEnum(aa0, aa1) => { match b { Definition::EnumVariantWithSubEnum(ba0, ba1) => { match c { Definition::EnumVariantWithSubEnum(ca0, ca1) => { lemma_defs_same_transitive(aa1@, ba1@, ca1@); }, _ => {} } }, _ => {} } },
        Definition::Function(aa0) => { match b { Definition::Function(ba0) => { match c { Definition::Function(ca0) => { lemma_function_same_transitive(aa0, ba0, ca0); }, _ => {} } }, _ => {} } },
        Definition::FileScope { name: aname, items: aitems, scope_id: ascope_id } => { match b { Definition::FileScope { name: bname, items: bitems, scope_id: bscope_id } => { match c { Definition::FileScope { name: cname, items: citems, scope_id: cscope_id } => { lemma_defs_same_transitive(aitems@, bitems@, citems@); }, _ => {} } }, _ => {} } },
        _ => {},
    }
}

/// Sameness of `Function` values is transitive.
pub proof fn lemma_function_same_transitive(a: Function, b: Function, c: Function)
    requires
        function_same(a, b),
        function_same(b, c),
    ensures
        function_same(a, c),
    decreases a,
{
    lemma_expr_same_transitive(*a.return_type, *b.return_type, *c.return_type);
    lemma_expr_same_transitive(*a.body, *b.body, *c.body);
}

/// Sameness of `Param` values is transitive.
pub proof fn lemma_param_same_transitive(a: Param, b: Param, c: Param)
    requires
        param_same(a, b),
        param_same(b, c),
    ensures
        param_same(a, c),
    decreases a,
{
    match a {
        Param::Typed(aa0, aa1, aa2) => { match b { Param::Typed(ba0, ba1, ba2) => { match c { Param::Typed(ca0, ca1, ca2) => { lemma_expr_same_transitive(*aa1, *ba1, *ca1); match (aa2, ba2, ca2) { (Some(o0), Some(o1), Some(o2)) => { lemma_expr_same_transitive(*o0, *o1, *o2); }, _ => {} } }, _ => {} } }, _ => {} } },
        Param::AutoCollectToTuple(aa0, aa1) => { match b { Param::AutoCollectToTuple(ba0, ba1) => { match c { Param::AutoCollectToTuple(ca0, ca1) => { lemma_expr_same_transitive(*aa1, *ba1, *ca1); }, _ => {} } }, _ => {} } },
        Param::AutoCollectToObject(aa0, aa1) => { match b { Param::AutoCollectToObject(ba0, ba1) => { match c { Param::AutoCollectToObject(ca0, ca1) => { lemma_expr_same_transitive(*aa1, *ba1, *ca1); }, _ => {} } }, _ => {} } },
        _ => {},
    }
}

/// Sameness of `Module` values is transitive.
pub proof fn lemma_module_same_transitive(a: Module, b: Module, c: Module)
    requires
        module_same(a, b),
        module_same(b, c),
    ensures
        module_same(a, c),
    decreases a,
{
    lemma_clauses_same_transitive(a.clauses@, b.clauses@, c.clauses@);
}

/// Sameness of `Struct` values is transitive.
pub proof fn lemma_struct_same_transitive(a: Struct, b: Struct, c: Struct)
    requires
        struct_same(a, b),
        struct_same(b, c),
    ensures
        struct_same(a, c),
    decreases a,
{
    lemma_clauses_same_transitive(a.clauses@, b.clauses@, c.clauses@);
    lemma_defs_same_transitive(a.fields@, b.fields@, c.fields@);
}

/// Sameness of `Enum` values is transitive.
pub proof fn lemma_enum_same_transitive(a: Enum, b: Enum, c: Enum)
    requires
        enum_same(a, b),
        enum_same(b, c),
    ensures
        enum_same(a, c),
    decreases a,
{
    lemma_clauses_same_transitive(a.clauses@, b.clauses@, c.clauses@);
    lemma_defs_same_transitive(a.variants@, b.variants@, c.variants@);
    lemma_defs_same_transitive(a.items@, b.items@, c.items@);
}

/// Sameness of `Property` values is transitive.
pub proof fn lemma_prop_same_transitive(a: Property, b: Property, c: Property)
    requires
        prop_same(a, b),
        prop_same(b, c),
    ensures
        prop_same(a, c),
    decreases a,
{
    lemma_expr_same_transitive(*a.value, *b.value, *c.value);
}

/// Sameness of `Clause` values is transitive.
pub proof fn lemma_clause_same_transitive(a: Clause, b: Clause, c: Clause)
    requires
        clause_same(a, b),
        clause_same(b, c),
    ensures
        clause_same(a, c),
{
    match a {
        _ => {},
    }
}

pub proof fn lemma_exprs_same_transitive(a: Seq<Expr>, b: Seq<Expr>, c: Seq<Expr>)
    requires
        exprs_same(a, b),
        exprs_same(b, c),
    ensures
        exprs_same(a, c),
    decreases a,
{
    if a.len() > 0 {
        lemma_exprs_same_transitive(a.drop_last(), b.drop_last(), c.drop_last());
        lemma_expr_same_transitive(a.last(), b.last(), c.last());
    }
}

pub proof fn lemma_patterns_same_transitive(a: Seq<Pattern>, b: Seq<Pattern>, c: Seq<Pattern>)
    requires
        patterns_same(a, b),
        patterns_same(b, c),
    ensures
        patterns_same(a, c),
    decreases a,
{
    if a.len() > 0 {
        lemma_patterns_same_transitive(a.drop_last(), b.drop_last(), c.drop_last());
        lemma_pattern_same_transitive(a.last(), b.last(), c.last());
    }
}

pub proof fn lemma_defs_same_transitive(a: Seq<Definition>, b: Seq<Definition>, c: Seq<Definition>)
    requires
        defs_same(a, b),
        defs_same(b, c),
    ensures
        defs_same(a, c),
    decreases a,
{
    if a.len() > 0 {
        lemma_defs_same_transitive(a.drop_last(), b.drop_last(), c.drop_last());
        lemma_def_same_transitive(a.last(), b.last(), c.last());
    }
}

pub proof fn lemma_params_same_transitive(a: Seq<Param>, b: Seq<Param>, c: Seq<Param>)
    requires
        params_same(a, b),
        params_same(b, c),
    ensures
        params_same(a, c),
    decreases a,
{
    if a.len() > 0 {
        lemma_params_same_transitive(a.drop_last(), b.drop_last(), c.drop_last());
        lemma_param_same_transitive(a.last(), b.last(), c.last());
    }
}

pub proof fn lemma_clauses_same_transitive(a: Seq<Clause>, b: Seq<Clause>, c: Seq<Clause>)
    requires
        clauses_same(a, b),
        clauses_same(b, c),
    ensures
        clauses_same(a, c),
    decreases a,
{
    if a.len() > 0 {
        lemma_clauses_same_transitive(a.drop_last(), b.drop_last(), c.drop_last());
        lemma_clause_same_transitive(a.last(), b.last(), c.last());
    }
}

pub proof fn lemma_props_same_transitive(a: Seq<Property>, b: Seq<Property>, c: Seq<Property>)
    requires
        props_same(a, b),
        props_same(b, c),
    ensures
        props_same(a, c),
    decreases a,
{
    if a.len() > 0 {
        lemma_props_same_transitive(a.drop_last(), b.drop_last(), c.drop_last());
        lemma_prop_same_transitive(a.last(), b.last(), c.last());
    }
}

/// Two `Expr` values that are the same tree print the same: sameness
/// compares every field that the printed form shows.
pub proof fn lemma_expr_same_prints_alike(a: Expr, b: Expr)
    requires
        expr_same(a, b),
    ensures
        expr_text(a) == expr_text(b),
    decreases a,
{
    match a {
        Expr::List(aa0) => { match b { Expr::List(ba0) => { lemma_exprs_same_prints_alike(aa0@, ba0@); }, _ => {} } },
        Expr::Tuple(aa0) => { match b { Expr::Tuple(ba0) => { lemma_exprs_same_prints_alike(aa0@, ba0@); }, _ => {} } },
        Expr::Object(aa0, aa1) => { match b { Expr::Object(ba0, ba1) => { lemma_exprs_same_prints_alike(aa0@, ba0@); lemma_props_same_prints_alike(aa1@, ba1@); }, _ => {} } },
        Expr::Range { from: afrom, to: ato, inclusive: ainclusive } => { match b { Expr::Range { from: bfrom, to: bto, inclusive: binclusive } => { lemma_expr_same_prints_alike(*afrom, *bfrom); lemma_expr_same_prints_alike(*ato, *bto); }, _ => {} } },
        Expr::Pattern(aa0) => { match b { Expr::Pattern(ba0) => { lemma_pattern_same_prints_alike(*aa0, *ba0); }, _ => {} } },
        Expr::FnApply { callee: acallee, args: aargs, optional_args: aoptional_args } => { match b { Expr::FnApply { callee: bcallee, args: bargs, optional_args: boptional_args } => { lemma_expr_same_prints_alike(*acallee, *bcallee); lemma_exprs_same_prints_alike(aargs@, bargs@); lemma_props_same_prints_alike(aoptional_args@, boptional_args@); }, _ => {} } },
        Expr::NormalFormFnApply { callee: acallee, args: aargs, optional_args: aoptional_args } => { match b { Expr::NormalFormFnApply { callee: bcallee, args: bargs, optional_args: boptional_args } => { lemma_expr_same_prints_alike(*acallee, *bcallee); lemma_exprs_same_prints_alike(aargs@, bargs@); lemma_props_same_prints_alike(aoptional_args@, boptional_args@); }, _ => {} } },
        Expr::FnObjectApply { callee: acallee, elements: aelements, properties: aproperties } => { match b { Expr::FnObjectApply { callee: bcallee, elements: belements, properties: bproperties } => { lemma_expr_same_prints_alike(*acallee, *bcallee); lemma_exprs_same_prints_alike(aelements@, belements@); lemma_props_same_prints_alike(aproperties@, bproperties@); }, _ => {} } },
        Expr::UnaryApply { expr: aexpr, op: aop } => { match b { Expr::UnaryApply { expr: bexpr, op: bop } => { lemma_expr_same_prints_alike(*aexpr, *bexpr); }, _ => {} } },
        Expr::BinaryApply { left: aleft, right: aright, op: aop } => { match b { Expr::BinaryApply { left: bleft, right: bright, op: bop } => { lemma_expr_same_prints_alike(*aleft, *bleft); lemma_expr_same_prints_alike(*aright, *bright); }, _ => {} } },
        Expr::ObjectApply { callee: acallee, args: aargs, optional_args: aoptional_args, object: aobject } => { match b { Expr::ObjectApply { callee: bcallee, args: bargs, optional_args: boptional_args, object: bobject } => { lemma_expr_same_prints_alike(*acallee, *bcallee); lemma_exprs_same_prints_alike(aargs@, bargs@); lemma_props_same_prints_alike(aoptional_args@, boptional_args@); lemma_expr_same_prints_alike(*aobject, *bobject); }, _ => {} } },
        Expr::Index(aa0, aa1) => { match b { Expr::Index(ba0, ba1) => { lemma_expr_same_prints_alike(*aa0, *ba0); lemma_expr_same_prints_alike(*aa1, *ba1); }, _ => {} } },
        Expr::Matches(aa0, aa1) => { match b { Expr::Matches(ba0, ba1) => { lemma_expr_same_prints_alike(*aa0, *ba0); lemma_pattern_same_prints_alike(*aa1, *ba1); }, _ => {} } },
        Expr::If { condition: acondition, then_branch: athen_branch, else_branch: aelse_branch } => { match b { Expr::If { condition: bcondition, then_branch: bthen_branch, else_branch: belse_branch } => { lemma_expr_same_prints_alike(*acondition, *bcondition); lemma_expr_same_prints_alike(*athen_branch, *bthen_branch); match (aelse_branch, belse_branch) { (Some(o0), Some(o1)) => { lemma_expr_same_prints_alike(*o0, *o1); }, _ => {} } }, _ => {} } },
        Expr::When { conditions: aconditions, branches: abranches } => { match b { Expr::When { conditions: bconditions, branches: bbranches } => { lemma_exprs_same_prints_alike(aconditions@, bconditions@); lemma_exprs_same_prints_alike(abranches@, bbranches@); }, _ => {} } },
        Expr::Match { subject: asubject, arms: aarms } => { match b { Expr::Match { subject: bsubject, arms: barms } => { lemma_expr_same_prints_alike(*asubject, *bsubject); lemma_patterns_same_prints_alike(aarms@, barms@); }, _ => {} } },
        Expr::While { condition: acondition, body: abody } => { match b { Expr::While { condition: bcondition, body: bbody } => { lemma_expr_same_prints_alike(*acondition, *bcondition); lemma_expr_same_prints_alike(*abody, *bbody); }, _ => {} } },
        Expr::For { pattern: apattern, iterable: aiterable, body: abody } => { match b { Expr::For { pattern: bpattern, iterable: biterable, body: bbody } => { lemma_pattern_same_prints_alike(*apattern, *bpattern); lemma_expr_same_prints_alike(*aiterable, *biterable); lemma_expr_same_prints_alike(*abody, *bbody); }, _ => {} } },
        Expr::Let { pattern: apattern, ty: aty, init: ainit } => { match b { Expr::Let { pattern: bpattern, ty: bty, init: binit } => { lemma_pattern_same_prints_alike(*apattern, *bpattern); lemma_expr_same_prints_alike(*aty, *bty); lemma_expr_same_prints_alike(*ainit, *binit); }, _ => {} } },
        Expr::Const { pattern: apattern, ty: aty, init: ainit } => { match b { Expr::Const { pattern: bpattern, ty: bty, init: binit } => { lemma_pattern_same_prints_alike(*apattern, *bpattern); lemma_expr_same_prints_alike(*aty, *bty); lemma_expr_same_prints_alike(*ainit, *binit); }, _ => {} } },
        Expr::Assign { location: alocation, value: avalue } => { match b { Expr::Assign { location: blocation, value: bvalue } => { lemma_expr_same_prints_alike(*alocation, *blocation); lemma_expr_same_prints_alike(*avalue, *bvalue); }, _ => {} } },
        Expr::Block(aa0, aa1) => { match b { Expr::Block(ba0, ba1) => { lemma_exprs_same_prints_alike(aa1@, ba1@); }, _ => {} } },
        Expr::ExprStatement(aa0) => { match b { Expr::ExprStatement(ba0) => { lemma_expr_same_prints_alike(*aa0, *ba0); }, _ => {} } },
        Expr::Return(aa0) => { match b { Expr::Return(ba0) => { match (aa0, ba0) { (Some(o0), Some(o1)) => { lemma_expr_same_prints_alike(*o0, *o1); }, _ => {} } }, _ => {} } },
        Expr::Resume(aa0) => { match b { Expr::Resume(ba0) => { match (aa0, ba0) { (Some(o0), Some(o1)) => { lemma_expr_same_prints_alike(*o0, *o1); }, _ => {} } }, _ => {} } },
        Expr::TyOptional(aa0) => { match b { Expr::TyOptional(ba0) => { lemma_expr_same_prints_alike(*aa0, *ba0); }, _ => {} } },
        Expr::TyTuple(aa0) => { match b { Expr::TyTuple(ba0) => { lemma_exprs_same_prints_alike(aa0@, ba0@); }, _ => {} } },
        Expr::TyPointer(aa0) => { match b { Expr::TyPointer(ba0) => { lemma_expr_same_prints_alike(*aa0, *ba0); }, _ => {} } },
        Expr::TyArray(aa0, aa1) => { match b { Expr::TyArray(ba0, ba1) => { lemma_expr_same_prints_alike(*aa0, *ba0); lemma_expr_same_prints_alike(*aa1, *ba1); }, _ => {} } },
        Expr::TyScheme(aa0, aa1) => { match b { Expr::TyScheme(ba0, ba1) => { lemma_params_same_prints_alike(aa0@, ba0@); lemma_expr_same_prints_alike(*aa1, *ba1); }, _ => {} } },
        Expr::TyNamed(aa0, aa1) => { match b { Expr::TyNamed(ba0, ba1) => { lemma_def_same_prints_alike(*aa1, *ba1); }, _ => {} } },
        Expr::TyAlias(aa0, aa1) => { match b { Expr::TyAlias(ba0, ba1) => { lemma_expr_same_prints_alike(*aa1, *ba1); }, _ => {} } },
        Expr::Select(aa0, aa1) => { match b { Expr::Select(ba0, ba1) => { lemma_expr_same_prints_alike(*aa0, *ba0); }, _ => {} } },
        _ => {},
    }
}

/// Two `Pattern` values that are the same tree print the same: sameness
/// compares every field that the printed form shows.
pub proof fn lemma_pattern_same_prints_alike(a: Pattern, b: Pattern)
    requires
        pattern_same(a, b),
    ensures
        pattern_text(a) == pattern_text(b),
    decreases a,
{
    match a {
        Pattern::Literal(aa0) => { match b { Pattern::Literal(ba0) => { lemma_expr_same_prints_alike(*aa0, *ba0); }, _ => {} } },
        Pattern::OptionSome(aa0) => { match b { Pattern::OptionSome(ba0) => { lemma_pattern_same_prints_alike(*aa0, *ba0); }, _ => {} } },
        Pattern::ResultOk(aa0) => { match b { Pattern::ResultOk(ba0) => { lemma_pattern_same_prints_alike(*aa0, *ba0); }, _ => {} } },
        Pattern::ResultErr(aa0) => { match b { Pattern::ResultErr(ba0) => { lemma_pattern_same_prints_alike(*aa0, *ba0); }, _ => {} } },
        Pattern::Range { from: afrom, to: ato, inclusive: ainclusive } => { match b { Pattern::Range { from: bfrom, to: bto, inclusive: binclusive } => { lemma_pattern_same_prints_alike(*afrom, *bfrom); lemma_pattern_same_prints_alike(*ato, *bto); }, _ => {} } },
        Pattern::TupleDestructure(aa0) => { match b { Pattern::TupleDestructure(ba0) => { lemma_patterns_same_prints_alike(aa0@, ba0@); }, _ => {} } },
        Pattern::CallDestructure(aa0, aa1) => { match b { Pattern::CallDestructure(ba0, ba1) => { lemma_expr_same_prints_alike(*aa0, *ba0); lemma_patterns_same_prints_alike(aa1@, ba1@); }, _ => {} } },
        Pattern::ListDestructure(aa0) => { match b { Pattern::ListDestructure(ba0) => { lemma_patterns_same_prints_alike(aa0@, ba0@); }, _ => {} } },
        Pattern::ObjectDestructure(aa0) => { match b { Pattern::ObjectDestructure(ba0) => { lemma_patterns_same_prints_alike(aa0@, ba0@); }, _ => {} } },
        Pattern::ObjectCallDestructure(aa0, aa1) => { match b { Pattern::ObjectCallDestructure(ba0, ba1) => { lemma_expr_same_prints_alike(*aa0, *ba0); lemma_patterns_same_prints_alike(aa1@, ba1@); }, _ => {} } },
        Pattern::Property(aa0, aa1) => { match b { Pattern::Property(ba0, ba1) => { lemma_pattern_same_prints_alike(*aa1, *ba1); }, _ => {} } },
        _ => {},
    }
}

/// Two `Definition` values that are the same tree print the same: sameness
/// compares every field that the printed form shows.
pub proof fn lemma_def_same_prints_alike(a: Definition, b: Definition)
    requires
        def_same(a, b),
    ensures
        def_text(a) == def_text(b),
    decreases a,
{
    match a {
        Definition::Module(aa0) => { match b { Definition::Module(ba0) => { lemma_module_same_prints_alike(aa0, ba0); }, _ => {} } },
        Definition::Struct(aa0) => { match b { Definition::Struct(ba0) => { lemma_struct_same_prints_alike(aa0, ba0); }, _ => {} } },
        Definition::StructField(aa0, aa1, aa2) => { match b { Definition::StructField(ba0, ba1, ba2) => { lemma_expr_same_prints_alike(*aa1, *ba1); match (aa2, ba2) { (Some(o0), Some(o1)) => { lemma_expr_same_prints_alike(*o0, *o1); }, _ => {} } }, _ => {} } },
        Definition::Enum(aa0) => { match b { Definition::Enum(ba0) => { lemma_enum_same_prints_alike(aa0, ba0); }, _ => {} } },
        Definition::EnumVariantWithStruct(aa0, aa1) => { match b { Definition::EnumVariantWithStruct(ba0, ba1) => { lemma_defs_same_prints_alike(aa1@, ba1@); }, _ => {} } },
        Definition::EnumVariantWithTuple(aa0, aa1) => { match b { Definition::EnumVariantWithTuple(ba0, ba1) => { lemma_exprs_same_prints_alike(aa1@, ba1@); }, _ => {} } },
        Definition::EnumVariantWithPattern(aa0, aa1) => { match b { Definition::EnumVariantWithPattern(ba0, ba1) => { lemma_pattern_same_prints_alike(*aa1, *ba1); }, _ => {} } },
        Definition::EnumVariantWithSubEnum(aa0, aa1) => { match b { Definition::EnumVariantWithSubEnum(ba0, ba1) => { lemma_defs_same_prints_alike(aa1@, ba1@); }, _ => {} } },
        Definition::Function(aa0) => { match b { Definition::Function(ba0) => { lemma_function_same_prints_alike(aa0, ba0); }, _ => {} } },
        Definition::FileScope { name: aname, items: aitems, scope_id: ascope_id } => { match b { Definition::FileScope { name: bname, items: bitems, scope_id: bscope_id } => { lemma_defs_same_prints_alike(aitems@, bitems@); }, _ => {} } },
        _ => {},
    }
}

/// Two `Function` values that are the same tree print the same: sameness
/// compares every field that the printed form shows.
pub proof fn lemma_function_same_prints_alike(a: Function, b: Function)
    requires
        function_same(a, b),
    ensures
        function_text(a) == function_text(b),
    decreases a,
{
    lemma_expr_same_prints_alike(*a.return_type, *b.return_type);
    lemma_expr_same_prints_alike(*a.body, *b.body);
}

/// Two `Param` values that are the same tree print the same: sameness
/// compares every field that the printed form shows.
pub proof fn lemma_param_same_prints_alike(a: Param, b: Param)
    requires
        param_same(a, b),
    ensures
        param_text(a) == param_text(b),
    decreases a,
{
    match a {
        Param::Typed(aa0, aa1, aa2) => { match b { Param::Typed(ba0, ba1, ba2) => { lemma_expr_same_prints_alike(*aa1, *ba1); match (aa2, ba2) { (Some(o0), Some(o1)) => { lemma_expr_same_prints_alike(*o0, *o1); }, _ => {} } }, _ => {} } },
        Param::AutoCollectToTuple(aa0, aa1) => { match b { Param::AutoCollectToTuple(ba0, ba1) => { lemma_expr_same_prints_alike(*aa1, *ba1); }, _ => {} } },
        Param::AutoCollectToObject(aa0, aa1) => { match b { Param::AutoCollectToObject(ba0, ba1) => { lemma_expr_same_prints_alike(*aa1, *ba1); }, _ => {} } },
        _ => {},
    }
}

/// Two `Module` values that are the same tree print the same: sameness
/// compares every field that the printed form shows.
pub proof fn lemma_module_same_prints_alike(a: Module, b: Module)
    requires
        module_same(a, b),
    ensures
        module_text(a) == module_text(b),
    decreases a,
{
    lemma_clauses_same_prints_alike(a.clauses@, b.clauses@);
}

/// Two `Struct` values that are the same tree print the same: sameness
/// compares every field that the printed form shows.
pub proof fn lemma_struct_same_prints_alike(a: Struct, b: Struct)
    requires
        struct_same(a, b),
    ensures
        struct_text(a) == struct_text(b),
    decreases a,
{
    lemma_clauses_same_prints_alike(a.clauses@, b.clauses@);
    lemma_defs_same_prints_alike(a.fields@, b.fields@);
}

/// Two `Enum` values that are the same tree print the same: sameness
/// compares every field that the printed form shows.
pub proof fn lemma_enum_same_prints_alike(a: Enum, b: Enum)
    requires
        enum_same(a, b),
    ensures
        enum_text(a) == enum_text(b),
    decreases a,
{
    lemma_clauses_same_prints_alike(a.clauses@, b.clauses@);
    lemma_defs_same_prints_alike(a.variants@, b.variants@);
    lemma_defs_same_prints_alike(a.items@, b.items@);
}

/// Two `Property` values that are the same tree print the same: sameness
/// compares every field that the printed form shows.
pub proof fn lemma_prop_same_prints_alike(a: Property, b: Property)
    requires
        prop_same(a, b),
    ensures
        prop_text(a) == prop_text(b),
    decreases a,
{
    lemma_expr_same_prints_alike(*a.value, *b.value);
}

/// Two `Clause` values that are the same tree print the same: sameness
/// compares every field that the printed form shows.
pub proof fn lemma_clause_same_prints_alike(a: Clause, b: Clause)
    requires
        clause_same(a, b),
    ensures
        clause_text(a) == clause_text(b),
{
    match a {
        _ => {},
    }
}

pub proof fn lemma_exprs_same_prints_alike(a: Seq<Expr>, b: Seq<Expr>)
    requires
        exprs_same(a, b),
    ensures
        exprs_text(a) == exprs_text(b),
    decreases a,
{
    if a.len() > 0 {
        lemma_exprs_same_prints_alike(a.drop_last(), b.drop_last());
        lemma_expr_same_prints_alike(a.last(), b.last());
    }
}

pub proof fn lemma_patterns_same_prints_alike(a: Seq<Pattern>, b: Seq<Pattern>)
    requires
        patterns_same(a, b),
    ensures
        patterns_text(a) == patterns_text(b),
    decreases a,
{
    if a.len() > 0 {
        lemma_patterns_same_prints_alike(a.drop_last(), b.drop_last());
        lemma_pattern_same_prints_alike(a.last(), b.last());
    }
}

pub proof fn lemma_defs_same_prints_alike(a: Seq<Definition>, b: Seq<Definition>)
    requires
        defs_same(a, b),
    ensures
        defs_text(a) == defs_text(b),
    decreases a,
{
    if a.len() > 0 {
        lemma_defs_same_prints_alike(a.drop_last(), b.drop_last());
        lemma_def_same_prints_alike(a.last(), b.last());
    }
}

pub proof fn lemma_params_same_prints_alike(a: Seq<Param>, b: Seq<Param>)
    requires
        params_same(a, b),
    ensures
        params_text(a) == params_text(b),
    decreases a,
{
    if a.len() > 0 {
        lemma_params_same_prints_alike(a.drop_last(), b.drop_last());
        lemma_param_same_prints_alike(a.last(), b.last());
    }
}

pub proof fn lemma_clauses_same_prints_alike(a: Seq<Clause>, b: Seq<Clause>)
    requires
        clauses_same(a, b),
    ensures
        clauses_text(a) == clauses_text(b),
    decreases a,
{
    if a.len() > 0 {
        lemma_clauses_same_prints_alike(a.drop_last(), b.drop_last());
        lemma_clause_same_prints_alike(a.last(), b.last());
    }
}

pub proof fn lemma_props_same_prints_alike(a: Seq<Property>, b: Seq<Property>)
    requires
        props_same(a, b),
    ensures
        props_text(a) == props_text(b),
    decreases a,
{
    if a.len() > 0 {
        lemma_props_same_prints_alike(a.drop_last(), b.drop_last());
        lemma_prop_same_prints_alike(a.last(), b.last());
    }
}

impl PartialEq for Expr {
    fn eq(&self, other: &Expr) -> (r: bool) {
        self.same_as(other)
    }
}

impl Eq for Expr {
}

impl vstd::std_specs::cmp::PartialEqSpecImpl for Expr {
    open spec fn obeys_eq_spec() -> bool {
        true
    }

    open spec fn eq_spec(&self, other: &Expr) -> bool {
        expr_same(*self, *other)
    }
}

impl PartialEq for Pattern {
    fn eq(&self, other: &Pattern) -> (r: bool) {
        self.same_as(other)
    }
}

impl Eq for Pattern {
}

impl vstd::std_specs::cmp::PartialEqSpecImpl for Pattern {
    open spec fn obeys_eq_spec() -> bool {
        true
    }

    open spec fn eq_spec(&self, other: &Pattern) -> bool {
        pattern_same(*self, *other)
    }
}

} // verus!

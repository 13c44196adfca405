//! The HIR built during name resolution, and how it is printed.
//!
//! Sub-expressions are owned (`Box`/`Vec`); two structurally equal
//! expressions are the same value.
use vstd::prelude::*;

use crate::symbol::Symbol;
use crate::text::{char_text, decimal, push_decimal, push_signed_decimal, push_str, signed_decimal};

verus! {


/// A HIR node id.
pub type HirId = usize;

/// A scope id.
pub type ScopeId = usize;

/// Block flavours.
#[derive(Clone, Copy, Debug, PartialEq, Eq, Structural, Hash)]
pub enum BlockKind {
    Normal,
    Do,
    Comptime,
    Unsafe,
}

/// Binary operators.
#[derive(Clone, Copy, Debug, PartialEq, Eq, Structural, Hash)]
pub enum BinaryOp {
    Add,
    Sub,
    Div,
    Mul,
    Mod,
    BoolAnd,
    BoolOr,
    BoolEq,
    BoolNotEq,
    BoolGt,
    BoolLt,
    BoolGtEq,
    BoolLtEq,
    BoolImplies,
    BoolTypedWith,
    BoolTraitBound,
    AddAdd,
}

/// Unary operators.
#[derive(Clone, Copy, Debug, PartialEq, Eq, Structural, Hash)]
pub enum UnaryOp {
    Neg,
    Not,
    Refer,
    Deref,
}

/// Function flavours.
#[derive(Clone, Copy, Debug, PartialEq, Eq, Structural, Hash)]
pub enum FnKind {
    Normal,
    Method,
    RefMethod,
}

/// An expression; types are expressions too.
#[derive(Debug, Hash)]
pub enum Expr {
    Ref(HirId),
    IntLiteral(i64),
    BoolLiteral(bool),
    RealLiteral(i32, u32),
    StrLiteral(Symbol),
    CharLiteral(char),
    SymbolLiteral(Symbol),
    Null,
    Undefined,
    Unit,
    Any,
    SelfVal,
    List(Vec<Expr>),
    Tuple(Vec<Expr>),
    Object(Vec<Expr>, Vec<Property>),
    Range { from: Box<Expr>, to: Box<Expr>, inclusive: bool },
    Pattern(Box<Pattern>),
    FnApply { callee: Box<Expr>, args: Vec<Expr>, optional_args: Vec<Property> },
    NormalFormFnApply { callee: Box<Expr>, args: Vec<Expr>, optional_args: Vec<Property> },
    FnObjectApply { callee: Box<Expr>, elements: Vec<Expr>, properties: Vec<Property> },
    UnaryApply { expr: Box<Expr>, op: UnaryOp },
    BinaryApply { left: Box<Expr>, right: Box<Expr>, op: BinaryOp },
    ObjectApply { callee: Box<Expr>, args: Vec<Expr>, optional_args: Vec<Property>, object: Box<Expr> },
    Index(Box<Expr>, Box<Expr>),
    Matches(Box<Expr>, Box<Pattern>),
    If { condition: Box<Expr>, then_branch: Box<Expr>, else_branch: Option<Box<Expr>> },
    When { conditions: Vec<Expr>, branches: Vec<Expr> },
    Match { subject: Box<Expr>, arms: Vec<Pattern> },
    While { condition: Box<Expr>, body: Box<Expr> },
    For { pattern: Box<Pattern>, iterable: Box<Expr>, body: Box<Expr> },
    Let { pattern: Box<Pattern>, ty: Box<Expr>, init: Box<Expr> },
    Const { pattern: Box<Pattern>, ty: Box<Expr>, init: Box<Expr> },
    Assign { location: Box<Expr>, value: Box<Expr> },
    Block(BlockKind, Vec<Expr>),
    ExprStatement(Box<Expr>),
    Break(Option<Symbol>),
    Continue(Option<Symbol>),
    Return(Option<Box<Expr>>),
    Resume(Option<Box<Expr>>),
    TyVoid,
    TyNoReturn,
    TyAny,
    TySelf,
    TyInteger,
    TyReal,
    TyChar,
    TySymbol,
    TyObject,
    TyStr,
    TyBool,
    TyInt(u8, bool),
    TyFloat(u8),
    TyOptional(Box<Expr>),
    TyTuple(Vec<Expr>),
    TyPointer(Box<Expr>),
    TyArray(Box<Expr>, Box<Expr>),
    TyScheme(Vec<Param>, Box<Expr>),
    TyNamed(Symbol, Box<Definition>),
    TyAlias(Symbol, Box<Expr>),
    Select(Box<Expr>, Symbol),
}

/// A pattern.
#[derive(Debug, Hash)]
pub enum Pattern {
    Ref(HirId),
    Wildcard,
    Literal(Box<Expr>),
    Symbol(Symbol),
    Null,
    OptionSome(Box<Pattern>),
    ResultOk(Box<Pattern>),
    ResultErr(Box<Pattern>),
    Range { from: Box<Pattern>, to: Box<Pattern>, inclusive: bool },
    TupleDestructure(Vec<Pattern>),
    CallDestructure(Box<Expr>, Vec<Pattern>),
    ListDestructure(Vec<Pattern>),
    ObjectDestructure(Vec<Pattern>),
    ObjectCallDestructure(Box<Expr>, Vec<Pattern>),
    Property(Symbol, Box<Pattern>),
    Variable(Symbol),
}

/// A definition.
#[derive(Debug, Hash)]
pub enum Definition {
    Module(Module),
    Struct(Struct),
    StructField(Symbol, Box<Expr>, Option<Box<Expr>>),
    Enum(Enum),
    EnumVariant(Symbol),
    EnumVariantWithStruct(Symbol, Vec<Definition>),
    EnumVariantWithTuple(Symbol, Vec<Expr>),
    EnumVariantWithPattern(Symbol, Box<Pattern>),
    EnumVariantWithSubEnum(Symbol, Vec<Definition>),
    Function(Function),
    FileScope { name: Symbol, items: Vec<Definition>, scope_id: ScopeId },
    Package { name: Symbol, scope_id: ScopeId },
}

/// A function definition; clauses and parameters are referred to by id.
#[derive(Debug, Hash)]
pub struct Function {
    pub kind: FnKind,
    pub name: Symbol,
    pub clauses: Vec<HirId>,
    pub params: Vec<HirId>,
    pub return_type: Box<Expr>,
    pub body: Box<Expr>,
    pub body_scope: ScopeId,
}

/// A generic clause of a definition.
#[derive(Clone, Copy, Debug, Hash)]
pub enum Clause {
    TypeDecl { symbol: Symbol, owner: HirId, self_id: HirId },
    TypeTraitBounded { symbol: Symbol, trait_bound: HirId, owner: HirId, self_id: HirId },
    Decl { symbol: Symbol, ty: HirId, default: Option<HirId>, owner: HirId, self_id: HirId },
    Requires,
    Ensures,
    Decreases,
    Outcomes,
}

/// A parameter of a type scheme.
#[derive(Debug, Hash)]
pub enum Param {
    Itself { is_ref: bool },
    Typed(Symbol, Box<Expr>, Option<Box<Expr>>),
    AutoCollectToTuple(Symbol, Box<Expr>),
    AutoCollectToObject(Symbol, Box<Expr>),
}

#[derive(Debug, Hash)]
pub struct Module {
    pub name: Symbol,
    pub clauses: Vec<Clause>,
    pub scope_id: ScopeId,
}

#[derive(Debug, Hash)]
pub struct Struct {
    pub name: Symbol,
    pub clauses: Vec<Clause>,
    pub fields: Vec<Definition>,
    pub scope_id: ScopeId,
}

#[derive(Debug, Hash)]
pub struct Enum {
    pub name: Symbol,
    pub clauses: Vec<Clause>,
    pub variants: Vec<Definition>,
    pub items: Vec<Definition>,
}

/// A named argument or field value.
#[derive(Debug, Hash)]
pub struct Property {
    pub name: Symbol,
    pub value: Box<Expr>,
}

/// An import into a scope.
#[derive(Debug, Hash)]
pub enum Import {
    All(ScopeId),
    Multi(ScopeId, Vec<Symbol>),
    Single(ScopeId, Symbol),
    Alias { scope_id: ScopeId, alias: Symbol, original: Symbol },
}


pub open spec fn bool_text(b: bool) -> Seq<char> {
    if b { "true"@ } else { "false"@ }
}

fn push_bool(out: &mut String, b: bool)
    ensures
        final(out)@ == old(out)@ + bool_text(b),
{
    if b {
        push_str(out, "true");
    } else {
        push_str(out, "false");
    }
}

pub open spec fn block_kind_name(x: BlockKind) -> Seq<char> {
    match x {
        BlockKind::Normal => "Normal"@,
        BlockKind::Do => "Do"@,
        BlockKind::Comptime => "Comptime"@,
        BlockKind::Unsafe => "Unsafe"@,
    }
}

pub fn block_kind_str(x: BlockKind) -> (r: &'static str)
    ensures
        r@ == block_kind_name(x),
{
    match x {
        BlockKind::Normal => "Normal",
        BlockKind::Do => "Do",
        BlockKind::Comptime => "Comptime",
        BlockKind::Unsafe => "Unsafe",
    }
}

pub open spec fn binary_op_name(x: BinaryOp) -> Seq<char> {
    match x {
        BinaryOp::Add => "Add"@,
        BinaryOp::Sub => "Sub"@,
        BinaryOp::Div => "Div"@,
        BinaryOp::Mul => "Mul"@,
        BinaryOp::Mod => "Mod"@,
        BinaryOp::BoolAnd => "BoolAnd"@,
        BinaryOp::BoolOr => "BoolOr"@,
        BinaryOp::BoolEq => "BoolEq"@,
        BinaryOp::BoolNotEq => "BoolNotEq"@,
        BinaryOp::BoolGt => "BoolGt"@,
        BinaryOp::BoolLt => "BoolLt"@,
        BinaryOp::BoolGtEq => "BoolGtEq"@,
        BinaryOp::BoolLtEq => "BoolLtEq"@,
        BinaryOp::BoolImplies => "BoolImplies"@,
        BinaryOp::BoolTypedWith => "BoolTypedWith"@,
        BinaryOp::BoolTraitBound => "BoolTraitBound"@,
        BinaryOp::AddAdd => "AddAdd"@,
    }
}

pub fn binary_op_str(x: BinaryOp) -> (r: &'static str)
    ensures
        r@ == binary_op_name(x),
{
    match x {
        BinaryOp::Add => "Add",
        BinaryOp::Sub => "Sub",
        BinaryOp::Div => "Div",
        BinaryOp::Mul => "Mul",
        BinaryOp::Mod => "Mod",
        BinaryOp::BoolAnd => "BoolAnd",
        BinaryOp::BoolOr => "BoolOr",
        BinaryOp::BoolEq => "BoolEq",
        BinaryOp::BoolNotEq => "BoolNotEq",
        BinaryOp::BoolGt => "BoolGt",
        BinaryOp::BoolLt => "BoolLt",
        BinaryOp::BoolGtEq => "BoolGtEq",
        BinaryOp::BoolLtEq => "BoolLtEq",
        BinaryOp::BoolImplies => "BoolImplies",
        BinaryOp::BoolTypedWith => "BoolTypedWith",
        BinaryOp::BoolTraitBound => "BoolTraitBound",
        BinaryOp::AddAdd => "AddAdd",
    }
}

pub open spec fn unary_op_name(x: UnaryOp) -> Seq<char> {
    match x {
        UnaryOp::Neg => "Neg"@,
        UnaryOp::Not => "Not"@,
        UnaryOp::Refer => "Refer"@,
        UnaryOp::Deref => "Deref"@,
    }
}

pub fn unary_op_str(x: UnaryOp) -> (r: &'static str)
    ensures
        r@ == unary_op_name(x),
{
    match x {
        UnaryOp::Neg => "Neg",
        UnaryOp::Not => "Not",
        UnaryOp::Refer => "Refer",
        UnaryOp::Deref => "Deref",
    }
}

pub open spec fn fn_kind_name(x: FnKind) -> Seq<char> {
    match x {
        FnKind::Normal => "Normal"@,
        FnKind::Method => "Method"@,
        FnKind::RefMethod => "RefMethod"@,
    }
}

pub fn fn_kind_str(x: FnKind) -> (r: &'static str)
    ensures
        r@ == fn_kind_name(x),
{
    match x {
        FnKind::Normal => "Normal",
        FnKind::Method => "Method",
        FnKind::RefMethod => "RefMethod",
    }
}

/// Node ids separated by single spaces.
pub open spec fn ids_text(s: Seq<HirId>) -> Seq<char>
    decreases s.len(),
{
    if s.len() == 0 {
        Seq::empty()
    } else if s.len() == 1 {
        decimal(s[0] as nat)
    } else {
        ids_text(s.drop_last()) + " "@ + decimal(s.last() as nat)
    }
}

fn push_ids(out: &mut String, v: &Vec<HirId>)
    ensures
        final(out)@ == old(out)@ + ids_text(v@),
{
    let ghost start = out@;
    let mut i: usize = 0;
    while i < v.len()
        invariant
            0 <= i <= v@.len(),
            out@ == start + ids_text(v@.take(i as int)),
        decreases v@.len() - i,
    {
        let ghost t = v@.take(i as int + 1);
        proof {
            assert(t.drop_last() == v@.take(i as int));
            assert(t.last() == v@[i as int]);
            if i == 0 {
                assert(t.len() == 1);
                assert(t[0] == v@[0]);
            }
        }
        if i > 0 {
            push_str(out, " ");
        }
        push_decimal(out, v[i] as u64);
        i += 1;
    }
    proof {
        assert(v@.take(v@.len() as int) == v@);
    }
}

/// Symbols separated by single spaces.
pub open spec fn symbols_text(s: Seq<Symbol>) -> Seq<char>
    decreases s.len(),
{
    if s.len() == 0 {
        Seq::empty()
    } else if s.len() == 1 {
        s[0]@
    } else {
        symbols_text(s.drop_last()) + " "@ + s.last()@
    }
}

fn push_symbols(out: &mut String, v: &Vec<Symbol>)
    ensures
        final(out)@ == old(out)@ + symbols_text(v@),
{
    let ghost start = out@;
    let mut i: usize = 0;
    while i < v.len()
        invariant
            0 <= i <= v@.len(),
            out@ == start + symbols_text(v@.take(i as int)),
        decreases v@.len() - i,
    {
        let ghost t = v@.take(i as int + 1);
        proof {
            assert(t.drop_last() == v@.take(i as int));
            assert(t.last() == v@[i as int]);
            if i == 0 {
                assert(t.len() == 1);
                assert(t[0] == v@[0]);
            }
        }
        if i > 0 {
            push_str(out, " ");
        }
        push_str(out, v[i].as_str());
        i += 1;
    }
    proof {
        assert(v@.take(v@.len() as int) == v@);
    }
}

/// How an expression is printed.
pub open spec fn expr_text(x: Expr) -> Seq<char>
    decreases x,
{
    match x {
            Expr::IntLiteral(n) => "(IntLiteral"@ + " "@ + signed_decimal(n as int) + ")"@,
            Expr::BoolLiteral(b) => "(BoolLiteral"@ + " "@ + bool_text(b) + ")"@,
            Expr::RealLiteral(i, u) => "(RealLiteral "@ + signed_decimal(i as int) + "."@ + decimal(u as nat) + ")"@,
            Expr::StrLiteral(s) => "(StrLiteral \""@ + s@ + "\")"@,
            Expr::CharLiteral(c) => "(CharLiteral '"@ + seq![c] + "')"@,
            Expr::SymbolLiteral(s) => "(SymbolLiteral :"@ + s@ + ")"@,
            Expr::Null => "(Null)"@,
            Expr::Undefined => "(Undefined)"@,
            Expr::Unit => "(unit)"@,
            Expr::Any => "(any)"@,
            Expr::SelfVal => "(self)"@,
            Expr::TySelf => "(SelfType)"@,
            Expr::Ref(id) => "(Ref"@ + " "@ + decimal(id as nat) + ")"@,
            Expr::List(es) => "(List"@ + " "@ + exprs_text(es@) + ")"@,
            Expr::Tuple(es) => "(Tuple"@ + " "@ + exprs_text(es@) + ")"@,
            Expr::Object(es, ps) => "(Object"@ + " "@ + exprs_text(es@) + " "@ + props_text(ps@) + ")"@,
            Expr::Range { from, to, inclusive } => "(Range"@ + " "@ + expr_text(*from) + " "@ + expr_text(*to) + " "@ + bool_text(inclusive) + ")"@,
            Expr::Pattern(p) => "(Pattern"@ + " "@ + pattern_text(*p) + ")"@,
            Expr::FnApply { callee, args, optional_args } => "(FnApply"@ + " "@ + expr_text(*callee) + " "@ + exprs_text(args@) + " "@ + props_text(optional_args@) + ")"@,
            Expr::NormalFormFnApply { callee, args, optional_args } => "(NormalFormFnApply"@ + " "@ + expr_text(*callee) + " "@ + exprs_text(args@) + " "@ + props_text(optional_args@) + ")"@,
            Expr::FnObjectApply { callee, elements, properties } => "(FnObjectApply"@ + " "@ + expr_text(*callee) + " "@ + exprs_text(elements@) + " "@ + props_text(properties@) + ")"@,
            Expr::UnaryApply { expr, op } => "(UnaryApply"@ + " "@ + unary_op_name(op) + " "@ + expr_text(*expr) + ")"@,
            Expr::BinaryApply { left, right, op } => "(BinaryApply"@ + " "@ + binary_op_name(op) + " "@ + expr_text(*left) + " "@ + expr_text(*right) + ")"@,
            Expr::ObjectApply { callee, args, optional_args, object } => "(ObjectApply"@ + " "@ + expr_text(*callee) + " "@ + exprs_text(args@) + " "@ + props_text(optional_args@) + " "@ + expr_text(*object) + ")"@,
            Expr::Index(e, i) => "(Index"@ + " "@ + expr_text(*e) + " "@ + expr_text(*i) + ")"@,
            Expr::Matches(e, p) => "(Matches"@ + " "@ + expr_text(*e) + " "@ + pattern_text(*p) + ")"@,
            Expr::If { condition, then_branch, else_branch } => match else_branch {
                Some(else_expr) => "(If"@ + " "@ + expr_text(*condition) + " "@ + expr_text(*then_branch) + " "@ + expr_text(*else_expr) + ")"@,
                None => "(If"@ + " "@ + expr_text(*condition) + " "@ + expr_text(*then_branch) + ")"@,
            },
            Expr::When { conditions, branches } => "(When"@ + " "@ + exprs_text(conditions@) + " "@ + exprs_text(branches@) + ")"@,
            Expr::Match { subject, arms } => "(Match"@ + " "@ + expr_text(*subject) + " "@ + patterns_text(arms@) + ")"@,
            Expr::While { condition, body } => "(While"@ + " "@ + expr_text(*condition) + " "@ + expr_text(*body) + ")"@,
            Expr::For { pattern, iterable, body } => "(For"@ + " "@ + pattern_text(*pattern) + " "@ + expr_text(*iterable) + " "@ + expr_text(*body) + ")"@,
            Expr::Let { pattern, ty, init } => "(Let"@ + " "@ + pattern_text(*pattern) + " "@ + expr_text(*ty) + " "@ + expr_text(*init) + ")"@,
            Expr::Const { pattern, ty, init } => "(Const"@ + " "@ + pattern_text(*pattern) + " "@ + expr_text(*ty) + " "@ + expr_text(*init) + ")"@,
            Expr::Assign { location, value } => "(Assign"@ + " "@ + expr_text(*location) + " "@ + expr_text(*value) + ")"@,
            Expr::Block(kind, es) => "(Block"@ + " "@ + block_kind_name(kind) + " "@ + exprs_text(es@) + ")"@,
            Expr::ExprStatement(e) => "(ExprStatement"@ + " "@ + expr_text(*e) + ")"@,
            Expr::Break(label) => match label {
                Some(l) => "(Break"@ + " "@ + l@ + ")"@,
                None => "(Break)"@,
            },
            Expr::Continue(label) => match label {
                Some(l) => "(Continue"@ + " "@ + l@ + ")"@,
                None => "(Continue)"@,
            },
            Expr::Return(value) => match value {
                Some(e) => "(Return"@ + " "@ + expr_text(*e) + ")"@,
                None => "(Return)"@,
            },
            Expr::Resume(value) => match value {
                Some(e) => "(Resume"@ + " "@ + expr_text(*e) + ")"@,
                None => "(Resume)"@,
            },
            Expr::TyVoid => "(TyVoid)"@,
            Expr::TyNoReturn => "(TyNoReturn)"@,
            Expr::TyAny => "(TyAny)"@,
            Expr::TyInteger => "(TyInteger)"@,
            Expr::TyReal => "(TyReal)"@,
            Expr::TyChar => "(TyChar)"@,
            Expr::TySymbol => "(TySymbol)"@,
            Expr::TyObject => "(TyObject)"@,
            Expr::TyStr => "(TyStr)"@,
            Expr::TyBool => "(TyBool)"@,
            Expr::TyInt(bits, signed) => "(TyInt"@ + " "@ + decimal(bits as nat) + " "@ + bool_text(signed) + ")"@,
            Expr::TyFloat(bits) => "(TyFloat"@ + " "@ + decimal(bits as nat) + ")"@,
            Expr::TyOptional(t) => "(TyOptional"@ + " "@ + expr_text(*t) + ")"@,
            Expr::TyTuple(ts) => "(TyTuple"@ + " "@ + exprs_text(ts@) + ")"@,
            Expr::TyPointer(t) => "(TyPointer"@ + " "@ + expr_text(*t) + ")"@,
            Expr::TyArray(t, size) => "(TyArray"@ + " "@ + expr_text(*t) + " "@ + expr_text(*size) + ")"@,
            Expr::TyScheme(params, t) => "(TyScheme"@ + " "@ + params_text(params@) + " "@ + expr_text(*t) + ")"@,
            Expr::TyNamed(name, def) => "(TyNamed"@ + " "@ + name@ + " "@ + def_text(*def) + ")"@,
            Expr::TyAlias(name, t) => "(TyAlias"@ + " "@ + name@ + " "@ + expr_text(*t) + ")"@,
            Expr::Select(left, id) => "(Select"@ + " "@ + expr_text(*left) + " "@ + id@ + ")"@,
    }
}

/// How a pattern is printed.
pub open spec fn pattern_text(x: Pattern) -> Seq<char>
    decreases x,
{
    match x {
            Pattern::Ref(id) => "(Ref"@ + " "@ + decimal(id as nat) + ")"@,
            Pattern::Wildcard => "(Wildcard)"@,
            Pattern::Literal(e) => "(Literal"@ + " "@ + expr_text(*e) + ")"@,
            Pattern::Symbol(s) => "(Symbol"@ + " "@ + s@ + ")"@,
            Pattern::Null => "(Null)"@,
            Pattern::OptionSome(p) => "(Some"@ + " "@ + pattern_text(*p) + ")"@,
            Pattern::ResultOk(p) => "(Ok"@ + " "@ + pattern_text(*p) + ")"@,
            Pattern::ResultErr(p) => "(Err"@ + " "@ + pattern_text(*p) + ")"@,
            Pattern::Range { from, to, inclusive } => "(Range"@ + " "@ + pattern_text(*from) + " "@ + pattern_text(*to) + " "@ + bool_text(inclusive) + ")"@,
            Pattern::TupleDestructure(ps) => "(TupleDestructure"@ + " "@ + patterns_text(ps@) + ")"@,
            Pattern::CallDestructure(e, ps) => "(CallDestructure"@ + " "@ + expr_text(*e) + " "@ + patterns_text(ps@) + ")"@,
            Pattern::ListDestructure(ps) => "(ListDestructure"@ + " "@ + patterns_text(ps@) + ")"@,
            Pattern::ObjectDestructure(ps) => "(ObjectDestructure"@ + " "@ + patterns_text(ps@) + ")"@,
            Pattern::ObjectCallDestructure(e, ps) => "(ObjectCallDestructure"@ + " "@ + expr_text(*e) + " "@ + patterns_text(ps@) + ")"@,
            Pattern::Property(s, p) => "(Property"@ + " "@ + s@ + " "@ + pattern_text(*p) + ")"@,
            Pattern::Variable(s) => "(Variable"@ + " "@ + s@ + ")"@,
    }
}

/// How a definition is printed.
pub open spec fn def_text(x: Definition) -> Seq<char>
    decreases x,
{
    match x {
            Definition::Module(m) => "(Module"@ + " "@ + module_text(m) + ")"@,
            Definition::Struct(s) => "(Struct"@ + " "@ + struct_text(s) + ")"@,
            Definition::StructField(name, ty, default) => match default {
                Some(d) => "(StructField"@ + " "@ + name@ + " "@ + expr_text(*ty) + " "@ + expr_text(*d) + ")"@,
                None => "(StructField"@ + " "@ + name@ + " "@ + expr_text(*ty) + ")"@,
            },
            Definition::Enum(e) => "(Enum"@ + " "@ + enum_text(e) + ")"@,
            Definition::EnumVariant(name) => "(EnumVariant"@ + " "@ + name@ + ")"@,
            Definition::EnumVariantWithStruct(name, fields) => "(EnumVariantWithStruct"@ + " "@ + name@ + " "@ + defs_text(fields@) + ")"@,
            Definition::EnumVariantWithTuple(name, types) => "(EnumVariantWithTuple"@ + " "@ + name@ + " "@ + exprs_text(types@) + ")"@,
            Definition::EnumVariantWithPattern(name, p) => "(EnumVariantWithPattern"@ + " "@ + name@ + " "@ + pattern_text(*p) + ")"@,
            Definition::EnumVariantWithSubEnum(name, variants) => "(EnumVariantWithSubEnum"@ + " "@ + name@ + " "@ + defs_text(variants@) + ")"@,
            Definition::Function(func) => "(Function"@ + " "@ + function_text(func) + ")"@,
            Definition::FileScope { name, items, scope_id } => "(FileScope"@ + " "@ + name@ + " "@ + decimal(scope_id as nat) + " "@ + defs_text(items@) + ")"@,
            Definition::Package { name, scope_id } => "(Package"@ + " "@ + name@ + " "@ + decimal(scope_id as nat) + ")"@,
    }
}

/// How a clause is printed.
pub open spec fn clause_text(x: Clause) -> Seq<char>
    decreases x,
{
    match x {
            Clause::TypeDecl { symbol, self_id, .. } => "(TypeDecl"@ + " "@ + symbol@ + " "@ + decimal(self_id as nat) + ")"@,
            Clause::TypeTraitBounded { symbol, trait_bound, self_id, .. } => "(TypeTraitBounded"@ + " "@ + symbol@ + " "@ + decimal(trait_bound as nat) + " "@ + decimal(self_id as nat) + ")"@,
            Clause::Decl { symbol, ty, default, self_id, .. } => match default {
                Some(d) => "(Decl"@ + " "@ + symbol@ + " "@ + decimal(ty as nat) + " "@ + decimal(d as nat) + " "@ + decimal(self_id as nat) + ")"@,
                None => "(Decl"@ + " "@ + symbol@ + " "@ + decimal(ty as nat) + " "@ + decimal(self_id as nat) + ")"@,
            },
            Clause::Requires => "(Requires)"@,
            Clause::Ensures => "(Ensures)"@,
            Clause::Decreases => "(Decreases)"@,
            Clause::Outcomes => "(Outcomes)"@,
    }
}

/// How a parameter is printed.
pub open spec fn param_text(x: Param) -> Seq<char>
    decreases x,
{
    match x {
            Param::Itself { is_ref } => "(Itself"@ + " "@ + bool_text(is_ref) + ")"@,
            Param::Typed(name, ty, default) => match default {
                Some(d) => "(Typed"@ + " "@ + name@ + " "@ + expr_text(*ty) + " "@ + expr_text(*d) + ")"@,
                None => "(Typed"@ + " "@ + name@ + " "@ + expr_text(*ty) + ")"@,
            },
            Param::AutoCollectToTuple(name, ty) => "(AutoCollectToTuple"@ + " "@ + name@ + " "@ + expr_text(*ty) + ")"@,
            Param::AutoCollectToObject(name, ty) => "(AutoCollectToObject"@ + " "@ + name@ + " "@ + expr_text(*ty) + ")"@,
    }
}

/// How an import is printed.
pub open spec fn import_text(x: Import) -> Seq<char>
    decreases x,
{
    match x {
            Import::All(scope_id) => "(ImportAll"@ + " "@ + decimal(scope_id as nat) + ")"@,
            Import::Multi(scope_id, symbols) => "(ImportMulti"@ + " "@ + decimal(scope_id as nat) + " "@ + symbols_text(symbols@) + ")"@,
            Import::Single(scope_id, symbol) => "(ImportSingle"@ + " "@ + decimal(scope_id as nat) + " "@ + symbol@ + ")"@,
            Import::Alias { scope_id, alias, original } => "(ImportAlias"@ + " "@ + decimal(scope_id as nat) + " "@ + alias@ + " "@ + original@ + ")"@,
    }
}

pub open spec fn function_text(x: Function) -> Seq<char>
    decreases x,
{
    "(Function"@ + " "@ + fn_kind_name(x.kind) + " "@ + x.name@ + " "@ + ids_text(x.clauses@) + " "@ + ids_text(x.params@) + " "@ + expr_text(*x.body) + ")"@
}

pub open spec fn module_text(x: Module) -> Seq<char>
    decreases x,
{
    "(Module"@ + " "@ + x.name@ + " "@ + clauses_text(x.clauses@) + " "@ + decimal(x.scope_id as nat) + ")"@
}

pub open spec fn struct_text(x: Struct) -> Seq<char>
    decreases x,
{
    "(Struct"@ + " "@ + x.name@ + " "@ + clauses_text(x.clauses@) + " "@ + defs_text(x.fields@) + " "@ + decimal(x.scope_id as nat) + ")"@
}

pub open spec fn enum_text(x: Enum) -> Seq<char>
    decreases x,
{
    "(Enum"@ + " "@ + x.name@ + " "@ + clauses_text(x.clauses@) + " "@ + defs_text(x.variants@) + " "@ + defs_text(x.items@) + ")"@
}

pub open spec fn prop_text(x: Property) -> Seq<char>
    decreases x,
{
    "(Property"@ + " "@ + x.name@ + " "@ + expr_text(*x.value) + ")"@
}

pub open spec fn exprs_text(s: Seq<Expr>) -> Seq<char>
    decreases s,
{
    if s.len() == 0 {
        Seq::empty()
    } else if s.len() == 1 {
        expr_text(s[0])
    } else {
        exprs_text(s.drop_last()) + " "@ + expr_text(s.last())
    }
}

pub open spec fn patterns_text(s: Seq<Pattern>) -> Seq<char>
    decreases s,
{
    if s.len() == 0 {
        Seq::empty()
    } else if s.len() == 1 {
        pattern_text(s[0])
    } else {
        patterns_text(s.drop_last()) + " "@ + pattern_text(s.last())
    }
}

pub open spec fn defs_text(s: Seq<Definition>) -> Seq<char>
    decreases s,
{
    if s.len() == 0 {
        Seq::empty()
    } else if s.len() == 1 {
        def_text(s[0])
    } else {
        defs_text(s.drop_last()) + " "@ + def_text(s.last())
    }
}

pub open spec fn params_text(s: Seq<Param>) -> Seq<char>
    decreases s,
{
    if s.len() == 0 {
        Seq::empty()
    } else if s.len() == 1 {
        param_text(s[0])
    } else {
        params_text(s.drop_last()) + " "@ + param_text(s.last())
    }
}

pub open spec fn clauses_text(s: Seq<Clause>) -> Seq<char>
    decreases s,
{
    if s.len() == 0 {
        Seq::empty()
    } else if s.len() == 1 {
        clause_text(s[0])
    } else {
        clauses_text(s.drop_last()) + " "@ + clause_text(s.last())
    }
}

pub open spec fn props_text(s: Seq<Property>) -> Seq<char>
    decreases s,
{
    if s.len() == 0 {
        Seq::empty()
    } else if s.len() == 1 {
        prop_text(s[0])
    } else {
        props_text(s.drop_last()) + " "@ + prop_text(s.last())
    }
}

fn push_exprs(out: &mut String, v: &Vec<Expr>)
    ensures
        final(out)@ == old(out)@ + exprs_text(v@),
    decreases v@,
{
    let ghost start = out@;
    let mut i: usize = 0;
    while i < v.len()
        invariant
            0 <= i <= v@.len(),
            out@ == start + exprs_text(v@.take(i as int)),
        decreases v@.len() - i,
    {
        let ghost t = v@.take(i as int + 1);
        proof {
            assert(t.drop_last() == v@.take(i as int));
            assert(t.last() == v@[i as int]);
            if i == 0 {
                assert(t.len() == 1);
                assert(t[0] == v@[0]);
            }
        }
        if i > 0 {
            push_str(out, " ");
        }
        v[i].push_text(out);
        i += 1;
    }
    proof {
        assert(v@.take(v@.len() as int) == v@);
    }
}

fn push_patterns(out: &mut String, v: &Vec<Pattern>)
    ensures
        final(out)@ == old(out)@ + patterns_text(v@),
    decreases v@,
{
    let ghost start = out@;
    let mut i: usize = 0;
    while i < v.len()
        invariant
            0 <= i <= v@.len(),
            out@ == start + patterns_text(v@.take(i as int)),
        decreases v@.len() - i,
    {
        let ghost t = v@.take(i as int + 1);
        proof {
            assert(t.drop_last() == v@.take(i as int));
            assert(t.last() == v@[i as int]);
            if i == 0 {
                assert(t.len() == 1);
                assert(t[0] == v@[0]);
            }
        }
        if i > 0 {
            push_str(out, " ");
        }
        v[i].push_text(out);
        i += 1;
    }
    proof {
        assert(v@.take(v@.len() as int) == v@);
    }
}

fn push_defs(out: &mut String, v: &Vec<Definition>)
    ensures
        final(out)@ == old(out)@ + defs_text(v@),
    decreases v@,
{
    let ghost start = out@;
    let mut i: usize = 0;
    while i < v.len()
        invariant
            0 <= i <= v@.len(),
            out@ == start + defs_text(v@.take(i as int)),
        decreases v@.len() - i,
    {
        let ghost t = v@.take(i as int + 1);
        proof {
            assert(t.drop_last() == v@.take(i as int));
            assert(t.last() == v@[i as int]);
            if i == 0 {
                assert(t.len() == 1);
                assert(t[0] == v@[0]);
            }
        }
        if i > 0 {
            push_str(out, " ");
        }
        v[i].push_text(out);
        i += 1;
    }
    proof {
        assert(v@.take(v@.len() as int) == v@);
    }
}

fn push_params(out: &mut String, v: &Vec<Param>)
    ensures
        final(out)@ == old(out)@ + params_text(v@),
    decreases v@,
{
    let ghost start = out@;
    let mut i: usize = 0;
    while i < v.len()
        invariant
            0 <= i <= v@.len(),
            out@ == start + params_text(v@.take(i as int)),
        decreases v@.len() - i,
    {
        let ghost t = v@.take(i as int + 1);
        proof {
            assert(t.drop_last() == v@.take(i as int));
            assert(t.last() == v@[i as int]);
            if i == 0 {
                assert(t.len() == 1);
                assert(t[0] == v@[0]);
            }
        }
        if i > 0 {
            push_str(out, " ");
        }
        v[i].push_text(out);
        i += 1;
    }
    proof {
        assert(v@.take(v@.len() as int) == v@);
    }
}

fn push_clauses(out: &mut String, v: &Vec<Clause>)
    ensures
        final(out)@ == old(out)@ + clauses_text(v@),
    decreases v@,
{
    let ghost start = out@;
    let mut i: usize = 0;
    while i < v.len()
        invariant
            0 <= i <= v@.len(),
            out@ == start + clauses_text(v@.take(i as int)),
        decreases v@.len() - i,
    {
        let ghost t = v@.take(i as int + 1);
        proof {
            assert(t.drop_last() == v@.take(i as int));
            assert(t.last() == v@[i as int]);
            if i == 0 {
                assert(t.len() == 1);
                assert(t[0] == v@[0]);
            }
        }
        if i > 0 {
            push_str(out, " ");
        }
        v[i].push_text(out);
        i += 1;
    }
    proof {
        assert(v@.take(v@.len() as int) == v@);
    }
}

fn push_props(out: &mut String, v: &Vec<Property>)
    ensures
        final(out)@ == old(out)@ + props_text(v@),
    decreases v@,
{
    let ghost start = out@;
    let mut i: usize = 0;
    while i < v.len()
        invariant
            0 <= i <= v@.len(),
            out@ == start + props_text(v@.take(i as int)),
        decreases v@.len() - i,
    {
        let ghost t = v@.take(i as int + 1);
        proof {
            assert(t.drop_last() == v@.take(i as int));
            assert(t.last() == v@[i as int]);
            if i == 0 {
                assert(t.len() == 1);
                assert(t[0] == v@[0]);
            }
        }
        if i > 0 {
            push_str(out, " ");
        }
        v[i].push_text(out);
        i += 1;
    }
    proof {
        assert(v@.take(v@.len() as int) == v@);
    }
}

impl Expr {
    /// Appends the printed form.
    #[verifier::rlimit(100)]
    #[verifier::spinoff_prover]
    pub fn push_text(&self, out: &mut String)
        ensures
            final(out)@ == old(out)@ + expr_text(*self),
        decreases *self,
    {
        match self {
            Expr::IntLiteral(n) => {
                push_str(out, "(IntLiteral");
                push_str(out, " ");
                push_signed_decimal(out, *n as i64);
                push_str(out, ")");
            },
            Expr::BoolLiteral(b) => {
                push_str(out, "(BoolLiteral");
                push_str(out, " ");
                push_bool(out, *b);
                push_str(out, ")");
            },
            Expr::RealLiteral(i, u) => {
                push_str(out, "(RealLiteral ");
                push_signed_decimal(out, *i as i64);
                push_str(out, ".");
                push_decimal(out, *u as u64);
                push_str(out, ")");
            },
            Expr::StrLiteral(s) => {
                push_str(out, "(StrLiteral \"");
                push_str(out, s.as_str());
                push_str(out, "\")");
            },
            Expr::CharLiteral(c) => {
                push_str(out, "(CharLiteral '");
                { let t = char_text(*c); push_str(out, t.as_str()); }
                push_str(out, "')");
            },
            Expr::SymbolLiteral(s) => {
                push_str(out, "(SymbolLiteral :");
                push_str(out, s.as_str());
                push_str(out, ")");
            },
            Expr::Null => {
                push_str(out, "(Null)");
            },
            Expr::Undefined => {
                push_str(out, "(Undefined)");
            },
            Expr::Unit => {
                push_str(out, "(unit)");
            },
            Expr::Any => {
                push_str(out, "(any)");
            },
            Expr::SelfVal => {
                push_str(out, "(self)");
            },
            Expr::TySelf => {
                push_str(out, "(SelfType)");
            },
            Expr::Ref(id) => {
                push_str(out, "(Ref");
                push_str(out, " ");
                push_decimal(out, *id as u64);
                push_str(out, ")");
            },
            Expr::List(es) => {
                push_str(out, "(List");
                push_str(out, " ");
                push_exprs(out, es);
                push_str(out, ")");
            },
            Expr::Tuple(es) => {
                push_str(out, "(Tuple");
                push_str(out, " ");
                push_exprs(out, es);
                push_str(out, ")");
            },
            Expr::Object(es, ps) => {
                push_str(out, "(Object");
                push_str(out, " ");
                push_exprs(out, es);
                push_str(out, " ");
                push_props(out, ps);
                push_str(out, ")");
            },
            Expr::Range { from, to, inclusive } => {
                push_str(out, "(Range");
                push_str(out, " ");
                from.push_text(out);
                push_str(out, " ");
                to.push_text(out);
                push_str(out, " ");
                push_bool(out, *inclusive);
                push_str(out, ")");
            },
            Expr::Pattern(p) => {
                push_str(out, "(Pattern");
                push_str(out, " ");
                p.push_text(out);
                push_str(out, ")");
            },
            Expr::FnApply { callee, args, optional_args } => {
                push_str(out, "(FnApply");
                push_str(out, " ");
                callee.push_text(out);
                push_str(out, " ");
                push_exprs(out, args);
                push_str(out, " ");
                push_props(out, optional_args);
                push_str(out, ")");
            },
            Expr::NormalFormFnApply { callee, args, optional_args } => {
                push_str(out, "(NormalFormFnApply");
                push_str(out, " ");
                callee.push_text(out);
                push_str(out, " ");
                push_exprs(out, args);
                push_str(out, " ");
                push_props(out, optional_args);
                push_str(out, ")");
            },
            Expr::FnObjectApply { callee, elements, properties } => {
                push_str(out, "(FnObjectApply");
                push_str(out, " ");
                callee.push_text(out);
                push_str(out, " ");
                push_exprs(out, elements);
                push_str(out, " ");
                push_props(out, properties);
                push_str(out, ")");
            },
            Expr::UnaryApply { expr, op } => {
                push_str(out, "(UnaryApply");
                push_str(out, " ");
                push_str(out, unary_op_str(*op));
                push_str(out, " ");
                expr.push_text(out);
                push_str(out, ")");
            },
            Expr::BinaryApply { left, right, op } => {
                push_str(out, "(BinaryApply");
                push_str(out, " ");
                push_str(out, binary_op_str(*op));
                push_str(out, " ");
                left.push_text(out);
                push_str(out, " ");
                right.push_text(out);
                push_str(out, ")");
            },
            Expr::ObjectApply { callee, args, optional_args, object } => {
                push_str(out, "(ObjectApply");
                push_str(out, " ");
                callee.push_text(out);
                push_str(out, " ");
                push_exprs(out, args);
                push_str(out, " ");
                push_props(out, optional_args);
                push_str(out, " ");
                object.push_text(out);
                push_str(out, ")");
            },
            Expr::Index(e, i) => {
                push_str(out, "(Index");
                push_str(out, " ");
                e.push_text(out);
                push_str(out, " ");
                i.push_text(out);
                push_str(out, ")");
            },
            Expr::Matches(e, p) => {
                push_str(out, "(Matches");
                push_str(out, " ");
                e.push_text(out);
                push_str(out, " ");
                p.push_text(out);
                push_str(out, ")");
            },
            Expr::If { condition, then_branch, else_branch } => match else_branch {
                    Some(else_expr) => {
                        push_str(out, "(If");
                        push_str(out, " ");
                        condition.push_text(out);
                        push_str(out, " ");
                        then_branch.push_text(out);
                        push_str(out, " ");
                        else_expr.push_text(out);
                        push_str(out, ")");
                    },
                    None => {
                        push_str(out, "(If");
                        push_str(out, " ");
                        condition.push_text(out);
                        push_str(out, " ");
                        then_branch.push_text(out);
                        push_str(out, ")");
                    },
                },
            Expr::When { conditions, branches } => {
                push_str(out, "(When");
                push_str(out, " ");
                push_exprs(out, conditions);
                push_str(out, " ");
                push_exprs(out, branches);
                push_str(out, ")");
            },
            Expr::Match { subject, arms } => {
                push_str(out, "(Match");
                push_str(out, " ");
                subject.push_text(out);
                push_str(out, " ");
                push_patterns(out, arms);
                push_str(out, ")");
            },
            Expr::While { condition, body } => {
                push_str(out, "(While");
                push_str(out, " ");
                condition.push_text(out);
                push_str(out, " ");
                body.push_text(out);
                push_str(out, ")");
            },
            Expr::For { pattern, iterable, body } => {
                push_str(out, "(For");
                push_str(out, " ");
                pattern.push_text(out);
                push_str(out, " ");
                iterable.push_text(out);
                push_str(out, " ");
                body.push_text(out);
                push_str(out, ")");
            },
            Expr::Let { pattern, ty, init } => {
                push_str(out, "(Let");
                push_str(out, " ");
                pattern.push_text(out);
                push_str(out, " ");
                ty.push_text(out);
                push_str(out, " ");
                init.push_text(out);
                push_str(out, ")");
            },
            Expr::Const { pattern, ty, init } => {
                push_str(out, "(Const");
                push_str(out, " ");
                pattern.push_text(out);
                push_str(out, " ");
                ty.push_text(out);
                push_str(out, " ");
                init.push_text(out);
                push_str(out, ")");
            },
            Expr::Assign { location, value } => {
                push_str(out, "(Assign");
                push_str(out, " ");
                location.push_text(out);
                push_str(out, " ");
                value.push_text(out);
                push_str(out, ")");
            },
            Expr::Block(kind, es) => {
                push_str(out, "(Block");
                push_str(out, " ");
                push_str(out, block_kind_str(*kind));
                push_str(out, " ");
                push_exprs(out, es);
                push_str(out, ")");
            },
            Expr::ExprStatement(e) => {
                push_str(out, "(ExprStatement");
                push_str(out, " ");
                e.push_text(out);
                push_str(out, ")");
            },
            Expr::Break(label) => match label {
                    Some(l) => {
                        push_str(out, "(Break");
                        push_str(out, " ");
                        push_str(out, l.as_str());
                        push_str(out, ")");
                    },
                    None => {
                        push_str(out, "(Break)");
                    },
                },
            Expr::Continue(label) => match label {
                    Some(l) => {
                        push_str(out, "(Continue");
                        push_str(out, " ");
                        push_str(out, l.as_str());
                        push_str(out, ")");
                    },
                    None => {
                        push_str(out, "(Continue)");
                    },
                },
            Expr::Return(value) => match value {
                    Some(e) => {
                        push_str(out, "(Return");
                        push_str(out, " ");
                        e.push_text(out);
                        push_str(out, ")");
                    },
                    None => {
                        push_str(out, "(Return)");
                    },
                },
            Expr::Resume(value) => match value {
                    Some(e) => {
                        push_str(out, "(Resume");
                        push_str(out, " ");
                        e.push_text(out);
                        push_str(out, ")");
                    },
                    None => {
                        push_str(out, "(Resume)");
                    },
                },
            Expr::TyVoid => {
                push_str(out, "(TyVoid)");
            },
            Expr::TyNoReturn => {
                push_str(out, "(TyNoReturn)");
            },
            Expr::TyAny => {
                push_str(out, "(TyAny)");
            },
            Expr::TyInteger => {
                push_str(out, "(TyInteger)");
            },
            Expr::TyReal => {
                push_str(out, "(TyReal)");
            },
            Expr::TyChar => {
                push_str(out, "(TyChar)");
            },
            Expr::TySymbol => {
                push_str(out, "(TySymbol)");
            },
            Expr::TyObject => {
                push_str(out, "(TyObject)");
            },
            Expr::TyStr => {
                push_str(out, "(TyStr)");
            },
            Expr::TyBool => {
                push_str(out, "(TyBool)");
            },
            Expr::TyInt(bits, signed) => {
                push_str(out, "(TyInt");
                push_str(out, " ");
                push_decimal(out, *bits as u64);
                push_str(out, " ");
                push_bool(out, *signed);
                push_str(out, ")");
            },
            Expr::TyFloat(bits) => {
                push_str(out, "(TyFloat");
                push_str(out, " ");
                push_decimal(out, *bits as u64);
                push_str(out, ")");
            },
            Expr::TyOptional(t) => {
                push_str(out, "(TyOptional");
                push_str(out, " ");
                t.push_text(out);
                push_str(out, ")");
            },
            Expr::TyTuple(ts) => {
                push_str(out, "(TyTuple");
                push_str(out, " ");
                push_exprs(out, ts);
                push_str(out, ")");
            },
            Expr::TyPointer(t) => {
                push_str(out, "(TyPointer");
                push_str(out, " ");
                t.push_text(out);
                push_str(out, ")");
            },
            Expr::TyArray(t, size) => {
                push_str(out, "(TyArray");
                push_str(out, " ");
                t.push_text(out);
                push_str(out, " ");
                size.push_text(out);
                push_str(out, ")");
            },
            Expr::TyScheme(params, t) => {
                push_str(out, "(TyScheme");
                push_str(out, " ");
                push_params(out, params);
                push_str(out, " ");
                t.push_text(out);
                push_str(out, ")");
            },
            Expr::TyNamed(name, def) => {
                push_str(out, "(TyNamed");
                push_str(out, " ");
                push_str(out, name.as_str());
                push_str(out, " ");
                def.push_text(out);
                push_str(out, ")");
            },
            Expr::TyAlias(name, t) => {
                push_str(out, "(TyAlias");
                push_str(out, " ");
                push_str(out, name.as_str());
                push_str(out, " ");
                t.push_text(out);
                push_str(out, ")");
            },
            Expr::Select(left, id) => {
                push_str(out, "(Select");
                push_str(out, " ");
                left.push_text(out);
                push_str(out, " ");
                push_str(out, id.as_str());
                push_str(out, ")");
            },
        }
    }

    /// The printed form.
    pub fn to_display_string(&self) -> (r: String)
        ensures
            r@ == expr_text(*self),
    {
        let mut out = String::new();
        self.push_text(&mut out);
        out
    }
}

impl Pattern {
    /// Appends the printed form.
    #[verifier::rlimit(100)]
    #[verifier::spinoff_prover]
    pub fn push_text(&self, out: &mut String)
        ensures
            final(out)@ == old(out)@ + pattern_text(*self),
        decreases *self,
    {
        match self {
            Pattern::Ref(id) => {
                push_str(out, "(Ref");
                push_str(out, " ");
                push_decimal(out, *id as u64);
                push_str(out, ")");
            },
            Pattern::Wildcard => {
                push_str(out, "(Wildcard)");
            },
            Pattern::Literal(e) => {
                push_str(out, "(Literal");
                push_str(out, " ");
                e.push_text(out);
                push_str(out, ")");
            },
            Pattern::Symbol(s) => {
                push_str(out, "(Symbol");
                push_str(out, " ");
                push_str(out, s.as_str());
                push_str(out, ")");
            },
            Pattern::Null => {
                push_str(out, "(Null)");
            },
            Pattern::OptionSome(p) => {
                push_str(out, "(Some");
                push_str(out, " ");
                p.push_text(out);
                push_str(out, ")");
            },
            Pattern::ResultOk(p) => {
                push_str(out, "(Ok");
                push_str(out, " ");
                p.push_text(out);
                push_str(out, ")");
            },
            Pattern::ResultErr(p) => {
                push_str(out, "(Err");
                push_str(out, " ");
                p.push_text(out);
                push_str(out, ")");
            },
            Pattern::Range { from, to, inclusive } => {
                push_str(out, "(Range");
                push_str(out, " ");
                from.push_text(out);
                push_str(out, " ");
                to.push_text(out);
                push_str(out, " ");
                push_bool(out, *inclusive);
                push_str(out, ")");
            },
            Pattern::TupleDestructure(ps) => {
                push_str(out, "(TupleDestructure");
                push_str(out, " ");
                push_patterns(out, ps);
                push_str(out, ")");
            },
            Pattern::CallDestructure(e, ps) => {
                push_str(out, "(CallDestructure");
                push_str(out, " ");
                e.push_text(out);
                push_str(out, " ");
                push_patterns(out, ps);
                push_str(out, ")");
            },
            Pattern::ListDestructure(ps) => {
                push_str(out, "(ListDestructure");
                push_str(out, " ");
                push_patterns(out, ps);
                push_str(out, ")");
            },
            Pattern::ObjectDestructure(ps) => {
                push_str(out, "(ObjectDestructure");
                push_str(out, " ");
                push_patterns(out, ps);
                push_str(out, ")");
            },
            Pattern::ObjectCallDestructure(e, ps) => {
                push_str(out, "(ObjectCallDestructure");
                push_str(out, " ");
                e.push_text(out);
                push_str(out, " ");
                push_patterns(out, ps);
                push_str(out, ")");
            },
            Pattern::Property(s, p) => {
                push_str(out, "(Property");
                push_str(out, " ");
                push_str(out, s.as_str());
                push_str(out, " ");
                p.push_text(out);
                push_str(out, ")");
            },
            Pattern::Variable(s) => {
                push_str(out, "(Variable");
                push_str(out, " ");
                push_str(out, s.as_str());
                push_str(out, ")");
            },
        }
    }

    /// The printed form.
    pub fn to_display_string(&self) -> (r: String)
        ensures
            r@ == pattern_text(*self),
    {
        let mut out = String::new();
        self.push_text(&mut out);
        out
    }
}

impl Definition {
    /// Appends the printed form.
    #[verifier::rlimit(100)]
    #[verifier::spinoff_prover]
    pub fn push_text(&self, out: &mut String)
        ensures
            final(out)@ == old(out)@ + def_text(*self),
        decreases *self,
    {
        match self {
            Definition::Module(m) => {
                push_str(out, "(Module");
                push_str(out, " ");
                m.push_text(out);
                push_str(out, ")");
            },
            Definition::Struct(s) => {
                push_str(out, "(Struct");
                push_str(out, " ");
                s.push_text(out);
                push_str(out, ")");
            },
            Definition::StructField(name, ty, default) => match default {
                    Some(d) => {
                        push_str(out, "(StructField");
                        push_str(out, " ");
                        push_str(out, name.as_str());
                        push_str(out, " ");
                        ty.push_text(out);
                        push_str(out, " ");
                        d.push_text(out);
                        push_str(out, ")");
                    },
                    None => {
                        push_str(out, "(StructField");
                        push_str(out, " ");
                        push_str(out, name.as_str());
                        push_str(out, " ");
                        ty.push_text(out);
                        push_str(out, ")");
                    },
                },
            Definition::Enum(e) => {
                push_str(out, "(Enum");
                push_str(out, " ");
                e.push_text(out);
                push_str(out, ")");
            },
            Definition::EnumVariant(name) => {
                push_str(out, "(EnumVariant");
                push_str(out, " ");
                push_str(out, name.as_str());
                push_str(out, ")");
            },
            Definition::EnumVariantWithStruct(name, fields) => {
                push_str(out, "(EnumVariantWithStruct");
                push_str(out, " ");
                push_str(out, name.as_str());
                push_str(out, " ");
                push_defs(out, fields);
                push_str(out, ")");
            },
            Definition::EnumVariantWithTuple(name, types) => {
                push_str(out, "(EnumVariantWithTuple");
                push_str(out, " ");
                push_str(out, name.as_str());
                push_str(out, " ");
                push_exprs(out, types);
                push_str(out, ")");
            },
            Definition::EnumVariantWithPattern(name, p) => {
                push_str(out, "(EnumVariantWithPattern");
                push_str(out, " ");
                push_str(out, name.as_str());
                push_str(out, " ");
                p.push_text(out);
                push_str(out, ")");
            },
            Definition::EnumVariantWithSubEnum(name, variants) => {
                push_str(out, "(EnumVariantWithSubEnum");
                push_str(out, " ");
                push_str(out, name.as_str());
                push_str(out, " ");
                push_defs(out, variants);
                push_str(out, ")");
            },
            Definition::Function(func) => {
                push_str(out, "(Function");
                push_str(out, " ");
                func.push_text(out);
                push_str(out, ")");
            },
            Definition::FileScope { name, items, scope_id } => {
                push_str(out, "(FileScope");
                push_str(out, " ");
                push_str(out, name.as_str());
                push_str(out, " ");
                push_decimal(out, *scope_id as u64);
                push_str(out, " ");
                push_defs(out, items);
                push_str(out, ")");
            },
            Definition::Package { name, scope_id } => {
                push_str(out, "(Package");
                push_str(out, " ");
                push_str(out, name.as_str());
                push_str(out, " ");
                push_decimal(out, *scope_id as u64);
                push_str(out, ")");
            },
        }
    }

    /// The printed form.
    pub fn to_display_string(&self) -> (r: String)
        ensures
            r@ == def_text(*self),
    {
        let mut out = String::new();
        self.push_text(&mut out);
        out
    }
}

impl Clause {
    /// Appends the printed form.
    #[verifier::rlimit(100)]
    #[verifier::spinoff_prover]
    pub fn push_text(&self, out: &mut String)
        ensures
            final(out)@ == old(out)@ + clause_text(*self),
        decreases *self,
    {
        match self {
            Clause::TypeDecl { symbol, self_id, .. } => {
                push_str(out, "(TypeDecl");
                push_str(out, " ");
                push_str(out, symbol.as_str());
                push_str(out, " ");
                push_decimal(out, *self_id as u64);
                push_str(out, ")");
            },
            Clause::TypeTraitBounded { symbol, trait_bound, self_id, .. } => {
                push_str(out, "(TypeTraitBounded");
                push_str(out, " ");
                push_str(out, symbol.as_str());
                push_str(out, " ");
                push_decimal(out, *trait_bound as u64);
                push_str(out, " ");
                push_decimal(out, *self_id as u64);
                push_str(out, ")");
            },
            Clause::Decl { symbol, ty, default, self_id, .. } => match default {
                    Some(d) => {
                        push_str(out, "(Decl");
                        push_str(out, " ");
                        push_str(out, symbol.as_str());
                        push_str(out, " ");
                        push_decimal(out, *ty as u64);
                        push_str(out, " ");
                        push_decimal(out, *d as u64);
                        push_str(out, " ");
                        push_decimal(out, *self_id as u64);
                        push_str(out, ")");
                    },
                    None => {
                        push_str(out, "(Decl");
                        push_str(out, " ");
                        push_str(out, symbol.as_str());
                        push_str(out, " ");
                        push_decimal(out, *ty as u64);
                        push_str(out, " ");
                        push_decimal(out, *self_id as u64);
                        push_str(out, ")");
                    },
                },
            Clause::Requires => {
                push_str(out, "(Requires)");
            },
            Clause::Ensures => {
                push_str(out, "(Ensures)");
            },
            Clause::Decreases => {
                push_str(out, "(Decreases)");
            },
            Clause::Outcomes => {
                push_str(out, "(Outcomes)");
            },
        }
    }

    /// The printed form.
    pub fn to_display_string(&self) -> (r: String)
        ensures
            r@ == clause_text(*self),
    {
        let mut out = String::new();
        self.push_text(&mut out);
        out
    }
}

impl Param {
    /// Appends the printed form.
    #[verifier::rlimit(100)]
    #[verifier::spinoff_prover]
    pub fn push_text(&self, out: &mut String)
        ensures
            final(out)@ == old(out)@ + param_text(*self),
        decreases *self,
    {
        match self {
            Param::Itself { is_ref } => {
                push_str(out, "(Itself");
                push_str(out, " ");
                push_bool(out, *is_ref);
                push_str(out, ")");
            },
            Param::Typed(name, ty, default) => match default {
                    Some(d) => {
                        push_str(out, "(Typed");
                        push_str(out, " ");
                        push_str(out, name.as_str());
                        push_str(out, " ");
                        ty.push_text(out);
                        push_str(out, " ");
                        d.push_text(out);
                        push_str(out, ")");
                    },
                    None => {
                        push_str(out, "(Typed");
                        push_str(out, " ");
                        push_str(out, name.as_str());
                        push_str(out, " ");
                        ty.push_text(out);
                        push_str(out, ")");
                    },
                },
            Param::AutoCollectToTuple(name, ty) => {
                push_str(out, "(AutoCollectToTuple");
                push_str(out, " ");
                push_str(out, name.as_str());
                push_str(out, " ");
                ty.push_text(out);
                push_str(out, ")");
            },
            Param::AutoCollectToObject(name, ty) => {
                push_str(out, "(AutoCollectToObject");
                push_str(out, " ");
                push_str(out, name.as_str());
                push_str(out, " ");
                ty.push_text(out);
                push_str(out, ")");
            },
        }
    }

    /// The printed form.
    pub fn to_display_string(&self) -> (r: String)
        ensures
            r@ == param_text(*self),
    {
        let mut out = String::new();
        self.push_text(&mut out);
        out
    }
}

impl Import {
    /// Appends the printed form.
    #[verifier::rlimit(100)]
    #[verifier::spinoff_prover]
    pub fn push_text(&self, out: &mut String)
        ensures
            final(out)@ == old(out)@ + import_text(*self),
        decreases *self,
    {
        match self {
            Import::All(scope_id) => {
                push_str(out, "(ImportAll");
                push_str(out, " ");
                push_decimal(out, *scope_id as u64);
                push_str(out, ")");
            },
            Import::Multi(scope_id, symbols) => {
                push_str(out, "(ImportMulti");
                push_str(out, " ");
                push_decimal(out, *scope_id as u64);
                push_str(out, " ");
                push_symbols(out, symbols);
                push_str(out, ")");
            },
            Import::Single(scope_id, symbol) => {
                push_str(out, "(ImportSingle");
                push_str(out, " ");
                push_decimal(out, *scope_id as u64);
                push_str(out, " ");
                push_str(out, symbol.as_str());
                push_str(out, ")");
            },
            Import::Alias { scope_id, alias, original } => {
                push_str(out, "(ImportAlias");
                push_str(out, " ");
                push_decimal(out, *scope_id as u64);
                push_str(out, " ");
                push_str(out, alias.as_str());
                push_str(out, " ");
                push_str(out, original.as_str());
                push_str(out, ")");
            },
        }
    }

    /// The printed form.
    pub fn to_display_string(&self) -> (r: String)
        ensures
            r@ == import_text(*self),
    {
        let mut out = String::new();
        self.push_text(&mut out);
        out
    }
}

impl Function {
    /// Appends the printed form.
    pub fn push_text(&self, out: &mut String)
        ensures
            final(out)@ == old(out)@ + function_text(*self),
        decreases *self,
    {
        push_str(out, "(Function");
        push_str(out, " ");
        push_str(out, fn_kind_str(self.kind));
        push_str(out, " ");
        push_str(out, self.name.as_str());
        push_str(out, " ");
        push_ids(out, &self.clauses);
        push_str(out, " ");
        push_ids(out, &self.params);
        push_str(out, " ");
        self.body.push_text(out);
        push_str(out, ")");
    }

    /// The printed form.
    pub fn to_display_string(&self) -> (r: String)
        ensures
            r@ == function_text(*self),
    {
        let mut out = String::new();
        self.push_text(&mut out);
        out
    }
}

impl Module {
    /// Appends the printed form.
    pub fn push_text(&self, out: &mut String)
        ensures
            final(out)@ == old(out)@ + module_text(*self),
        decreases *self,
    {
        push_str(out, "(Module");
        push_str(out, " ");
        push_str(out, self.name.as_str());
        push_str(out, " ");
        push_clauses(out, &self.clauses);
        push_str(out, " ");
        push_decimal(out, self.scope_id as u64);
        push_str(out, ")");
    }

    /// The printed form.
    pub fn to_display_string(&self) -> (r: String)
        ensures
            r@ == module_text(*self),
    {
        let mut out = String::new();
        self.push_text(&mut out);
        out
    }
}

impl Struct {
    /// Appends the printed form.
    pub fn push_text(&self, out: &mut String)
        ensures
            final(out)@ == old(out)@ + struct_text(*self),
        decreases *self,
    {
        push_str(out, "(Struct");
        push_str(out, " ");
        push_str(out, self.name.as_str());
        push_str(out, " ");
        push_clauses(out, &self.clauses);
        push_str(out, " ");
        push_defs(out, &self.fields);
        push_str(out, " ");
        push_decimal(out, self.scope_id as u64);
        push_str(out, ")");
    }

    /// The printed form.
    pub fn to_display_string(&self) -> (r: String)
        ensures
            r@ == struct_text(*self),
    {
        let mut out = String::new();
        self.push_text(&mut out);
        out
    }
}

impl Enum {
    /// Appends the printed form.
    pub fn push_text(&self, out: &mut String)
        ensures
            final(out)@ == old(out)@ + enum_text(*self),
        decreases *self,
    {
        push_str(out, "(Enum");
        push_str(out, " ");
        push_str(out, self.name.as_str());
        push_str(out, " ");
        push_clauses(out, &self.clauses);
        push_str(out, " ");
        push_defs(out, &self.variants);
        push_str(out, " ");
        push_defs(out, &self.items);
        push_str(out, ")");
    }

    /// The printed form.
    pub fn to_display_string(&self) -> (r: String)
        ensures
            r@ == enum_text(*self),
    {
        let mut out = String::new();
        self.push_text(&mut out);
        out
    }
}

impl Property {
    /// Appends the printed form.
    pub fn push_text(&self, out: &mut String)
        ensures
            final(out)@ == old(out)@ + prop_text(*self),
        decreases *self,
    {
        push_str(out, "(Property");
        push_str(out, " ");
        push_str(out, self.name.as_str());
        push_str(out, " ");
        self.value.push_text(out);
        push_str(out, ")");
    }

    /// The printed form.
    pub fn to_display_string(&self) -> (r: String)
        ensures
            r@ == prop_text(*self),
    {
        let mut out = String::new();
        self.push_text(&mut out);
        out
    }
}


impl Clause {
    /// The node a clause parameter stands for; `None` for the contract
    /// clauses.
    pub fn self_id(&self) -> (r: Option<HirId>)
        ensures
            r == match *self {
                Clause::TypeDecl { self_id, .. } => Some(self_id),
                Clause::Decl { self_id, .. } => Some(self_id),
                Clause::TypeTraitBounded { self_id, .. } => Some(self_id),
                _ => None,
            },
    {
        match self {
            Clause::TypeDecl { self_id, .. } => Some(*self_id),
            Clause::Decl { self_id, .. } => Some(*self_id),
            Clause::TypeTraitBounded { self_id, .. } => Some(*self_id),
            _ => None,
        }
    }

    /// The definition that declares a clause parameter; `None` for the
    /// contract clauses.
    pub fn owner(&self) -> (r: Option<HirId>)
        ensures
            r == match *self {
                Clause::TypeDecl { owner, .. } => Some(owner),
                Clause::Decl { owner, .. } => Some(owner),
                Clause::TypeTraitBounded { owner, .. } => Some(owner),
                _ => None,
            },
    {
        match self {
            Clause::TypeDecl { owner, .. } => Some(*owner),
            Clause::Decl { owner, .. } => Some(*owner),
            Clause::TypeTraitBounded { owner, .. } => Some(*owner),
            _ => None,
        }
    }
}


/// The printed head of a compound expression and the printed forms of its
/// fields, in the order the variant declares them; an operator comes first.
/// `None` for the leaves that print in a form of their own.
pub open spec fn expr_field_texts(x: Expr) -> Option<(Seq<char>, Seq<Seq<char>>)> {
    match x {
        Expr::Ref(id) => Some(("(Ref"@, seq![decimal(id as nat)])),
        Expr::IntLiteral(n) => Some(("(IntLiteral"@, seq![signed_decimal(n as int)])),
        Expr::BoolLiteral(b) => Some(("(BoolLiteral"@, seq![bool_text(b)])),
        Expr::List(es) => Some(("(List"@, seq![exprs_text(es@)])),
        Expr::Tuple(es) => Some(("(Tuple"@, seq![exprs_text(es@)])),
        Expr::Object(es, ps) => Some(("(Object"@, seq![exprs_text(es@), props_text(ps@)])),
        Expr::Range { from, to, inclusive } => Some(("(Range"@, seq![expr_text(*from), expr_text(*to), bool_text(inclusive)])),
        Expr::Pattern(p) => Some(("(Pattern"@, seq![pattern_text(*p)])),
        Expr::FnApply { callee, args, optional_args } => Some(("(FnApply"@, seq![expr_text(*callee), exprs_text(args@), props_text(optional_args@)])),
        Expr::NormalFormFnApply { callee, args, optional_args } => Some(("(NormalFormFnApply"@, seq![expr_text(*callee), exprs_text(args@), props_text(optional_args@)])),
        Expr::FnObjectApply { callee, elements, properties } => Some(("(FnObjectApply"@, seq![expr_text(*callee), exprs_text(elements@), props_text(properties@)])),
        Expr::UnaryApply { expr, op } => Some(("(UnaryApply"@, seq![unary_op_name(op), expr_text(*expr)])),
        Expr::BinaryApply { left, right, op } => Some(("(BinaryApply"@, seq![binary_op_name(op), expr_text(*left), expr_text(*right)])),
        Expr::ObjectApply { callee, args, optional_args, object } => Some(("(ObjectApply"@, seq![expr_text(*callee), exprs_text(args@), props_text(optional_args@), expr_text(*object)])),
        Expr::Index(e, i) => Some(("(Index"@, seq![expr_text(*e), expr_text(*i)])),
        Expr::Matches(e, p) => Some(("(Matches"@, seq![expr_text(*e), pattern_text(*p)])),
        Expr::If { condition, then_branch, else_branch: Some(else_expr) } => Some(("(If"@, seq![expr_text(*condition), expr_text(*then_branch), expr_text(*else_expr)])),
        Expr::If { condition, then_branch, else_branch: None } => Some(("(If"@, seq![expr_text(*condition), expr_text(*then_branch)])),
        Expr::When { conditions, branches } => Some(("(When"@, seq![exprs_text(conditions@), exprs_text(branches@)])),
        Expr::Match { subject, arms } => Some(("(Match"@, seq![expr_text(*subject), patterns_text(arms@)])),
        Expr::While { condition, body } => Some(("(While"@, seq![expr_text(*condition), expr_text(*body)])),
        Expr::For { pattern, iterable, body } => Some(("(For"@, seq![pattern_text(*pattern), expr_text(*iterable), expr_text(*body)])),
        Expr::Let { pattern, ty, init } => Some(("(Let"@, seq![pattern_text(*pattern), expr_text(*ty), expr_text(*init)])),
        Expr::Const { pattern, ty, init } => Some(("(Const"@, seq![pattern_text(*pattern), expr_text(*ty), expr_text(*init)])),
        Expr::Assign { location, value } => Some(("(Assign"@, seq![expr_text(*location), expr_text(*value)])),
        Expr::Block(kind, es) => Some(("(Block"@, seq![block_kind_name(kind), exprs_text(es@)])),
        Expr::ExprStatement(e) => Some(("(ExprStatement"@, seq![expr_text(*e)])),
        Expr::Break(Some(l)) => Some(("(Break"@, seq![l@])),
        Expr::Continue(Some(l)) => Some(("(Continue"@, seq![l@])),
        Expr::Return(Some(e)) => Some(("(Return"@, seq![expr_text(*e)])),
        Expr::Resume(Some(e)) => Some(("(Resume"@, seq![expr_text(*e)])),
        Expr::TyInt(bits, signed) => Some(("(TyInt"@, seq![decimal(bits as nat), bool_text(signed)])),
        Expr::TyFloat(bits) => Some(("(TyFloat"@, seq![decimal(bits as nat)])),
        Expr::TyOptional(t) => Some(("(TyOptional"@, seq![expr_text(*t)])),
        Expr::TyTuple(ts) => Some(("(TyTuple"@, seq![exprs_text(ts@)])),
        Expr::TyPointer(t) => Some(("(TyPointer"@, seq![expr_text(*t)])),
        Expr::TyArray(t, size) => Some(("(TyArray"@, seq![expr_text(*t), expr_text(*size)])),
        Expr::TyScheme(params, t) => Some(("(TyScheme"@, seq![params_text(params@), expr_text(*t)])),
        Expr::TyNamed(name, def) => Some(("(TyNamed"@, seq![name@, def_text(*def)])),
        Expr::TyAlias(name, t) => Some(("(TyAlias"@, seq![name@, expr_text(*t)])),
        Expr::Select(left, id) => Some(("(Select"@, seq![expr_text(*left), id@])),
        _ => None,
    }
}

/// A space, then each part, in order.
pub open spec fn spaced_parts(ps: Seq<Seq<char>>) -> Seq<char>
    decreases ps.len(),
{
    if ps.len() == 0 {
        Seq::empty()
    } else {
        spaced_parts(ps.drop_last()) + " "@ + ps.last()
    }
}

proof fn lemma_spaced_parts(ps: Seq<Seq<char>>)
    requires
        1 <= ps.len() <= 4,
    ensures
        ps.len() == 1 ==> spaced_parts(ps) =~= " "@ + ps[0],
        ps.len() == 2 ==> spaced_parts(ps) =~= " "@ + ps[0] + " "@ + ps[1],
        ps.len() == 3 ==> spaced_parts(ps) =~= " "@ + ps[0] + " "@ + ps[1] + " "@ + ps[2],
        ps.len() == 4 ==> spaced_parts(ps) =~= " "@ + ps[0] + " "@ + ps[1] + " "@ + ps[2] + " "@ + ps[3],
{
    reveal_with_fuel(spaced_parts, 5);
    assert(ps.take(0) =~= ps.drop_last().drop_last().drop_last().drop_last().take(0));
    if ps.len() >= 2 {
        assert(ps.drop_last()[0] == ps[0]);
    }
    if ps.len() >= 3 {
        assert(ps.drop_last().drop_last()[0] == ps[0]);
        assert(ps.drop_last()[1] == ps[1]);
    }
    if ps.len() >= 4 {
        assert(ps.drop_last().drop_last().drop_last()[0] == ps[0]);
        assert(ps.drop_last().drop_last()[1] == ps[1]);
        assert(ps.drop_last()[2] == ps[2]);
    }
}

/// A compound expression prints as its head followed by its fields, each
/// after a space, in the order the variant declares them (an operator
/// first), and a closing parenthesis.
#[verifier::rlimit(100)]
#[verifier::spinoff_prover]
pub proof fn lemma_expr_prints_fields_in_order(x: Expr)
    requires
        expr_field_texts(x) is Some,
    ensures
        expr_text(x) == expr_field_texts(x).unwrap().0 + spaced_parts(expr_field_texts(x).unwrap().1) + ")"@,
{
    let hd = expr_field_texts(x).unwrap().0;
    let parts = expr_field_texts(x).unwrap().1;
    match x {
        Expr::Ref(id) => {
            assert(expr_text(x) =~= hd + spaced_parts(parts) + ")"@) by {
                lemma_spaced_parts(parts);
            }
        },
        Expr::IntLiteral(n) => {
            assert(expr_text(x) =~= hd + spaced_parts(parts) + ")"@) by {
                lemma_spaced_parts(parts);
            }
        },
        Expr::BoolLiteral(b) => {
            assert(expr_text(x) =~= hd + spaced_parts(parts) + ")"@) by {
                lemma_spaced_parts(parts);
            }
        },
        Expr::List(es) => {
            assert(expr_text(x) =~= hd + spaced_parts(parts) + ")"@) by {
                lemma_spaced_parts(parts);
            }
        },
        Expr::Tuple(es) => {
            assert(expr_text(x) =~= hd + spaced_parts(parts) + ")"@) by {
                lemma_spaced_parts(parts);
            }
        },
        Expr::Object(es, ps) => {
            assert(expr_text(x) =~= hd + spaced_parts(parts) + ")"@) by {
                lemma_spaced_parts(parts);
            }
        },
        Expr::Range { from, to, inclusive } => {
            assert(expr_text(x) =~= hd + spaced_parts(parts) + ")"@) by {
                lemma_spaced_parts(parts);
            }
        },
        Expr::Pattern(p) => {
            assert(expr_text(x) =~= hd + spaced_parts(parts) + ")"@) by {
                lemma_spaced_parts(parts);
            }
        },
        Expr::FnApply { callee, args, optional_args } => {
            assert(expr_text(x) =~= hd + spaced_parts(parts) + ")"@) by {
                lemma_spaced_parts(parts);
            }
        },
        Expr::NormalFormFnApply { callee, args, optional_args } => {
            assert(expr_text(x) =~= hd + spaced_parts(parts) + ")"@) by {
                lemma_spaced_parts(parts);
            }
        },
        Expr::FnObjectApply { callee, elements, properties } => {
            assert(expr_text(x) =~= hd + spaced_parts(parts) + ")"@) by {
                lemma_spaced_parts(parts);
            }
        },
        Expr::UnaryApply { expr, op } => {
            assert(expr_text(x) =~= hd + spaced_parts(parts) + ")"@) by {
                lemma_spaced_parts(parts);
            }
        },
        Expr::BinaryApply { left, right, op } => {
            assert(expr_text(x) =~= hd + spaced_parts(parts) + ")"@) by {
                lemma_spaced_parts(parts);
            }
        },
        Expr::ObjectApply { callee, args, optional_args, object } => {
            assert(expr_text(x) =~= hd + spaced_parts(parts) + ")"@) by {
                lemma_spaced_parts(parts);
            }
        },
        Expr::Index(e, i) => {
            assert(expr_text(x) =~= hd + spaced_parts(parts) + ")"@) by {
                lemma_spaced_parts(parts);
            }
        },
        Expr::Matches(e, p) => {
            assert(expr_text(x) =~= hd + spaced_parts(parts) + ")"@) by {
                lemma_spaced_parts(parts);
            }
        },
        Expr::If { condition, then_branch, else_branch: Some(else_expr) } => {
            assert(expr_text(x) =~= hd + spaced_parts(parts) + ")"@) by {
                lemma_spaced_parts(parts);
            }
        },
        Expr::If { condition, then_branch, else_branch: None } => {
            assert(expr_text(x) =~= hd + spaced_parts(parts) + ")"@) by {
                lemma_spaced_parts(parts);
            }
        },
        Expr::When { conditions, branches } => {
            assert(expr_text(x) =~= hd + spaced_parts(parts) + ")"@) by {
                lemma_spaced_parts(parts);
            }
        },
        Expr::Match { subject, arms } => {
            assert(expr_text(x) =~= hd + spaced_parts(parts) + ")"@) by {
                lemma_spaced_parts(parts);
            }
        },
        Expr::While { condition, body } => {
            assert(expr_text(x) =~= hd + spaced_parts(parts) + ")"@) by {
                lemma_spaced_parts(parts);
            }
        },
        Expr::For { pattern, iterable, body } => {
            assert(expr_text(x) =~= hd + spaced_parts(parts) + ")"@) by {
                lemma_spaced_parts(parts);
            }
        },
        Expr::Let { pattern, ty, init } => {
            assert(expr_text(x) =~= hd + spaced_parts(parts) + ")"@) by {
                lemma_spaced_parts(parts);
            }
        },
        Expr::Const { pattern, ty, init } => {
            assert(expr_text(x) =~= hd + spaced_parts(parts) + ")"@) by {
                lemma_spaced_parts(parts);
            }
        },
        Expr::Assign { location, value } => {
            assert(expr_text(x) =~= hd + spaced_parts(parts) + ")"@) by {
                lemma_spaced_parts(parts);
            }
        },
        Expr::Block(kind, es) => {
            assert(expr_text(x) =~= hd + spaced_parts(parts) + ")"@) by {
                lemma_spaced_parts(parts);
            }
        },
        Expr::ExprStatement(e) => {
            assert(expr_text(x) =~= hd + spaced_parts(parts) + ")"@) by {
                lemma_spaced_parts(parts);
            }
        },
        Expr::Break(Some(l)) => {
            assert(expr_text(x) =~= hd + spaced_parts(parts) + ")"@) by {
                lemma_spaced_parts(parts);
            }
        },
        Expr::Continue(Some(l)) => {
            assert(expr_text(x) =~= hd + spaced_parts(parts) + ")"@) by {
                lemma_spaced_parts(parts);
            }
        },
        Expr::Return(Some(e)) => {
            assert(expr_text(x) =~= hd + spaced_parts(parts) + ")"@) by {
                lemma_spaced_parts(parts);
            }
        },
        Expr::Resume(Some(e)) => {
            assert(expr_text(x) =~= hd + spaced_parts(parts) + ")"@) by {
                lemma_spaced_parts(parts);
            }
        },
        Expr::TyInt(bits, signed) => {
            assert(expr_text(x) =~= hd + spaced_parts(parts) + ")"@) by {
                lemma_spaced_parts(parts);
            }
        },
        Expr::TyFloat(bits) => {
            assert(expr_text(x) =~= hd + spaced_parts(parts) + ")"@) by {
                lemma_spaced_parts(parts);
            }
        },
        Expr::TyOptional(t) => {
            assert(expr_text(x) =~= hd + spaced_parts(parts) + ")"@) by {
                lemma_spaced_parts(parts);
            }
        },
        Expr::TyTuple(ts) => {
            assert(expr_text(x) =~= hd + spaced_parts(parts) + ")"@) by {
                lemma_spaced_parts(parts);
            }
        },
        Expr::TyPointer(t) => {
            assert(expr_text(x) =~= hd + spaced_parts(parts) + ")"@) by {
                lemma_spaced_parts(parts);
            }
        },
        Expr::TyArray(t, size) => {
            assert(expr_text(x) =~= hd + spaced_parts(parts) + ")"@) by {
                lemma_spaced_parts(parts);
            }
        },
        Expr::TyScheme(params, t) => {
            assert(expr_text(x) =~= hd + spaced_parts(parts) + ")"@) by {
                lemma_spaced_parts(parts);
            }
        },
        Expr::TyNamed(name, def) => {
            assert(expr_text(x) =~= hd + spaced_parts(parts) + ")"@) by {
                lemma_spaced_parts(parts);
            }
        },
        Expr::TyAlias(name, t) => {
            assert(expr_text(x) =~= hd + spaced_parts(parts) + ")"@) by {
                lemma_spaced_parts(parts);
            }
        },
        Expr::Select(left, id) => {
            assert(expr_text(x) =~= hd + spaced_parts(parts) + ")"@) by {
                lemma_spaced_parts(parts);
            }
        },
        _ => {},
    }
}

/// The printed head of a compound pattern and the printed forms of its
/// fields, in the order the variant declares them.
pub open spec fn pattern_field_texts(x: Pattern) -> Option<(Seq<char>, Seq<Seq<char>>)> {
    match x {
        Pattern::Ref(id) => Some(("(Ref"@, seq![decimal(id as nat)])),
        Pattern::Literal(e) => Some(("(Literal"@, seq![expr_text(*e)])),
        Pattern::Symbol(s) => Some(("(Symbol"@, seq![s@])),
        Pattern::OptionSome(q) => Some(("(Some"@, seq![pattern_text(*q)])),
        Pattern::ResultOk(q) => Some(("(Ok"@, seq![pattern_text(*q)])),
        Pattern::ResultErr(q) => Some(("(Err"@, seq![pattern_text(*q)])),
        Pattern::Range { from, to, inclusive } => Some(("(Range"@, seq![pattern_text(*from), pattern_text(*to), bool_text(inclusive)])),
        Pattern::TupleDestructure(qs) => Some(("(TupleDestructure"@, seq![patterns_text(qs@)])),
        Pattern::CallDestructure(e, qs) => Some(("(CallDestructure"@, seq![expr_text(*e), patterns_text(qs@)])),
        Pattern::ListDestructure(qs) => Some(("(ListDestructure"@, seq![patterns_text(qs@)])),
        Pattern::ObjectDestructure(qs) => Some(("(ObjectDestructure"@, seq![patterns_text(qs@)])),
        Pattern::ObjectCallDestructure(e, qs) => Some(("(ObjectCallDestructure"@, seq![expr_text(*e), patterns_text(qs@)])),
        Pattern::Property(s, q) => Some(("(Property"@, seq![s@, pattern_text(*q)])),
        Pattern::Variable(s) => Some(("(Variable"@, seq![s@])),
        _ => None,
    }
}

/// A compound pattern prints as its head followed by its fields, each after
/// a space, in the order the variant declares them, and a closing
/// parenthesis.
pub proof fn lemma_pattern_prints_fields_in_order(x: Pattern)
    requires
        pattern_field_texts(x) is Some,
    ensures
        pattern_text(x) == pattern_field_texts(x).unwrap().0 + spaced_parts(pattern_field_texts(x).unwrap().1) + ")"@,
{
    let hd = pattern_field_texts(x).unwrap().0;
    let parts = pattern_field_texts(x).unwrap().1;
    match x {
        Pattern::Ref(id) => {
            assert(pattern_text(x) =~= hd + spaced_parts(parts) + ")"@) by {
                lemma_spaced_parts(parts);
            }
        },
        Pattern::Literal(e) => {
            assert(pattern_text(x) =~= hd + spaced_parts(parts) + ")"@) by {
                lemma_spaced_parts(parts);
            }
        },
        Pattern::Symbol(s) => {
            assert(pattern_text(x) =~= hd + spaced_parts(parts) + ")"@) by {
                lemma_spaced_parts(parts);
            }
        },
        Pattern::OptionSome(q) => {
            assert(pattern_text(x) =~= hd + spaced_parts(parts) + ")"@) by {
                lemma_spaced_parts(parts);
            }
        },
        Pattern::ResultOk(q) => {
            assert(pattern_text(x) =~= hd + spaced_parts(parts) + ")"@) by {
                lemma_spaced_parts(parts);
            }
        },
        Pattern::ResultErr(q) => {
            assert(pattern_text(x) =~= hd + spaced_parts(parts) + ")"@) by {
                lemma_spaced_parts(parts);
            }
        },
        Pattern::Range { from, to, inclusive } => {
            assert(pattern_text(x) =~= hd + spaced_parts(parts) + ")"@) by {
                lemma_spaced_parts(parts);
            }
        },
        Pattern::TupleDestructure(qs) => {
            assert(pattern_text(x) =~= hd + spaced_parts(parts) + ")"@) by {
                lemma_spaced_parts(parts);
            }
        },
        Pattern::CallDestructure(e, qs) => {
            assert(pattern_text(x) =~= hd + spaced_parts(parts) + ")"@) by {
                lemma_spaced_parts(parts);
            }
        },
        Pattern::ListDestructure(qs) => {
            assert(pattern_text(x) =~= hd + spaced_parts(parts) + ")"@) by {
                lemma_spaced_parts(parts);
            }
        },
        Pattern::ObjectDestructure(qs) => {
            assert(pattern_text(x) =~= hd + spaced_parts(parts) + ")"@) by {
                lemma_spaced_parts(parts);
            }
        },
        Pattern::ObjectCallDestructure(e, qs) => {
            assert(pattern_text(x) =~= hd + spaced_parts(parts) + ")"@) by {
                lemma_spaced_parts(parts);
            }
        },
        Pattern::Property(s, q) => {
            assert(pattern_text(x) =~= hd + spaced_parts(parts) + ")"@) by {
                lemma_spaced_parts(parts);
            }
        },
        Pattern::Variable(s) => {
            assert(pattern_text(x) =~= hd + spaced_parts(parts) + ")"@) by {
                lemma_spaced_parts(parts);
            }
        },
        _ => {},
    }
}

} // verus!

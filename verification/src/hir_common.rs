//! Small shared pieces of the owner-based HIR: operators, binding modes,
//! function modifiers and the coarse kinds of definitions.
use vstd::prelude::*;

use crate::hir_id::OwnerId;

verus! {

/// Binary operators.
#[derive(Debug, Clone, Copy, PartialEq, Eq, Structural)]
pub enum BinOp {
    Add,
    Sub,
    Mul,
    Div,
    Rem,
    Eq,
    Ne,
    Lt,
    Gt,
    Le,
    Ge,
    And,
    Or,
}

/// The source text of a binary operator.
pub open spec fn bin_op_text(op: BinOp) -> Seq<char> {
    match op {
        BinOp::Add => "+"@,
        BinOp::Sub => "-"@,
        BinOp::Mul => "*"@,
        BinOp::Div => "/"@,
        BinOp::Rem => "%"@,
        BinOp::Eq => "=="@,
        BinOp::Ne => "!="@,
        BinOp::Lt => "<"@,
        BinOp::Gt => ">"@,
        BinOp::Le => "<="@,
        BinOp::Ge => ">="@,
        BinOp::And => "and"@,
        BinOp::Or => "or"@,
    }
}

impl BinOp {
    /// The operator as it is written in source.
    pub fn as_str(&self) -> (r: &'static str)
        ensures
            r@ == bin_op_text(*self),
    {
        match self {
            BinOp::Add => "+",
            BinOp::Sub => "-",
            BinOp::Mul => "*",
            BinOp::Div => "/",
            BinOp::Rem => "%",
            BinOp::Eq => "==",
            BinOp::Ne => "!=",
            BinOp::Lt => "<",
            BinOp::Gt => ">",
            BinOp::Le => "<=",
            BinOp::Ge => ">=",
            BinOp::And => "and",
            BinOp::Or => "or",
        }
    }

    /// The operator as it is written in source, as an owned string.
    pub fn to_display_string(&self) -> (r: String)
        ensures
            r@ == bin_op_text(*self),
    {
        String::from_str(self.as_str())
    }
}

/// Unary operators.
#[derive(Debug, Clone, Copy, PartialEq, Eq, Structural)]
pub enum UnOp {
    Neg,
    Not,
}

/// The source text of a unary operator.
pub open spec fn un_op_text(op: UnOp) -> Seq<char> {
    match op {
        UnOp::Neg => "-"@,
        UnOp::Not => "not"@,
    }
}

impl UnOp {
    /// The operator as it is written in source.
    pub fn as_str(&self) -> (r: &'static str)
        ensures
            r@ == un_op_text(*self),
    {
        match self {
            UnOp::Neg => "-",
            UnOp::Not => "not",
        }
    }

    /// The operator as it is written in source, as an owned string.
    pub fn to_display_string(&self) -> (r: String)
        ensures
            r@ == un_op_text(*self),
    {
        String::from_str(self.as_str())
    }
}

/// How a pattern binds its value.
#[derive(Debug, Clone, Copy, PartialEq, Eq, Structural)]
pub enum BindingMode {
    ByValue,
    ByRef,
}

/// Whether a range pattern includes its upper bound.
#[derive(Debug, Clone, Copy, PartialEq, Eq, Structural)]
pub enum BoundType {
    Inclusive,
    Exclusive,
}

/// Modifier flags on a function definition.
#[derive(Debug, Clone, Copy, PartialEq, Eq, Structural)]
pub struct FnModifiers {
    pub is_pure: bool,
    pub is_comptime: bool,
    pub is_extern: bool,
}

impl Default for FnModifiers {
    /// No modifier set.
    fn default() -> (r: FnModifiers)
        ensures
            !r.is_pure && !r.is_comptime && !r.is_extern,
    {
        FnModifiers { is_pure: false, is_comptime: false, is_extern: false }
    }
}

/// The body of a module: the owners of its items, in order.
pub struct ModDef {
    pub items: Vec<OwnerId>,
}

/// The coarse kind of a definition.
#[derive(Debug, Clone, Copy, PartialEq, Eq, Structural)]
pub enum DefKind {
    Fn,
    Struct,
    Enum,
    Mod,
    Impl,
    Trait,
    TypeAlias,
    Use,
    Const,
    Invalid,
}

} // verus!

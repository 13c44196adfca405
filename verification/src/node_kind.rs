//! Node kinds of the flat syntax tree and the layout of their child slots.
use vstd::prelude::*;

verus! {

/// The kind of a syntax-tree node.
#[derive(Clone, Copy, Debug, PartialEq, Eq, Structural)]
pub enum NodeKind {
    Invalid,
    Id,
    Str,
    Int,
    Real,
    Char,
    Bool,
    Unit,
    Symbol,
    Wildcard,
    LiteralExtension,
    ListOf,
    Tuple,
    Object,
    Lambda,
    BoolNot,
    Negative,
    ErrorNew,
    SelfLower,
    SelfCap,
    Null,
    Undefined,
    EffectQualifiedType,
    ErrorQualifiedType,
    ReachabilityQualifiedType,
    ClosureQualifiedType,
    OptionalType,
    TraitObjectType,
    PointerType,
    LiftType,
    ForallType,
    ForType,
    FnType,
    BoolForall,
    BoolExists,
    RangeFull,
    RangeTo,
    RangeToInclusive,
    RangeFrom,
    RangeFromTo,
    RangeFromToInclusive,
    Add,
    Sub,
    Mul,
    Div,
    Mod,
    AddAdd,
    BoolEq,
    BoolNotEq,
    BoolAnd,
    BoolOr,
    BoolGt,
    BoolGtEq,
    BoolLt,
    BoolLtEq,
    BoolImplies,
    BoolMatches,
    Arrow,
    TypedWith,
    Subtype,
    TraitBound,
    FieldMethodBound,
    DeclarationBound,
    Select,
    TakeView,
    Pipe,
    PipePrepend,
    Deref,
    Refer,
    Await,
    HandlerApplication,
    TypeCast,
    DynCast,
    EffectElimination,
    ErrorElimination,
    OptionElimination,
    EffectPropagation,
    ErrorPropagation,
    OptionPropagation,
    Application,
    IndexApplication,
    ExtendedApplication,
    NormalFormApplication,
    PostMatch,
    PostLambda,
    CaseArm,
    ConditionArm,
    CatchArm,
    ExprStatement,
    InlineStatement,
    Assign,
    AddAssign,
    SubAssign,
    MulAssign,
    DivAssign,
    ConstDecl,
    LetDecl,
    ReturnStatement,
    ResumeStatement,
    BreakStatement,
    ContinueStatement,
    IfStatement,
    IfIsMatch,
    IfMatch,
    WhenStatement,
    WhileStatement,
    WhileIsMatch,
    WhileMatch,
    ForStatement,
    IfGuardPattern,
    AndIsPattern,
    AsBindPattern,
    OrPattern,
    OptionSomePattern,
    ErrorOkPattern,
    ErrorPattern,
    RefPattern,
    ApplicationPattern,
    ExtendedApplicationPattern,
    NormalFormApplicationPattern,
    ExprAsPattern,
    RangeToPattern,
    RangeToInclusivePattern,
    RangeFromPattern,
    RangeFromToPattern,
    RangeFromToInclusivePattern,
    PropertyPattern,
    ListRestPattern,
    StructPattern,
    ListPattern,
    TuplePattern,
    BitVecBinPattern,
    BitVecOctPattern,
    BitVecHexPattern,
    AsyncPattern,
    NotPattern,
    TypeBindPattern,
    Function,
    NormalFormDef,
    AlgebraicEffect,
    ResultWithId,
    StructDef,
    StructField,
    EnumDef,
    PatternEnumVariant,
    ExprEnumVariant,
    TupleEnumVariant,
    StructEnumVariant,
    SubEnumEnumVariant,
    UnionDef,
    UnionVariant,
    TraitDef,
    AssocDecl,
    ImplDef,
    ImplTraitDef,
    ExtendDef,
    ExtendTraitDef,
    DeriveDef,
    CaseDef,
    TypealiasDef,
    NewtypeDef,
    ConstDef,
    ModuleDef,
    TestDef,
    ModStatement,
    UseStatement,
    ProjectionPath,
    ProjectionMultiPath,
    ProjectionAllPath,
    SuperPath,
    PackagePath,
    PathAsBind,
    Asserts,
    Assumes,
    Axiom,
    Invariant,
    Decreases,
    Outcomes,
    Requires,
    Ensures,
    TraitBoundDeclClause,
    TypeBoundDeclClause,
    OptionalDeclClause,
    VarargDeclClause,
    QuoteDeclClause,
    TypeDeclClause,
    OptionalParam,
    TypeBoundParam,
    TraitBoundParam,
    SelfParam,
    SelfRefParam,
    ItselfParam,
    ItselfRefParam,
    VarargParam,
    ComptimeParam,
    ErrorParam,
    CatchParam,
    LambdaParam,
    ImplicitParam,
    QuoteParam,
    AssocParam,
    AttrParam,
    Block,
    AtomicBlock,
    DoBlock,
    AsyncBlock,
    UnsafeBlock,
    ComptimeBlock,
    FileScope,
    Attribute,
    AttributeSetTrue,
    Property,
    OptionalArg,
    ExtendArg,
}

/// How the child slots of a node are laid out.
///
/// A plain slot holds a node index; an `N` slot holds the position, in the
/// children array, of a length-prefixed block of node indices.
#[derive(Clone, Copy, Debug, PartialEq, Eq, Structural)]
pub enum NodeType {
    NoChild,
    SingleChild,
    DoubleChildren,
    TripleChildren,
    QuadrupleChildren,
    MultiChildren,
    SingleWithMultiChildren,
    DoubleWithMultiChildren,
    TripleWithMultiChildren,
    FunctionDefChildren,
    NormalFormDefChildren,
    AlgebraicEffectChildren,
    TypeDefChildren,
    TraitDefChildren,
    ImplTraitDefChildren,
    ExtendTraitDefChildren,
    TypeAliasChildren,
    AssocDeclChildren,
    FnTypeChildren,
}

/// The child layout of each node kind.
pub open spec fn spec_node_type(kind: NodeKind) -> NodeType {
    match kind {
        NodeKind::Invalid | NodeKind::Id | NodeKind::Str | NodeKind::Int | NodeKind::Real | NodeKind::Char | NodeKind::Bool | NodeKind::Unit | NodeKind::Symbol | NodeKind::Wildcard | NodeKind::SelfLower | NodeKind::SelfCap | NodeKind::Null | NodeKind::Undefined | NodeKind::SelfParam | NodeKind::SelfRefParam | NodeKind::ItselfParam | NodeKind::ItselfRefParam | NodeKind::TypeDeclClause | NodeKind::RangeFull => NodeType::NoChild,
        NodeKind::BoolNot | NodeKind::Negative | NodeKind::ErrorNew | NodeKind::OptionalType | NodeKind::TraitObjectType | NodeKind::PointerType | NodeKind::LiftType | NodeKind::RangeTo | NodeKind::RangeToInclusive | NodeKind::RangeFrom | NodeKind::Deref | NodeKind::Refer | NodeKind::Await | NodeKind::EffectPropagation | NodeKind::ErrorPropagation | NodeKind::OptionPropagation | NodeKind::ExprStatement | NodeKind::InlineStatement | NodeKind::OptionSomePattern | NodeKind::ErrorOkPattern | NodeKind::ErrorPattern | NodeKind::RefPattern | NodeKind::ExprAsPattern | NodeKind::RangeToPattern | NodeKind::RangeToInclusivePattern | NodeKind::RangeFromPattern | NodeKind::ListRestPattern | NodeKind::AsyncPattern | NodeKind::NotPattern | NodeKind::TypeBindPattern | NodeKind::DoBlock | NodeKind::AsyncBlock | NodeKind::UnsafeBlock | NodeKind::ComptimeBlock | NodeKind::ComptimeParam | NodeKind::ErrorParam | NodeKind::CatchParam | NodeKind::LambdaParam | NodeKind::ImplicitParam | NodeKind::QuoteParam | NodeKind::AssocParam | NodeKind::QuoteDeclClause | NodeKind::ModStatement | NodeKind::UseStatement | NodeKind::ProjectionAllPath | NodeKind::SuperPath | NodeKind::PackagePath | NodeKind::ExtendArg | NodeKind::FieldMethodBound | NodeKind::DeclarationBound | NodeKind::Outcomes => NodeType::SingleChild,
        NodeKind::LiteralExtension | NodeKind::EffectQualifiedType | NodeKind::ErrorQualifiedType | NodeKind::ReachabilityQualifiedType | NodeKind::ClosureQualifiedType | NodeKind::RangeFromTo | NodeKind::RangeFromToInclusive | NodeKind::Add | NodeKind::Sub | NodeKind::Mul | NodeKind::Div | NodeKind::Mod | NodeKind::AddAdd | NodeKind::BoolEq | NodeKind::BoolNotEq | NodeKind::BoolAnd | NodeKind::BoolOr | NodeKind::BoolGt | NodeKind::BoolGtEq | NodeKind::BoolLt | NodeKind::BoolLtEq | NodeKind::BoolImplies | NodeKind::BoolMatches | NodeKind::Arrow | NodeKind::TypedWith | NodeKind::Subtype | NodeKind::TraitBound | NodeKind::Select | NodeKind::TypeBoundDeclClause | NodeKind::TakeView | NodeKind::Pipe | NodeKind::PipePrepend | NodeKind::HandlerApplication | NodeKind::TypeCast | NodeKind::DynCast | NodeKind::OptionElimination | NodeKind::PostLambda | NodeKind::Assign | NodeKind::AddAssign | NodeKind::SubAssign | NodeKind::MulAssign | NodeKind::DivAssign | NodeKind::IndexApplication | NodeKind::CaseArm | NodeKind::ConditionArm | NodeKind::CatchArm | NodeKind::OrPattern | NodeKind::RangeFromToPattern | NodeKind::RangeFromToInclusivePattern | NodeKind::PropertyPattern | NodeKind::PatternEnumVariant | NodeKind::ExprEnumVariant | NodeKind::VarargDeclClause | NodeKind::UnionVariant | NodeKind::TraitBoundDeclClause | NodeKind::ProjectionPath | NodeKind::PathAsBind | NodeKind::TypeBoundParam | NodeKind::TraitBoundParam | NodeKind::VarargParam | NodeKind::AttrParam | NodeKind::Property | NodeKind::OptionalArg | NodeKind::ModuleDef | NodeKind::TestDef | NodeKind::Attribute | NodeKind::ReturnStatement | NodeKind::ResumeStatement | NodeKind::BreakStatement | NodeKind::ContinueStatement | NodeKind::ResultWithId | NodeKind::AttributeSetTrue | NodeKind::Asserts | NodeKind::Assumes | NodeKind::Axiom | NodeKind::Invariant | NodeKind::Decreases | NodeKind::Requires | NodeKind::Ensures => NodeType::DoubleChildren,
        NodeKind::ConstDecl | NodeKind::ConstDef | NodeKind::LetDecl | NodeKind::IfStatement | NodeKind::WhileStatement | NodeKind::IfGuardPattern | NodeKind::AndIsPattern | NodeKind::AsBindPattern | NodeKind::OptionalDeclClause | NodeKind::OptionalParam | NodeKind::StructField => NodeType::TripleChildren,
        NodeKind::IfIsMatch | NodeKind::WhileIsMatch | NodeKind::ForStatement => NodeType::QuadrupleChildren,
        NodeKind::ListOf | NodeKind::Tuple | NodeKind::Object | NodeKind::Block | NodeKind::StructPattern | NodeKind::ListPattern | NodeKind::TuplePattern | NodeKind::WhenStatement | NodeKind::BitVecBinPattern | NodeKind::BitVecOctPattern | NodeKind::BitVecHexPattern | NodeKind::FileScope => NodeType::MultiChildren,
        NodeKind::ForallType | NodeKind::ForType | NodeKind::BoolForall | NodeKind::BoolExists | NodeKind::EffectElimination | NodeKind::ErrorElimination | NodeKind::Application | NodeKind::ExtendedApplication | NodeKind::NormalFormApplication | NodeKind::PostMatch | NodeKind::ApplicationPattern | NodeKind::ExtendedApplicationPattern | NodeKind::NormalFormApplicationPattern | NodeKind::IfMatch | NodeKind::TupleEnumVariant | NodeKind::StructEnumVariant | NodeKind::SubEnumEnumVariant | NodeKind::ProjectionMultiPath => NodeType::SingleWithMultiChildren,
        NodeKind::Lambda | NodeKind::AtomicBlock | NodeKind::WhileMatch | NodeKind::DeriveDef => NodeType::DoubleWithMultiChildren,
        NodeKind::Function => NodeType::FunctionDefChildren,
        NodeKind::NormalFormDef | NodeKind::CaseDef => NodeType::NormalFormDefChildren,
        NodeKind::AlgebraicEffect => NodeType::AlgebraicEffectChildren,
        NodeKind::StructDef | NodeKind::EnumDef | NodeKind::UnionDef | NodeKind::ImplDef | NodeKind::ExtendDef => NodeType::TypeDefChildren,
        NodeKind::TraitDef => NodeType::TraitDefChildren,
        NodeKind::ImplTraitDef => NodeType::ImplTraitDefChildren,
        NodeKind::ExtendTraitDef => NodeType::ExtendTraitDefChildren,
        NodeKind::TypealiasDef | NodeKind::NewtypeDef => NodeType::TypeAliasChildren,
        NodeKind::AssocDecl => NodeType::AssocDeclChildren,
        NodeKind::FnType => NodeType::FnTypeChildren,
    }
}

/// The name under which a node kind is printed.
pub open spec fn spec_kind_name(kind: NodeKind) -> Seq<char> {
    match kind {
            NodeKind::Invalid => "Invalid"@,
            NodeKind::Id => "Id"@,
            NodeKind::Str => "Str"@,
            NodeKind::Int => "Int"@,
            NodeKind::Real => "Real"@,
            NodeKind::Char => "Char"@,
            NodeKind::Bool => "Bool"@,
            NodeKind::Unit => "Unit"@,
            NodeKind::Symbol => "Symbol"@,
            NodeKind::Wildcard => "Wildcard"@,
            NodeKind::LiteralExtension => "LiteralExtension"@,
            NodeKind::ListOf => "ListOf"@,
            NodeKind::Tuple => "Tuple"@,
            NodeKind::Object => "Object"@,
            NodeKind::Lambda => "Lambda"@,
            NodeKind::BoolNot => "BoolNot"@,
            NodeKind::Negative => "Negative"@,
            NodeKind::ErrorNew => "ErrorNew"@,
            NodeKind::SelfLower => "SelfLower"@,
            NodeKind::SelfCap => "SelfCap"@,
            NodeKind::Null => "Null"@,
            NodeKind::Undefined => "Undefined"@,
            NodeKind::EffectQualifiedType => "EffectQualifiedType"@,
            NodeKind::ErrorQualifiedType => "ErrorQualifiedType"@,
            NodeKind::ReachabilityQualifiedType => "ReachabilityQualifiedType"@,
            NodeKind::ClosureQualifiedType => "ClosureQualifiedType"@,
            NodeKind::OptionalType => "OptionalType"@,
            NodeKind::TraitObjectType => "TraitObjectType"@,
            NodeKind::PointerType => "PointerType"@,
            NodeKind::LiftType => "LiftType"@,
            NodeKind::ForallType => "ForallType"@,
            NodeKind::ForType => "ForType"@,
            NodeKind::FnType => "FnType"@,
            NodeKind::BoolForall => "BoolForall"@,
            NodeKind::BoolExists => "BoolExists"@,
            NodeKind::RangeFull => "RangeFull"@,
            NodeKind::RangeTo => "RangeTo"@,
            NodeKind::RangeToInclusive => "RangeToInclusive"@,
            NodeKind::RangeFrom => "RangeFrom"@,
            NodeKind::RangeFromTo => "RangeFromTo"@,
            NodeKind::RangeFromToInclusive => "RangeFromToInclusive"@,
            NodeKind::Add => "Add"@,
            NodeKind::Sub => "Sub"@,
            NodeKind::Mul => "Mul"@,
            NodeKind::Div => "Div"@,
            NodeKind::Mod => "Mod"@,
            NodeKind::AddAdd => "AddAdd"@,
            NodeKind::BoolEq => "BoolEq"@,
            NodeKind::BoolNotEq => "BoolNotEq"@,
            NodeKind::BoolAnd => "BoolAnd"@,
            NodeKind::BoolOr => "BoolOr"@,
            NodeKind::BoolGt => "BoolGt"@,
            NodeKind::BoolGtEq => "BoolGtEq"@,
            NodeKind::BoolLt => "BoolLt"@,
            NodeKind::BoolLtEq => "BoolLtEq"@,
            NodeKind::BoolImplies => "BoolImplies"@,
            NodeKind::BoolMatches => "BoolMatches"@,
            NodeKind::Arrow => "Arrow"@,
            NodeKind::TypedWith => "TypedWith"@,
            NodeKind::Subtype => "Subtype"@,
            NodeKind::TraitBound => "TraitBound"@,
            NodeKind::FieldMethodBound => "FieldMethodBound"@,
            NodeKind::DeclarationBound => "DeclarationBound"@,
            NodeKind::Select => "Select"@,
            NodeKind::TakeView => "TakeView"@,
            NodeKind::Pipe => "Pipe"@,
            NodeKind::PipePrepend => "PipePrepend"@,
            NodeKind::Deref => "Deref"@,
            NodeKind::Refer => "Refer"@,
            NodeKind::Await => "Await"@,
            NodeKind::HandlerApplication => "HandlerApplication"@,
            NodeKind::TypeCast => "TypeCast"@,
            NodeKind::DynCast => "DynCast"@,
            NodeKind::EffectElimination => "EffectElimination"@,
            NodeKind::ErrorElimination => "ErrorElimination"@,
            NodeKind::OptionElimination => "OptionElimination"@,
            NodeKind::EffectPropagation => "EffectPropagation"@,
            NodeKind::ErrorPropagation => "ErrorPropagation"@,
            NodeKind::OptionPropagation => "OptionPropagation"@,
            NodeKind::Application => "Application"@,
            NodeKind::IndexApplication => "IndexApplication"@,
            NodeKind::ExtendedApplication => "ExtendedApplication"@,
            NodeKind::NormalFormApplication => "NormalFormApplication"@,
            NodeKind::PostMatch => "PostMatch"@,
            NodeKind::PostLambda => "PostLambda"@,
            NodeKind::CaseArm => "CaseArm"@,
            NodeKind::ConditionArm => "ConditionArm"@,
            NodeKind::CatchArm => "CatchArm"@,
            NodeKind::ExprStatement => "ExprStatement"@,
            NodeKind::InlineStatement => "InlineStatement"@,
            NodeKind::Assign => "Assign"@,
            NodeKind::AddAssign => "AddAssign"@,
            NodeKind::SubAssign => "SubAssign"@,
            NodeKind::MulAssign => "MulAssign"@,
            NodeKind::DivAssign => "DivAssign"@,
            NodeKind::ConstDecl => "ConstDecl"@,
            NodeKind::LetDecl => "LetDecl"@,
            NodeKind::ReturnStatement => "ReturnStatement"@,
            NodeKind::ResumeStatement => "ResumeStatement"@,
            NodeKind::BreakStatement => "BreakStatement"@,
            NodeKind::ContinueStatement => "ContinueStatement"@,
            NodeKind::IfStatement => "IfStatement"@,
            NodeKind::IfIsMatch => "IfIsMatch"@,
            NodeKind::IfMatch => "IfMatch"@,
            NodeKind::WhenStatement => "WhenStatement"@,
            NodeKind::WhileStatement => "WhileStatement"@,
            NodeKind::WhileIsMatch => "WhileIsMatch"@,
            NodeKind::WhileMatch => "WhileMatch"@,
            NodeKind::ForStatement => "ForStatement"@,
            NodeKind::IfGuardPattern => "IfGuardPattern"@,
            NodeKind::AndIsPattern => "AndIsPattern"@,
            NodeKind::AsBindPattern => "AsBindPattern"@,
            NodeKind::OrPattern => "OrPattern"@,
            NodeKind::OptionSomePattern => "OptionSomePattern"@,
            NodeKind::ErrorOkPattern => "ErrorOkPattern"@,
            NodeKind::ErrorPattern => "ErrorPattern"@,
            NodeKind::RefPattern => "RefPattern"@,
            NodeKind::ApplicationPattern => "ApplicationPattern"@,
            NodeKind::ExtendedApplicationPattern => "ExtendedApplicationPattern"@,
            NodeKind::NormalFormApplicationPattern => "NormalFormApplicationPattern"@,
            NodeKind::ExprAsPattern => "ExprAsPattern"@,
            NodeKind::RangeToPattern => "RangeToPattern"@,
            NodeKind::RangeToInclusivePattern => "RangeToInclusivePattern"@,
            NodeKind::RangeFromPattern => "RangeFromPattern"@,
            NodeKind::RangeFromToPattern => "RangeFromToPattern"@,
            NodeKind::RangeFromToInclusivePattern => "RangeFromToInclusivePattern"@,
            NodeKind::PropertyPattern => "PropertyPattern"@,
            NodeKind::ListRestPattern => "ListRestPattern"@,
            NodeKind::StructPattern => "StructPattern"@,
            NodeKind::ListPattern => "ListPattern"@,
            NodeKind::TuplePattern => "TuplePattern"@,
            NodeKind::BitVecBinPattern => "BitVecBinPattern"@,
            NodeKind::BitVecOctPattern => "BitVecOctPattern"@,
            NodeKind::BitVecHexPattern => "BitVecHexPattern"@,
            NodeKind::AsyncPattern => "AsyncPattern"@,
            NodeKind::NotPattern => "NotPattern"@,
            NodeKind::TypeBindPattern => "TypeBindPattern"@,
            NodeKind::Function => "Function"@,
            NodeKind::NormalFormDef => "NormalFormDef"@,
            NodeKind::AlgebraicEffect => "AlgebraicEffect"@,
            NodeKind::ResultWithId => "ResultWithId"@,
            NodeKind::StructDef => "StructDef"@,
            NodeKind::StructField => "StructField"@,
            NodeKind::EnumDef => "EnumDef"@,
            NodeKind::PatternEnumVariant => "PatternEnumVariant"@,
            NodeKind::ExprEnumVariant => "ExprEnumVariant"@,
            NodeKind::TupleEnumVariant => "TupleEnumVariant"@,
            NodeKind::StructEnumVariant => "StructEnumVariant"@,
            NodeKind::SubEnumEnumVariant => "SubEnumEnumVariant"@,
            NodeKind::UnionDef => "UnionDef"@,
            NodeKind::UnionVariant => "UnionVariant"@,
            NodeKind::TraitDef => "TraitDef"@,
            NodeKind::AssocDecl => "AssocDecl"@,
            NodeKind::ImplDef => "ImplDef"@,
            NodeKind::ImplTraitDef => "ImplTraitDef"@,
            NodeKind::ExtendDef => "ExtendDef"@,
            NodeKind::ExtendTraitDef => "ExtendTraitDef"@,
            NodeKind::DeriveDef => "DeriveDef"@,
            NodeKind::CaseDef => "CaseDef"@,
            NodeKind::TypealiasDef => "TypealiasDef"@,
            NodeKind::NewtypeDef => "NewtypeDef"@,
            NodeKind::ConstDef => "ConstDef"@,
            NodeKind::ModuleDef => "ModuleDef"@,
            NodeKind::TestDef => "TestDef"@,
            NodeKind::ModStatement => "ModStatement"@,
            NodeKind::UseStatement => "UseStatement"@,
            NodeKind::ProjectionPath => "ProjectionPath"@,
            NodeKind::ProjectionMultiPath => "ProjectionMultiPath"@,
            NodeKind::ProjectionAllPath => "ProjectionAllPath"@,
            NodeKind::SuperPath => "SuperPath"@,
            NodeKind::PackagePath => "PackagePath"@,
            NodeKind::PathAsBind => "PathAsBind"@,
            NodeKind::Asserts => "Asserts"@,
            NodeKind::Assumes => "Assumes"@,
            NodeKind::Axiom => "Axiom"@,
            NodeKind::Invariant => "Invariant"@,
            NodeKind::Decreases => "Decreases"@,
            NodeKind::Outcomes => "Outcomes"@,
            NodeKind::Requires => "Requires"@,
            NodeKind::Ensures => "Ensures"@,
            NodeKind::TraitBoundDeclClause => "TraitBoundDeclClause"@,
            NodeKind::TypeBoundDeclClause => "TypeBoundDeclClause"@,
            NodeKind::OptionalDeclClause => "OptionalDeclClause"@,
            NodeKind::VarargDeclClause => "VarargDeclClause"@,
            NodeKind::QuoteDeclClause => "QuoteDeclClause"@,
            NodeKind::TypeDeclClause => "TypeDeclClause"@,
            NodeKind::OptionalParam => "OptionalParam"@,
            NodeKind::TypeBoundParam => "TypeBoundParam"@,
            NodeKind::TraitBoundParam => "TraitBoundParam"@,
            NodeKind::SelfParam => "SelfParam"@,
            NodeKind::SelfRefParam => "SelfRefParam"@,
            NodeKind::ItselfParam => "ItselfParam"@,
            NodeKind::ItselfRefParam => "ItselfRefParam"@,
            NodeKind::VarargParam => "VarargParam"@,
            NodeKind::ComptimeParam => "ComptimeParam"@,
            NodeKind::ErrorParam => "ErrorParam"@,
            NodeKind::CatchParam => "CatchParam"@,
            NodeKind::LambdaParam => "LambdaParam"@,
            NodeKind::ImplicitParam => "ImplicitParam"@,
            NodeKind::QuoteParam => "QuoteParam"@,
            NodeKind::AssocParam => "AssocParam"@,
            NodeKind::AttrParam => "AttrParam"@,
            NodeKind::Block => "Block"@,
            NodeKind::AtomicBlock => "AtomicBlock"@,
            NodeKind::DoBlock => "DoBlock"@,
            NodeKind::AsyncBlock => "AsyncBlock"@,
            NodeKind::UnsafeBlock => "UnsafeBlock"@,
            NodeKind::ComptimeBlock => "ComptimeBlock"@,
            NodeKind::FileScope => "FileScope"@,
            NodeKind::Attribute => "Attribute"@,
            NodeKind::AttributeSetTrue => "AttributeSetTrue"@,
            NodeKind::Property => "Property"@,
            NodeKind::OptionalArg => "OptionalArg"@,
            NodeKind::ExtendArg => "ExtendArg"@,
    }
}

impl NodeKind {
    /// The child layout of this kind of node.
    pub fn node_type(&self) -> (r: NodeType)
        ensures
            r == spec_node_type(*self),
    {
        match *self {
            NodeKind::Invalid | NodeKind::Id | NodeKind::Str | NodeKind::Int | NodeKind::Real | NodeKind::Char | NodeKind::Bool | NodeKind::Unit | NodeKind::Symbol | NodeKind::Wildcard | NodeKind::SelfLower | NodeKind::SelfCap | NodeKind::Null | NodeKind::Undefined | NodeKind::SelfParam | NodeKind::SelfRefParam | NodeKind::ItselfParam | NodeKind::ItselfRefParam | NodeKind::TypeDeclClause | NodeKind::RangeFull => NodeType::NoChild,
            NodeKind::BoolNot | NodeKind::Negative | NodeKind::ErrorNew | NodeKind::OptionalType | NodeKind::TraitObjectType | NodeKind::PointerType | NodeKind::LiftType | NodeKind::RangeTo | NodeKind::RangeToInclusive | NodeKind::RangeFrom | NodeKind::Deref | NodeKind::Refer | NodeKind::Await | NodeKind::EffectPropagation | NodeKind::ErrorPropagation | NodeKind::OptionPropagation | NodeKind::ExprStatement | NodeKind::InlineStatement | NodeKind::OptionSomePattern | NodeKind::ErrorOkPattern | NodeKind::ErrorPattern | NodeKind::RefPattern | NodeKind::ExprAsPattern | NodeKind::RangeToPattern | NodeKind::RangeToInclusivePattern | NodeKind::RangeFromPattern | NodeKind::ListRestPattern | NodeKind::AsyncPattern | NodeKind::NotPattern | NodeKind::TypeBindPattern | NodeKind::DoBlock | NodeKind::AsyncBlock | NodeKind::UnsafeBlock | NodeKind::ComptimeBlock | NodeKind::ComptimeParam | NodeKind::ErrorParam | NodeKind::CatchParam | NodeKind::LambdaParam | NodeKind::ImplicitParam | NodeKind::QuoteParam | NodeKind::AssocParam | NodeKind::QuoteDeclClause | NodeKind::ModStatement | NodeKind::UseStatement | NodeKind::ProjectionAllPath | NodeKind::SuperPath | NodeKind::PackagePath | NodeKind::ExtendArg | NodeKind::FieldMethodBound | NodeKind::DeclarationBound | NodeKind::Outcomes => NodeType::SingleChild,
            NodeKind::LiteralExtension | NodeKind::EffectQualifiedType | NodeKind::ErrorQualifiedType | NodeKind::ReachabilityQualifiedType | NodeKind::ClosureQualifiedType | NodeKind::RangeFromTo | NodeKind::RangeFromToInclusive | NodeKind::Add | NodeKind::Sub | NodeKind::Mul | NodeKind::Div | NodeKind::Mod | NodeKind::AddAdd | NodeKind::BoolEq | NodeKind::BoolNotEq | NodeKind::BoolAnd | NodeKind::BoolOr | NodeKind::BoolGt | NodeKind::BoolGtEq | NodeKind::BoolLt | NodeKind::BoolLtEq | NodeKind::BoolImplies | NodeKind::BoolMatches | NodeKind::Arrow | NodeKind::TypedWith | NodeKind::Subtype | NodeKind::TraitBound | NodeKind::Select | NodeKind::TypeBoundDeclClause | NodeKind::TakeView | NodeKind::Pipe | NodeKind::PipePrepend | NodeKind::HandlerApplication | NodeKind::TypeCast | NodeKind::DynCast | NodeKind::OptionElimination | NodeKind::PostLambda | NodeKind::Assign | NodeKind::AddAssign | NodeKind::SubAssign | NodeKind::MulAssign | NodeKind::DivAssign | NodeKind::IndexApplication | NodeKind::CaseArm | NodeKind::ConditionArm | NodeKind::CatchArm | NodeKind::OrPattern | NodeKind::RangeFromToPattern | NodeKind::RangeFromToInclusivePattern | NodeKind::PropertyPattern | NodeKind::PatternEnumVariant | NodeKind::ExprEnumVariant | NodeKind::VarargDeclClause | NodeKind::UnionVariant | NodeKind::TraitBoundDeclClause | NodeKind::ProjectionPath | NodeKind::PathAsBind | NodeKind::TypeBoundParam | NodeKind::TraitBoundParam | NodeKind::VarargParam | NodeKind::AttrParam | NodeKind::Property | NodeKind::OptionalArg | NodeKind::ModuleDef | NodeKind::TestDef | NodeKind::Attribute | NodeKind::ReturnStatement | NodeKind::ResumeStatement | NodeKind::BreakStatement | NodeKind::ContinueStatement | NodeKind::ResultWithId | NodeKind::AttributeSetTrue | NodeKind::Asserts | NodeKind::Assumes | NodeKind::Axiom | NodeKind::Invariant | NodeKind::Decreases | NodeKind::Requires | NodeKind::Ensures => NodeType::DoubleChildren,
            NodeKind::ConstDecl | NodeKind::ConstDef | NodeKind::LetDecl | NodeKind::IfStatement | NodeKind::WhileStatement | NodeKind::IfGuardPattern | NodeKind::AndIsPattern | NodeKind::AsBindPattern | NodeKind::OptionalDeclClause | NodeKind::OptionalParam | NodeKind::StructField => NodeType::TripleChildren,
            NodeKind::IfIsMatch | NodeKind::WhileIsMatch | NodeKind::ForStatement => NodeType::QuadrupleChildren,
            NodeKind::ListOf | NodeKind::Tuple | NodeKind::Object | NodeKind::Block | NodeKind::StructPattern | NodeKind::ListPattern | NodeKind::TuplePattern | NodeKind::WhenStatement | NodeKind::BitVecBinPattern | NodeKind::BitVecOctPattern | NodeKind::BitVecHexPattern | NodeKind::FileScope => NodeType::MultiChildren,
            NodeKind::ForallType | NodeKind::ForType | NodeKind::BoolForall | NodeKind::BoolExists | NodeKind::EffectElimination | NodeKind::ErrorElimination | NodeKind::Application | NodeKind::ExtendedApplication | NodeKind::NormalFormApplication | NodeKind::PostMatch | NodeKind::ApplicationPattern | NodeKind::ExtendedApplicationPattern | NodeKind::NormalFormApplicationPattern | NodeKind::IfMatch | NodeKind::TupleEnumVariant | NodeKind::StructEnumVariant | NodeKind::SubEnumEnumVariant | NodeKind::ProjectionMultiPath => NodeType::SingleWithMultiChildren,
            NodeKind::Lambda | NodeKind::AtomicBlock | NodeKind::WhileMatch | NodeKind::DeriveDef => NodeType::DoubleWithMultiChildren,
            NodeKind::Function => NodeType::FunctionDefChildren,
            NodeKind::NormalFormDef | NodeKind::CaseDef => NodeType::NormalFormDefChildren,
            NodeKind::AlgebraicEffect => NodeType::AlgebraicEffectChildren,
            NodeKind::StructDef | NodeKind::EnumDef | NodeKind::UnionDef | NodeKind::ImplDef | NodeKind::ExtendDef => NodeType::TypeDefChildren,
            NodeKind::TraitDef => NodeType::TraitDefChildren,
            NodeKind::ImplTraitDef => NodeType::ImplTraitDefChildren,
            NodeKind::ExtendTraitDef => NodeType::ExtendTraitDefChildren,
            NodeKind::TypealiasDef | NodeKind::NewtypeDef => NodeType::TypeAliasChildren,
            NodeKind::AssocDecl => NodeType::AssocDeclChildren,
            NodeKind::FnType => NodeType::FnTypeChildren,
        }
    }

    /// The printed name of this kind of node.
    pub fn kind_name(&self) -> (r: &'static str)
        ensures
            r@ == spec_kind_name(*self),
    {
        match *self {
            NodeKind::Invalid => "Invalid",
            NodeKind::Id => "Id",
            NodeKind::Str => "Str",
            NodeKind::Int => "Int",
            NodeKind::Real => "Real",
            NodeKind::Char => "Char",
            NodeKind::Bool => "Bool",
            NodeKind::Unit => "Unit",
            NodeKind::Symbol => "Symbol",
            NodeKind::Wildcard => "Wildcard",
            NodeKind::LiteralExtension => "LiteralExtension",
            NodeKind::ListOf => "ListOf",
            NodeKind::Tuple => "Tuple",
            NodeKind::Object => "Object",
            NodeKind::Lambda => "Lambda",
            NodeKind::BoolNot => "BoolNot",
            NodeKind::Negative => "Negative",
            NodeKind::ErrorNew => "ErrorNew",
            NodeKind::SelfLower => "SelfLower",
            NodeKind::SelfCap => "SelfCap",
            NodeKind::Null => "Null",
            NodeKind::Undefined => "Undefined",
            NodeKind::EffectQualifiedType => "EffectQualifiedType",
            NodeKind::ErrorQualifiedType => "ErrorQualifiedType",
            NodeKind::ReachabilityQualifiedType => "ReachabilityQualifiedType",
            NodeKind::ClosureQualifiedType => "ClosureQualifiedType",
            NodeKind::OptionalType => "OptionalType",
            NodeKind::TraitObjectType => "TraitObjectType",
            NodeKind::PointerType => "PointerType",
            NodeKind::LiftType => "LiftType",
            NodeKind::ForallType => "ForallType",
            NodeKind::ForType => "ForType",
            NodeKind::FnType => "FnType",
            NodeKind::BoolForall => "BoolForall",
            NodeKind::BoolExists => "BoolExists",
            NodeKind::RangeFull => "RangeFull",
            NodeKind::RangeTo => "RangeTo",
            NodeKind::RangeToInclusive => "RangeToInclusive",
            NodeKind::RangeFrom => "RangeFrom",
            NodeKind::RangeFromTo => "RangeFromTo",
            NodeKind::RangeFromToInclusive => "RangeFromToInclusive",
            NodeKind::Add => "Add",
            NodeKind::Sub => "Sub",
            NodeKind::Mul => "Mul",
            NodeKind::Div => "Div",
            NodeKind::Mod => "Mod",
            NodeKind::AddAdd => "AddAdd",
            NodeKind::BoolEq => "BoolEq",
            NodeKind::BoolNotEq => "BoolNotEq",
            NodeKind::BoolAnd => "BoolAnd",
            NodeKind::BoolOr => "BoolOr",
            NodeKind::BoolGt => "BoolGt",
            NodeKind::BoolGtEq => "BoolGtEq",
            NodeKind::BoolLt => "BoolLt",
            NodeKind::BoolLtEq => "BoolLtEq",
            NodeKind::BoolImplies => "BoolImplies",
            NodeKind::BoolMatches => "BoolMatches",
            NodeKind::Arrow => "Arrow",
            NodeKind::TypedWith => "TypedWith",
            NodeKind::Subtype => "Subtype",
            NodeKind::TraitBound => "TraitBound",
            NodeKind::FieldMethodBound => "FieldMethodBound",
            NodeKind::DeclarationBound => "DeclarationBound",
            NodeKind::Select => "Select",
            NodeKind::TakeView => "TakeView",
            NodeKind::Pipe => "Pipe",
            NodeKind::PipePrepend => "PipePrepend",
            NodeKind::Deref => "Deref",
            NodeKind::Refer => "Refer",
            NodeKind::Await => "Await",
            NodeKind::HandlerApplication => "HandlerApplication",
            NodeKind::TypeCast => "TypeCast",
            NodeKind::DynCast => "DynCast",
            NodeKind::EffectElimination => "EffectElimination",
            NodeKind::ErrorElimination => "ErrorElimination",
            NodeKind::OptionElimination => "OptionElimination",
            NodeKind::EffectPropagation => "EffectPropagation",
            NodeKind::ErrorPropagation => "ErrorPropagation",
            NodeKind::OptionPropagation => "OptionPropagation",
            NodeKind::Application => "Application",
            NodeKind::IndexApplication => "IndexApplication",
            NodeKind::ExtendedApplication => "ExtendedApplication",
            NodeKind::NormalFormApplication => "NormalFormApplication",
            NodeKind::PostMatch => "PostMatch",
            NodeKind::PostLambda => "PostLambda",
            NodeKind::CaseArm => "CaseArm",
            NodeKind::ConditionArm => "ConditionArm",
            NodeKind::CatchArm => "CatchArm",
            NodeKind::ExprStatement => "ExprStatement",
            NodeKind::InlineStatement => "InlineStatement",
            NodeKind::Assign => "Assign",
            NodeKind::AddAssign => "AddAssign",
            NodeKind::SubAssign => "SubAssign",
            NodeKind::MulAssign => "MulAssign",
            NodeKind::DivAssign => "DivAssign",
            NodeKind::ConstDecl => "ConstDecl",
            NodeKind::LetDecl => "LetDecl",
            NodeKind::ReturnStatement => "ReturnStatement",
            NodeKind::ResumeStatement => "ResumeStatement",
            NodeKind::BreakStatement => "BreakStatement",
            NodeKind::ContinueStatement => "ContinueStatement",
            NodeKind::IfStatement => "IfStatement",
            NodeKind::IfIsMatch => "IfIsMatch",
            NodeKind::IfMatch => "IfMatch",
            NodeKind::WhenStatement => "WhenStatement",
            NodeKind::WhileStatement => "WhileStatement",
            NodeKind::WhileIsMatch => "WhileIsMatch",
            NodeKind::WhileMatch => "WhileMatch",
            NodeKind::ForStatement => "ForStatement",
            NodeKind::IfGuardPattern => "IfGuardPattern",
            NodeKind::AndIsPattern => "AndIsPattern",
            NodeKind::AsBindPattern => "AsBindPattern",
            NodeKind::OrPattern => "OrPattern",
            NodeKind::OptionSomePattern => "OptionSomePattern",
            NodeKind::ErrorOkPattern => "ErrorOkPattern",
            NodeKind::ErrorPattern => "ErrorPattern",
            NodeKind::RefPattern => "RefPattern",
            NodeKind::ApplicationPattern => "ApplicationPattern",
            NodeKind::ExtendedApplicationPattern => "ExtendedApplicationPattern",
            NodeKind::NormalFormApplicationPattern => "NormalFormApplicationPattern",
            NodeKind::ExprAsPattern => "ExprAsPattern",
            NodeKind::RangeToPattern => "RangeToPattern",
            NodeKind::RangeToInclusivePattern => "RangeToInclusivePattern",
            NodeKind::RangeFromPattern => "RangeFromPattern",
            NodeKind::RangeFromToPattern => "RangeFromToPattern",
            NodeKind::RangeFromToInclusivePattern => "RangeFromToInclusivePattern",
            NodeKind::PropertyPattern => "PropertyPattern",
            NodeKind::ListRestPattern => "ListRestPattern",
            NodeKind::StructPattern => "StructPattern",
            NodeKind::ListPattern => "ListPattern",
            NodeKind::TuplePattern => "TuplePattern",
            NodeKind::BitVecBinPattern => "BitVecBinPattern",
            NodeKind::BitVecOctPattern => "BitVecOctPattern",
            NodeKind::BitVecHexPattern => "BitVecHexPattern",
            NodeKind::AsyncPattern => "AsyncPattern",
            NodeKind::NotPattern => "NotPattern",
            NodeKind::TypeBindPattern => "TypeBindPattern",
            NodeKind::Function => "Function",
            NodeKind::NormalFormDef => "NormalFormDef",
            NodeKind::AlgebraicEffect => "AlgebraicEffect",
            NodeKind::ResultWithId => "ResultWithId",
            NodeKind::StructDef => "StructDef",
            NodeKind::StructField => "StructField",
            NodeKind::EnumDef => "EnumDef",
            NodeKind::PatternEnumVariant => "PatternEnumVariant",
            NodeKind::ExprEnumVariant => "ExprEnumVariant",
            NodeKind::TupleEnumVariant => "TupleEnumVariant",
            NodeKind::StructEnumVariant => "StructEnumVariant",
            NodeKind::SubEnumEnumVariant => "SubEnumEnumVariant",
            NodeKind::UnionDef => "UnionDef",
            NodeKind::UnionVariant => "UnionVariant",
            NodeKind::TraitDef => "TraitDef",
            NodeKind::AssocDecl => "AssocDecl",
            NodeKind::ImplDef => "ImplDef",
            NodeKind::ImplTraitDef => "ImplTraitDef",
            NodeKind::ExtendDef => "ExtendDef",
            NodeKind::ExtendTraitDef => "ExtendTraitDef",
            NodeKind::DeriveDef => "DeriveDef",
            NodeKind::CaseDef => "CaseDef",
            NodeKind::TypealiasDef => "TypealiasDef",
            NodeKind::NewtypeDef => "NewtypeDef",
            NodeKind::ConstDef => "ConstDef",
            NodeKind::ModuleDef => "ModuleDef",
            NodeKind::TestDef => "TestDef",
            NodeKind::ModStatement => "ModStatement",
            NodeKind::UseStatement => "UseStatement",
            NodeKind::ProjectionPath => "ProjectionPath",
            NodeKind::ProjectionMultiPath => "ProjectionMultiPath",
            NodeKind::ProjectionAllPath => "ProjectionAllPath",
            NodeKind::SuperPath => "SuperPath",
            NodeKind::PackagePath => "PackagePath",
            NodeKind::PathAsBind => "PathAsBind",
            NodeKind::Asserts => "Asserts",
            NodeKind::Assumes => "Assumes",
            NodeKind::Axiom => "Axiom",
            NodeKind::Invariant => "Invariant",
            NodeKind::Decreases => "Decreases",
            NodeKind::Outcomes => "Outcomes",
            NodeKind::Requires => "Requires",
            NodeKind::Ensures => "Ensures",
            NodeKind::TraitBoundDeclClause => "TraitBoundDeclClause",
            NodeKind::TypeBoundDeclClause => "TypeBoundDeclClause",
            NodeKind::OptionalDeclClause => "OptionalDeclClause",
            NodeKind::VarargDeclClause => "VarargDeclClause",
            NodeKind::QuoteDeclClause => "QuoteDeclClause",
            NodeKind::TypeDeclClause => "TypeDeclClause",
            NodeKind::OptionalParam => "OptionalParam",
            NodeKind::TypeBoundParam => "TypeBoundParam",
            NodeKind::TraitBoundParam => "TraitBoundParam",
            NodeKind::SelfParam => "SelfParam",
            NodeKind::SelfRefParam => "SelfRefParam",
            NodeKind::ItselfParam => "ItselfParam",
            NodeKind::ItselfRefParam => "ItselfRefParam",
            NodeKind::VarargParam => "VarargParam",
            NodeKind::ComptimeParam => "ComptimeParam",
            NodeKind::ErrorParam => "ErrorParam",
            NodeKind::CatchParam => "CatchParam",
            NodeKind::LambdaParam => "LambdaParam",
            NodeKind::ImplicitParam => "ImplicitParam",
            NodeKind::QuoteParam => "QuoteParam",
            NodeKind::AssocParam => "AssocParam",
            NodeKind::AttrParam => "AttrParam",
            NodeKind::Block => "Block",
            NodeKind::AtomicBlock => "AtomicBlock",
            NodeKind::DoBlock => "DoBlock",
            NodeKind::AsyncBlock => "AsyncBlock",
            NodeKind::UnsafeBlock => "UnsafeBlock",
            NodeKind::ComptimeBlock => "ComptimeBlock",
            NodeKind::FileScope => "FileScope",
            NodeKind::Attribute => "Attribute",
            NodeKind::AttributeSetTrue => "AttributeSetTrue",
            NodeKind::Property => "Property",
            NodeKind::OptionalArg => "OptionalArg",
            NodeKind::ExtendArg => "ExtendArg",
        }
    }
}

} // verus!

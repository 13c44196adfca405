//! Semantic types.
use vstd::prelude::*;

use crate::hir_id::LocalDefId;
use crate::text::{decimal, push_decimal, push_str, str_eq};

verus! {

/// Pointer mutability.
#[derive(Clone, Copy, Debug, PartialEq, Eq, Structural)]
pub enum Mutability {
    Immutable,
    Mutable,
}

/// Built-in primitive types.
#[derive(Clone, Copy, Debug, PartialEq, Eq, Structural)]
pub enum PrimTy {
    I8,
    I16,
    I32,
    I64,
    Isize,
    U8,
    U16,
    U32,
    U64,
    Usize,
    F32,
    F64,
    Bool,
    Char,
    Str,
    Symbol,
    Integer,
    Float,
}

pub open spec fn prim_name(p: PrimTy) -> Seq<char> {
    match p {
        PrimTy::I8 => "i8"@,
        PrimTy::I16 => "i16"@,
        PrimTy::I32 => "i32"@,
        PrimTy::I64 => "i64"@,
        PrimTy::Isize => "isize"@,
        PrimTy::U8 => "u8"@,
        PrimTy::U16 => "u16"@,
        PrimTy::U32 => "u32"@,
        PrimTy::U64 => "u64"@,
        PrimTy::Usize => "usize"@,
        PrimTy::F32 => "f32"@,
        PrimTy::F64 => "f64"@,
        PrimTy::Bool => "bool"@,
        PrimTy::Char => "char"@,
        PrimTy::Str => "str"@,
        PrimTy::Symbol => "Symbol"@,
        PrimTy::Integer => "Integer"@,
        PrimTy::Float => "Float"@,
    }
}

impl PrimTy {
    pub fn is_signed_int(self) -> (r: bool)
        ensures
            r == (self is I8 || self is I16 || self is I32 || self is I64 || self is Isize),
    {
        match self {
            PrimTy::I8 | PrimTy::I16 | PrimTy::I32 | PrimTy::I64 | PrimTy::Isize => true,
            _ => false,
        }
    }

    pub fn is_unsigned_int(self) -> (r: bool)
        ensures
            r == (self is U8 || self is U16 || self is U32 || self is U64 || self is Usize),
    {
        match self {
            PrimTy::U8 | PrimTy::U16 | PrimTy::U32 | PrimTy::U64 | PrimTy::Usize => true,
            _ => false,
        }
    }

    pub fn is_int(self) -> (r: bool)
        ensures
            r == (self is I8 || self is I16 || self is I32 || self is I64 || self is Isize || self is U8
                || self is U16 || self is U32 || self is U64 || self is Usize),
    {
        self.is_signed_int() || self.is_unsigned_int()
    }

    pub fn is_float(self) -> (r: bool)
        ensures
            r == (self is F32 || self is F64),
    {
        match self {
            PrimTy::F32 | PrimTy::F64 => true,
            _ => false,
        }
    }

    pub fn is_numeric(self) -> (r: bool)
        ensures
            r == (self is I8 || self is I16 || self is I32 || self is I64 || self is Isize || self is U8
                || self is U16 || self is U32 || self is U64 || self is Usize || self is F32 || self is F64),
    {
        self.is_int() || self.is_float()
    }

    /// The source name of the type.
    pub fn name(self) -> (r: &'static str)
        ensures
            r@ == prim_name(self),
    {
        match self {
            PrimTy::I8 => "i8",
            PrimTy::I16 => "i16",
            PrimTy::I32 => "i32",
            PrimTy::I64 => "i64",
            PrimTy::Isize => "isize",
            PrimTy::U8 => "u8",
            PrimTy::U16 => "u16",
            PrimTy::U32 => "u32",
            PrimTy::U64 => "u64",
            PrimTy::Usize => "usize",
            PrimTy::F32 => "f32",
            PrimTy::F64 => "f64",
            PrimTy::Bool => "bool",
            PrimTy::Char => "char",
            PrimTy::Str => "str",
            PrimTy::Symbol => "Symbol",
            PrimTy::Integer => "Integer",
            PrimTy::Float => "Float",
        }
    }
}

/// The definition an ADT type refers to.
#[derive(Clone, Copy, Debug, PartialEq, Eq, Structural)]
pub struct NFId(pub LocalDefId);

/// An inference variable.
#[derive(Clone, Copy, Debug, PartialEq, Eq, Structural)]
pub struct InferTy(pub u32);

/// A semantic type.
#[derive(Debug, PartialEq, Eq)]
pub struct Ty(pub Box<TyKind>);

/// The payload of a semantic type.
#[derive(Debug, PartialEq, Eq)]
pub enum TyKind {
    Primitive(PrimTy),
    Void,
    Ptr(Ty, Mutability),
    Optional(Ty),
    Fn(Vec<Ty>),
    NornmalForm(Vec<Ty>),
    FnArrow(Ty, Ty),
    Param,
    NFApplication(NFId, Vec<Ty>),
    Infer(InferTy),
    NoReturn,
    ErrorQualified(Vec<Ty>),
    EffectQualified,
}

/// Whether a type mentions an inference variable anywhere inside it.
pub open spec fn ty_has_infer(t: Ty) -> bool
    decreases t,
{
    kind_has_infer(*t.0)
}

pub open spec fn kind_has_infer(k: TyKind) -> bool
    decreases k,
{
    match k {
        TyKind::Infer(_) => true,
        TyKind::Ptr(inner, _) => ty_has_infer(inner),
        TyKind::Optional(inner) => ty_has_infer(inner),
        TyKind::Fn(tys) => list_has_infer(tys@),
        TyKind::NornmalForm(tys) => list_has_infer(tys@),
        TyKind::ErrorQualified(tys) => list_has_infer(tys@),
        TyKind::FnArrow(a, b) => ty_has_infer(a) || ty_has_infer(b),
        TyKind::NFApplication(_, args) => list_has_infer(args@),
        _ => false,
    }
}

pub open spec fn list_has_infer(s: Seq<Ty>) -> bool
    decreases s,
{
    if s.len() == 0 {
        false
    } else {
        list_has_infer(s.drop_last()) || ty_has_infer(s.last())
    }
}

/// Types separated by `", "`.
pub open spec fn list_text(s: Seq<Ty>) -> Seq<char>
    decreases s,
{
    if s.len() == 0 {
        Seq::empty()
    } else if s.len() == 1 {
        ty_text(s[0])
    } else {
        list_text(s.drop_last()) + ", "@ + ty_text(s.last())
    }
}

pub open spec fn ty_text(t: Ty) -> Seq<char>
    decreases t,
{
    kind_text(*t.0)
}

/// How a type is printed.
pub open spec fn kind_text(k: TyKind) -> Seq<char>
    decreases k,
{
    match k {
        TyKind::Primitive(p) => prim_name(p),
        TyKind::Void => "()"@,
        TyKind::Ptr(inner, Mutability::Immutable) => "*const "@ + ty_text(inner),
        TyKind::Ptr(inner, Mutability::Mutable) => "*mut "@ + ty_text(inner),
        TyKind::Optional(inner) => ty_text(inner) + "?"@,
        TyKind::Fn(params) => "fn("@ + list_text(params@) + ")"@,
        TyKind::NornmalForm(tys) => "nf["@ + list_text(tys@) + "]"@,
        TyKind::FnArrow(from, to) => "("@ + ty_text(from) + " -> "@ + ty_text(to) + ")"@,
        TyKind::Param => "_"@,
        TyKind::NFApplication(id, args) => "NF(LocalDefId("@ + decimal(id.0.0 as nat) + ")"@ + (if args@.len()
            > 0 {
            "<"@ + list_text(args@) + ">"@
        } else {
            Seq::empty()
        }) + ")"@,
        TyKind::Infer(iv) => "?"@ + decimal(iv.0 as nat),
        TyKind::NoReturn => "!"@,
        TyKind::ErrorQualified(tys) => "Error["@ + list_text(tys@) + "]"@,
        TyKind::EffectQualified => "<effect>"@,
    }
}

fn list_has_infer_exec(tys: &Vec<Ty>) -> (r: bool)
    ensures
        r == list_has_infer(tys@),
    decreases tys@,
{
    let mut i: usize = 0;
    while i < tys.len()
        invariant
            0 <= i <= tys@.len(),
            !list_has_infer(tys@.take(i as int)),
        decreases tys@.len() - i,
    {
        proof {
            assert(tys@.take(i as int + 1).drop_last() == tys@.take(i as int));
        }
        if tys[i].has_infer_vars() {
            proof {
                lemma_list_has_infer_prefix(tys@, i as int + 1);
            }
            return true;
        }
        i += 1;
    }
    proof {
        assert(tys@.take(tys@.len() as int) == tys@);
    }
    false
}

proof fn lemma_list_has_infer_prefix(s: Seq<Ty>, j: int)
    requires
        0 <= j <= s.len(),
        list_has_infer(s.take(j)),
    ensures
        list_has_infer(s),
    decreases s.len() - j,
{
    if j < s.len() {
        assert(s.take(j + 1).drop_last() == s.take(j));
        lemma_list_has_infer_prefix(s, j + 1);
    } else {
        assert(s.take(j) == s);
    }
}

fn push_list_text(out: &mut String, tys: &Vec<Ty>)
    ensures
        final(out)@ == old(out)@ + list_text(tys@),
    decreases tys@,
{
    let ghost start = out@;
    let mut i: usize = 0;
    while i < tys.len()
        invariant
            0 <= i <= tys@.len(),
            out@ == start + list_text(tys@.take(i as int)),
        decreases tys@.len() - i,
    {
        let ghost t = tys@.take(i as int + 1);
        proof {
            assert(t.drop_last() == tys@.take(i as int));
            assert(t.last() == tys@[i as int]);
        }
        if i > 0 {
            push_str(out, ", ");
        }
        tys[i].push_text(out);
        proof {
            if i == 0 {
                assert(t.len() == 1);
                assert(list_text(tys@.take(0)) == Seq::<char>::empty());
            }
        }
        i += 1;
    }
    proof {
        assert(tys@.take(tys@.len() as int) == tys@);
    }
}

impl Ty {
    /// The payload of the type.
    pub fn kind(&self) -> (r: &TyKind)
        ensures
            *r == *self.0,
    {
        &self.0
    }

    pub fn is_primitive(&self) -> (r: bool)
        ensures
            r == (*self.0 is Primitive),
    {
        match &*self.0 {
            TyKind::Primitive(_) => true,
            _ => false,
        }
    }

    pub fn is_void(&self) -> (r: bool)
        ensures
            r == (*self.0 is Void),
    {
        match &*self.0 {
            TyKind::Void => true,
            _ => false,
        }
    }

    pub fn is_never(&self) -> (r: bool)
        ensures
            r == (*self.0 is NoReturn),
    {
        match &*self.0 {
            TyKind::NoReturn => true,
            _ => false,
        }
    }

    pub fn is_error(&self) -> (r: bool)
        ensures
            r == (*self.0 is ErrorQualified),
    {
        match &*self.0 {
            TyKind::ErrorQualified(_) => true,
            _ => false,
        }
    }

    pub fn is_infer(&self) -> (r: bool)
        ensures
            r == (*self.0 is Infer),
    {
        match &*self.0 {
            TyKind::Infer(_) => true,
            _ => false,
        }
    }

    /// Whether the type mentions an inference variable anywhere inside it.
    pub fn has_infer_vars(&self) -> (r: bool)
        ensures
            r == ty_has_infer(*self),
        decreases *self,
    {
        match &*self.0 {
            TyKind::Infer(_) => true,
            TyKind::Ptr(inner, _) => inner.has_infer_vars(),
            TyKind::Optional(inner) => inner.has_infer_vars(),
            TyKind::Fn(tys) => list_has_infer_exec(tys),
            TyKind::NornmalForm(tys) => list_has_infer_exec(tys),
            TyKind::ErrorQualified(tys) => list_has_infer_exec(tys),
            TyKind::FnArrow(a, b) => a.has_infer_vars() || b.has_infer_vars(),
            TyKind::NFApplication(_, args) => list_has_infer_exec(args),
            TyKind::Param | TyKind::Primitive(_) | TyKind::Void | TyKind::NoReturn
            | TyKind::EffectQualified => false,
        }
    }

    /// Appends how the type is printed.
    pub fn push_text(&self, out: &mut String)
        ensures
            final(out)@ == old(out)@ + ty_text(*self),
        decreases *self,
    {
        match &*self.0 {
            TyKind::Primitive(p) => push_str(out, p.name()),
            TyKind::Void => push_str(out, "()"),
            TyKind::Ptr(inner, Mutability::Immutable) => {
                push_str(out, "*const ");
                inner.push_text(out);
            },
            TyKind::Ptr(inner, Mutability::Mutable) => {
                push_str(out, "*mut ");
                inner.push_text(out);
            },
            TyKind::Optional(inner) => {
                inner.push_text(out);
                push_str(out, "?");
            },
            TyKind::Fn(params) => {
                push_str(out, "fn(");
                push_list_text(out, params);
                push_str(out, ")");
            },
            TyKind::NornmalForm(tys) => {
                push_str(out, "nf[");
                push_list_text(out, tys);
                push_str(out, "]");
            },
            TyKind::FnArrow(from, to) => {
                push_str(out, "(");
                from.push_text(out);
                push_str(out, " -> ");
                to.push_text(out);
                push_str(out, ")");
            },
            TyKind::Param => push_str(out, "_"),
            TyKind::NFApplication(id, args) => {
                push_str(out, "NF(LocalDefId(");
                push_decimal(out, id.0.0 as u64);
                push_str(out, ")");
                if args.len() > 0 {
                    push_str(out, "<");
                    push_list_text(out, args);
                    push_str(out, ">");
                }
                push_str(out, ")");
            },
            TyKind::Infer(iv) => {
                push_str(out, "?");
                push_decimal(out, iv.0 as u64);
            },
            TyKind::NoReturn => push_str(out, "!"),
            TyKind::ErrorQualified(tys) => {
                push_str(out, "Error[");
                push_list_text(out, tys);
                push_str(out, "]");
            },
            TyKind::EffectQualified => push_str(out, "<effect>"),
        }
    }

    /// How the type is printed.
    pub fn to_display_string(&self) -> (r: String)
        ensures
            r@ == ty_text(*self),
    {
        let mut out = String::new();
        self.push_text(&mut out);
        out
    }
}

/// Whether an ADT is a struct or an enum.
#[derive(Clone, Copy, Debug, PartialEq, Eq, Structural)]
pub enum AdtKind {
    Struct,
    Enum,
}

/// A field of a struct or enum variant.
#[derive(Debug, PartialEq, Eq)]
pub struct FieldDef {
    pub name: String,
    pub index: u32,
    pub ty: Ty,
}

/// A user-defined algebraic data type.
#[derive(Debug, PartialEq, Eq)]
pub struct AdtDef {
    pub name: String,
    pub kind: AdtKind,
    pub fields: Vec<FieldDef>,
    pub type_params: Vec<String>,
}

impl AdtDef {
    /// The declared index of the first field called `name`.
    pub fn field_index(&self, name: &str) -> (r: Option<u32>)
        ensures
            match r {
                Some(x) => exists|i: int|
                    0 <= i < self.fields@.len() && self.fields@[i].name@ == name@ && self.fields@[i].index == x
                        && forall|k: int| 0 <= k < i ==> self.fields@[k].name@ != name@,
                None => forall|k: int| 0 <= k < self.fields@.len() ==> self.fields@[k].name@ != name@,
            },
    {
        let mut i: usize = 0;
        while i < self.fields.len()
            invariant
                0 <= i <= self.fields@.len(),
                forall|k: int| 0 <= k < i ==> self.fields@[k].name@ != name@,
            decreases self.fields@.len() - i,
        {
            if str_eq(self.fields[i].name.as_str(), name) {
                return Some(self.fields[i].index);
            }
            i += 1;
        }
        None
    }
}

} // verus!

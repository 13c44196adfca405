//! Built-in functions, language items and the sysroot packages.
use rustc_data_structures::fx::FxHashMap;
use vstd::prelude::*;

use crate::hir_id::LocalDefId;
use crate::symbol::Symbol;
use crate::text::{push_decimal, push_str, str_eq};

verus! {

// ── Built-in functions ──────────────────────────────────────────────────────

/// Dense id of a built-in function; it is its position in the catalogue.
#[derive(Clone, Copy, Debug, PartialEq, Eq, Structural)]
pub struct BuiltinFnId(pub u16);

impl BuiltinFnId {
    pub fn index(self) -> (r: usize)
        ensures
            r == self.0,
    {
        self.0 as usize
    }
}

/// Type descriptor used in built-in signatures.
#[derive(Clone, Copy, Debug, PartialEq, Eq, Structural)]
pub enum BuiltinTy {
    Int,
    Float,
    Bool,
    Char,
    Str,
    Unit,
    Never,
    Any,
}

pub open spec fn builtin_ty_name(t: BuiltinTy) -> Seq<char> {
    match t {
        BuiltinTy::Int => "Int"@,
        BuiltinTy::Float => "Float"@,
        BuiltinTy::Bool => "Bool"@,
        BuiltinTy::Char => "Char"@,
        BuiltinTy::Str => "Str"@,
        BuiltinTy::Unit => "Unit"@,
        BuiltinTy::Never => "Never"@,
        BuiltinTy::Any => "Any"@,
    }
}

impl BuiltinTy {
    /// The variant name, as the debug form prints it.
    pub fn name(self) -> (r: &'static str)
        ensures
            r@ == builtin_ty_name(self),
    {
        match self {
            BuiltinTy::Int => "Int",
            BuiltinTy::Float => "Float",
            BuiltinTy::Bool => "Bool",
            BuiltinTy::Char => "Char",
            BuiltinTy::Str => "Str",
            BuiltinTy::Unit => "Unit",
            BuiltinTy::Never => "Never",
            BuiltinTy::Any => "Any",
        }
    }
}

/// A parameter of a built-in signature.
#[derive(Clone, Copy, Debug)]
pub struct BuiltinParam {
    pub name: &'static str,
    pub ty: BuiltinTy,
}

/// A compiler-provided function.
#[derive(Clone, Debug)]
pub struct BuiltinFn {
    pub id: BuiltinFnId,
    pub name: &'static str,
    pub params: Vec<BuiltinParam>,
    pub ret: BuiltinTy,
    pub doc: &'static str,
}

/// The number of built-in functions.
pub open spec fn builtin_count() -> nat {
    8
}

/// The name of catalogue entry `i`.
pub open spec fn builtin_name(i: int) -> Seq<char> {
    if i == 0 { "print"@ }
    else if i == 1 { "println"@ }
    else if i == 2 { "assert"@ }
    else if i == 3 { "panic"@ }
    else if i == 4 { "todo"@ }
    else if i == 5 { "unreachable"@ }
    else if i == 6 { "sizeof"@ }
    else { "typeof"@ }
}

/// The parameters of catalogue entry `i`, as (name, type) pairs.
pub open spec fn builtin_params(i: int) -> Seq<(Seq<char>, BuiltinTy)> {
    if i == 0 || i == 1 || i == 6 || i == 7 { seq![("value"@, BuiltinTy::Any)] }
    else if i == 2 { seq![("condition"@, BuiltinTy::Bool)] }
    else if i == 3 { seq![("message"@, BuiltinTy::Str)] }
    else { Seq::empty() }
}

/// The return type of catalogue entry `i`.
pub open spec fn builtin_ret(i: int) -> BuiltinTy {
    if i == 0 || i == 1 || i == 2 { BuiltinTy::Unit }
    else if i == 6 { BuiltinTy::Int }
    else if i == 7 { BuiltinTy::Str }
    else { BuiltinTy::Never }
}

/// The documentation line of catalogue entry `i`.
pub open spec fn builtin_doc(i: int) -> Seq<char> {
    if i == 0 { "Print a value to stdout (no trailing newline)."@ }
    else if i == 1 { "Print a value to stdout followed by a newline."@ }
    else if i == 2 { "Assert that a condition is true; panic otherwise."@ }
    else if i == 3 { "Abort execution with an error message."@ }
    else if i == 4 { "Mark unfinished code; panics at runtime."@ }
    else if i == 5 { "Indicate unreachable code; panics at runtime if reached."@ }
    else if i == 6 { "Return the size in bytes of a value's type."@ }
    else { "Return a string representation of a value's type."@ }
}

/// Whether `b` is catalogue entry `i`.
pub open spec fn is_builtin_entry(b: BuiltinFn, i: int) -> bool {
    &&& 0 <= i < builtin_count()
    &&& b.id.0 == i
    &&& b.name@ == builtin_name(i)
    &&& b.ret == builtin_ret(i)
    &&& b.doc@ == builtin_doc(i)
    &&& b.params@.len() == builtin_params(i).len()
    &&& forall|k: int| 0 <= k < b.params@.len() ==> (#[trigger] b.params@[k]).name@ == builtin_params(i)[k].0
        && b.params@[k].ty == builtin_params(i)[k].1
}

fn make_builtin(id: u16, name: &'static str, params: Vec<BuiltinParam>, ret: BuiltinTy, doc: &'static str) -> (b: BuiltinFn)
    ensures
        b.id.0 == id && b.name == name && b.params@ == params@ && b.ret == ret && b.doc == doc,
{
    BuiltinFn { id: BuiltinFnId(id), name, params, ret, doc }
}

fn one_param(name: &'static str, ty: BuiltinTy) -> (v: Vec<BuiltinParam>)
    ensures
        v@.len() == 1 && v@[0].name == name && v@[0].ty == ty,
{
    let mut v = Vec::new();
    v.push(BuiltinParam { name, ty });
    v
}

/// Catalogue entry `i`.
fn builtin_entry(i: u16) -> (b: BuiltinFn)
    requires
        i < 8,
    ensures
        is_builtin_entry(b, i as int),
{
    if i == 0 {
        make_builtin(0, "print", one_param("value", BuiltinTy::Any), BuiltinTy::Unit,
            "Print a value to stdout (no trailing newline).")
    } else if i == 1 {
        make_builtin(1, "println", one_param("value", BuiltinTy::Any), BuiltinTy::Unit,
            "Print a value to stdout followed by a newline.")
    } else if i == 2 {
        make_builtin(2, "assert", one_param("condition", BuiltinTy::Bool), BuiltinTy::Unit,
            "Assert that a condition is true; panic otherwise.")
    } else if i == 3 {
        make_builtin(3, "panic", one_param("message", BuiltinTy::Str), BuiltinTy::Never,
            "Abort execution with an error message.")
    } else if i == 4 {
        make_builtin(4, "todo", Vec::new(), BuiltinTy::Never, "Mark unfinished code; panics at runtime.")
    } else if i == 5 {
        make_builtin(5, "unreachable", Vec::new(), BuiltinTy::Never,
            "Indicate unreachable code; panics at runtime if reached.")
    } else if i == 6 {
        make_builtin(6, "sizeof", one_param("value", BuiltinTy::Any), BuiltinTy::Int,
            "Return the size in bytes of a value's type.")
    } else {
        make_builtin(7, "typeof", one_param("value", BuiltinTy::Any), BuiltinTy::Str,
            "Return a string representation of a value's type.")
    }
}

/// The whole catalogue; entry `i` has id `i`.
pub fn all_builtins() -> (v: Vec<BuiltinFn>)
    ensures
        v@.len() == builtin_count(),
        forall|i: int| 0 <= i < v@.len() ==> is_builtin_entry(#[trigger] v@[i], i),
{
    let mut v = Vec::new();
    let mut i: u16 = 0;
    while i < 8
        invariant
            0 <= i <= 8,
            v@.len() == i,
            forall|k: int| 0 <= k < v@.len() ==> is_builtin_entry(#[trigger] v@[k], k),
        decreases 8 - i,
    {
        v.push(builtin_entry(i));
        i += 1;
    }
    v
}

/// The built-in function called `name`.
pub fn lookup_builtin(name: &str) -> (r: Option<BuiltinFn>)
    ensures
        match r {
            Some(b) => exists|i: int| is_builtin_entry(b, i) && builtin_name(i) == name@,
            None => forall|i: int| 0 <= i < builtin_count() ==> builtin_name(i) != name@,
        },
{
    let mut i: u16 = 0;
    while i < 8
        invariant
            0 <= i <= 8,
            forall|k: int| 0 <= k < i ==> builtin_name(k) != name@,
        decreases 8 - i,
    {
        let b = builtin_entry(i);
        if str_eq(b.name, name) {
            return Some(b);
        }
        i += 1;
    }
    None
}

/// The built-in function with the given id.
pub fn get_builtin(id: BuiltinFnId) -> (r: Option<BuiltinFn>)
    ensures
        match r {
            Some(b) => is_builtin_entry(b, id.0 as int),
            None => id.0 >= builtin_count(),
        },
{
    if id.index() < 8 {
        Some(builtin_entry(id.0))
    } else {
        None
    }
}

impl BuiltinFn {
    /// The name as an interned symbol.
    pub fn symbol(&self) -> (r: Symbol)
        ensures
            r@ == self.name@,
    {
        Symbol::intern(self.name)
    }
}

// ── Language items ──────────────────────────────────────────────────────────

/// Concepts the compiler must locate by meaning rather than by name.
#[derive(Clone, Copy, Debug, PartialEq, Eq, Hash, Structural)]
pub enum LangItem {
    AnyType,
    U8,
    U16,
    U32,
    U64,
    U128,
    Usize,
    I8,
    I16,
    I32,
    I64,
    I128,
    Isize,
    Integer,
    F16,
    F32,
    F64,
    Real,
    Bool,
    Char,
    Str,
    Void,
    NoReturn,
    Type,
    Undefined,
    AnyValue,
    Copy,
    Clone,
    Finalze,
    Debug,
    Display,
    Eq,
    Ord,
    Hash,
    Iterator,
    Into,
    From,
}

/// The key under which a lang item is annotated.
pub open spec fn lang_item_name(item: LangItem) -> Seq<char> {
    match item {
        LangItem::AnyType => "Any"@,
        LangItem::U8 => "u8"@,
        LangItem::U16 => "u16"@,
        LangItem::U32 => "u32"@,
        LangItem::U64 => "u64"@,
        LangItem::U128 => "u128"@,
        LangItem::Usize => "usize"@,
        LangItem::I8 => "i8"@,
        LangItem::I16 => "i16"@,
        LangItem::I32 => "i32"@,
        LangItem::I64 => "i64"@,
        LangItem::I128 => "i128"@,
        LangItem::Isize => "isize"@,
        LangItem::Integer => "Integer"@,
        LangItem::F16 => "f16"@,
        LangItem::F32 => "f32"@,
        LangItem::F64 => "f64"@,
        LangItem::Real => "Real"@,
        LangItem::Bool => "bool"@,
        LangItem::Char => "char"@,
        LangItem::Str => "str"@,
        LangItem::Void => "void"@,
        LangItem::NoReturn => "NoReturn"@,
        LangItem::Type => "type"@,
        LangItem::Undefined => "undefined"@,
        LangItem::AnyValue => "any"@,
        LangItem::Copy => "Copy"@,
        LangItem::Clone => "Clone"@,
        LangItem::Finalze => "Finalize"@,
        LangItem::Debug => "Debug"@,
        LangItem::Display => "Display"@,
        LangItem::Eq => "Eq"@,
        LangItem::Ord => "Ord"@,
        LangItem::Hash => "Hash"@,
        LangItem::Iterator => "Iterator"@,
        LangItem::Into => "Into"@,
        LangItem::From => "From"@,
    }
}

impl LangItem {
    /// The canonical key of this lang item.
    pub fn name(self) -> (r: &'static str)
        ensures
            r@ == lang_item_name(self),
    {
        match self {
            LangItem::AnyType => "Any",
            LangItem::U8 => "u8",
            LangItem::U16 => "u16",
            LangItem::U32 => "u32",
            LangItem::U64 => "u64",
            LangItem::U128 => "u128",
            LangItem::Usize => "usize",
            LangItem::I8 => "i8",
            LangItem::I16 => "i16",
            LangItem::I32 => "i32",
            LangItem::I64 => "i64",
            LangItem::I128 => "i128",
            LangItem::Isize => "isize",
            LangItem::Integer => "Integer",
            LangItem::F16 => "f16",
            LangItem::F32 => "f32",
            LangItem::F64 => "f64",
            LangItem::Real => "Real",
            LangItem::Bool => "bool",
            LangItem::Char => "char",
            LangItem::Str => "str",
            LangItem::Void => "void",
            LangItem::NoReturn => "NoReturn",
            LangItem::Type => "type",
            LangItem::Undefined => "undefined",
            LangItem::AnyValue => "any",
            LangItem::Copy => "Copy",
            LangItem::Clone => "Clone",
            LangItem::Finalze => "Finalize",
            LangItem::Debug => "Debug",
            LangItem::Display => "Display",
            LangItem::Eq => "Eq",
            LangItem::Ord => "Ord",
            LangItem::Hash => "Hash",
            LangItem::Iterator => "Iterator",
            LangItem::Into => "Into",
            LangItem::From => "From",
        }
    }
}

/// What a lang item resolves to.
#[derive(Clone, Copy, Debug, PartialEq, Eq, Structural)]
pub enum LangItemDef {
    /// A compiler-synthesised built-in.
    Builtin,
    /// A user-provided definition.
    UserDef(LocalDefId),
}

#[verifier::external_type_specification]
#[verifier::external_body]
pub struct ExFxHasher(rustc_data_structures::fx::FxHasher);

#[verifier::external_type_specification]
#[verifier::external_body]
#[verifier::reject_recursive_types(H)]
pub struct ExBuildHasherDefault<H>(core::hash::BuildHasherDefault<H>);

/// The table type behind [`LangItems`].
pub type LangTable = FxHashMap<LangItem, LangItemDef>;

/// An entry of a lang-item table.
pub type LangEntry = (LangItem, LangItemDef);

/// The entries of a lang-item table.
pub uninterp spec fn lang_table(m: LangTable) -> Map<LangItem, LangItemDef>;

/// The table with no entries.
pub open spec fn no_lang_items() -> Map<LangItem, LangItemDef> {
    Map::empty()
}

/// `FxHashMap::default`: an empty map.
#[verifier::external_body]
fn table_new() -> (r: LangTable)
    ensures
        lang_table(r) == no_lang_items(),
{
    FxHashMap::default()
}

/// `HashMap::insert`: the key now maps to the value, the rest is unchanged.
#[verifier::external_body]
fn table_insert(m: &mut LangTable, k: LangItem, v: LangItemDef)
    ensures
        lang_table(*final(m)) == lang_table(*old(m)).insert(k, v),
{
    m.insert(k, v);
}

/// `HashMap::get` followed by `copied`.
#[verifier::external_body]
fn table_get(m: &LangTable, k: LangItem) -> (r: Option<LangItemDef>)
    ensures
        r == (if lang_table(*m).contains_key(k) { Some(lang_table(*m)[k]) } else { None }),
{
    m.get(&k).copied()
}

/// `HashMap::contains_key`.
#[verifier::external_body]
fn table_contains(m: &LangTable, k: LangItem) -> (r: bool)
    ensures
        r == lang_table(*m).contains_key(k),
{
    m.contains_key(&k)
}

/// `HashMap::len`: the number of entries.
#[verifier::external_body]
fn table_len(m: &LangTable) -> (r: usize)
    ensures
        r == lang_table(*m).dom().len(),
{
    m.len()
}

/// `HashMap::iter`, each entry copied out; the order is the map's own.
#[verifier::external_body]
fn table_entries(m: &LangTable) -> (r: Vec<LangEntry>)
    ensures
        r@.len() == lang_table(*m).dom().len(),
        forall|i: int| 0 <= i < r@.len() ==> lang_table(*m).contains_key(#[trigger] r@[i].0) && lang_table(*m)[r@[i].0] == r@[i].1,
        forall|i: int| forall|j: int| 0 <= i < j < r@.len() ==> #[trigger] r@[i].0 != #[trigger] r@[j].0,
{
    m.iter().map(|(k, v)| (*k, *v)).collect()
}

/// The mapping from lang items to their definitions.
pub struct LangItems {
    items: LangTable,
}

impl View for LangItems {
    type V = Map<LangItem, LangItemDef>;

    closed spec fn view(&self) -> Map<LangItem, LangItemDef> {
        lang_table(self.items)
    }
}

impl LangItems {
    pub fn new() -> (r: Self)
        ensures
            r@ == Map::<LangItem, LangItemDef>::empty(),
    {
        LangItems { items: table_new() }
    }

    /// Registers or overwrites a lang item.
    pub fn set(&mut self, item: LangItem, def: LangItemDef)
        ensures
            final(self)@ == old(self)@.insert(item, def),
    {
        table_insert(&mut self.items, item, def);
    }

    /// The definition of a lang item, if registered.
    pub fn get(&self, item: LangItem) -> (r: Option<LangItemDef>)
        ensures
            r == (if self@.contains_key(item) { Some(self@[item]) } else { None }),
    {
        table_get(&self.items, item)
    }

    pub fn has(&self, item: LangItem) -> (r: bool)
        ensures
            r == self@.contains_key(item),
    {
        table_contains(&self.items, item)
    }

    /// All registered entries, each once.
    pub fn iter(&self) -> (r: Vec<LangEntry>)
        ensures
            r@.len() == self@.dom().len(),
            forall|i: int| 0 <= i < r@.len() ==> self@.contains_key(#[trigger] r@[i].0) && self@[r@[i].0] == r@[i].1,
            forall|i: int, j: int| 0 <= i < j < r@.len() ==> #[trigger] r@[i].0 != #[trigger] r@[j].0,
    {
        table_entries(&self.items)
    }

    pub fn len(&self) -> (r: usize)
        ensures
            r == self@.dom().len(),
    {
        table_len(&self.items)
    }

    pub fn is_empty(&self) -> (r: bool)
        ensures
            r == (self@.dom().len() == 0),
    {
        table_len(&self.items) == 0
    }
}

impl Default for LangItems {
    fn default() -> (r: Self)
        ensures
            r@ == Map::<LangItem, LangItemDef>::empty(),
    {
        LangItems::new()
    }
}

/// A value stored with `set` is what `get` then returns, and the other
/// items keep their definitions.
pub proof fn lemma_set_then_get(before: Map<LangItem, LangItemDef>, item: LangItem, def: LangItemDef, other: LangItem)
    ensures
        before.insert(item, def).contains_key(item) && before.insert(item, def)[item] == def,
        other != item ==> (before.insert(item, def).contains_key(other) == before.contains_key(other)
            && (before.contains_key(other) ==> before.insert(item, def)[other] == before[other])),
{
}

/// The lang items that stand for primitive types.
pub open spec fn primitive_lang_items() -> Seq<LangItem> {
    seq![
        LangItem::AnyType, LangItem::U8, LangItem::U16, LangItem::U32, LangItem::U64, LangItem::U128,
        LangItem::Usize, LangItem::I8, LangItem::I16, LangItem::I32, LangItem::I64, LangItem::I128,
        LangItem::Isize, LangItem::Integer, LangItem::F16, LangItem::F32, LangItem::F64, LangItem::Real,
        LangItem::Bool, LangItem::Char, LangItem::Str, LangItem::Void, LangItem::NoReturn, LangItem::Type,
    ]
}

/// All intrinsic state of one compilation.
pub struct IntrinsicContext {
    pub lang_items: LangItems,
}

/// Registers every primitive type as a built-in lang item.
pub fn initialize() -> (r: IntrinsicContext)
    ensures
        forall|item: LangItem| #[trigger] r.lang_items@.contains_key(item) <==> primitive_lang_items().contains(item),
        forall|item: LangItem| #[trigger] r.lang_items@.contains_key(item) ==> r.lang_items@[item] == LangItemDef::Builtin,
{
    let items: [LangItem; 24] = [
        LangItem::AnyType, LangItem::U8, LangItem::U16, LangItem::U32, LangItem::U64, LangItem::U128,
        LangItem::Usize, LangItem::I8, LangItem::I16, LangItem::I32, LangItem::I64, LangItem::I128,
        LangItem::Isize, LangItem::Integer, LangItem::F16, LangItem::F32, LangItem::F64, LangItem::Real,
        LangItem::Bool, LangItem::Char, LangItem::Str, LangItem::Void, LangItem::NoReturn, LangItem::Type,
    ];
    assert(items@ == primitive_lang_items());
    let mut lang_items = LangItems::new();
    let mut i: usize = 0;
    while i < 24
        invariant
            0 <= i <= 24,
            items@ == primitive_lang_items(),
            forall|item: LangItem| #[trigger] lang_items@.contains_key(item) <==> items@.take(i as int).contains(item),
            forall|item: LangItem| #[trigger] lang_items@.contains_key(item) ==> lang_items@[item] == LangItemDef::Builtin,
        decreases 24 - i,
    {
        let ghost before = lang_items@;
        lang_items.set(items[i], LangItemDef::Builtin);
        proof {
            let t = items@.take(i as int);
            let x = items@[i as int];
            assert(items@.take(i as int + 1) == t.push(x));
            assert forall|y: LangItem| t.push(x).contains(y) <==> (t.contains(y) || y == x) by {
                if t.push(x).contains(y) {
                    let k = choose|k: int| 0 <= k < t.push(x).len() && t.push(x)[k] == y;
                    if k < t.len() {
                        assert(t[k] == y);
                    }
                }
                if t.contains(y) {
                    let k = choose|k: int| 0 <= k < t.len() && t[k] == y;
                    assert(t.push(x)[k] == y);
                }
                if y == x {
                    assert(t.push(x)[t.len() as int] == y);
                }
            }
            assert forall|y: LangItem| #[trigger] lang_items@.contains_key(y) <==> items@.take(i as int + 1).contains(y) by {
                assert(before.contains_key(y) <==> t.contains(y));
            }
        }
        i += 1;
    }
    proof {
        assert(items@.take(24) == items@);
    }
    IntrinsicContext { lang_items }
}

} // verus!

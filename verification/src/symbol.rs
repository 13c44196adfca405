//! Interned strings.
//!
//! A [`Symbol`] is a handle into the global pool of `internment`: interning
//! equal texts gives equal handles, so comparing symbols compares handles.
use internment::Intern;
use vstd::prelude::*;

verus! {

#[verifier::external_type_specification]
#[verifier::external_body]
#[verifier::reject_recursive_types(T)]
pub struct ExIntern<T: 'static + ?Sized>(Intern<T>);

/// The text an interned handle refers to.
pub uninterp spec fn interned_text(h: Intern<String>) -> Seq<char>;

/// `Intern::new`: the handle refers to a copy of the given text.
#[verifier::external_body]
fn intern_new(s: String) -> (r: Intern<String>)
    ensures
        interned_text(r) == s@,
{
    Intern::new(s)
}

/// Dereferencing an `Intern`: the text it refers to.
#[verifier::external_body]
fn intern_text(h: &Intern<String>) -> (r: &String)
    ensures
        r@ == interned_text(*h),
{
    &**h
}

/// `PartialEq` of `Intern`: it compares the handles, and interning gives
/// equal handles exactly for equal texts.
#[verifier::external_body]
fn intern_eq(a: &Intern<String>, b: &Intern<String>) -> (r: bool)
    ensures
        r == (interned_text(*a) == interned_text(*b)),
{
    *a == *b
}

/// An interned string.
#[derive(Clone, Copy, Debug, Hash)]
pub struct Symbol(Intern<String>);

impl View for Symbol {
    type V = Seq<char>;

    closed spec fn view(&self) -> Seq<char> {
        interned_text(self.0)
    }
}

impl Symbol {
    /// Interns a string.
    pub fn intern(s: &str) -> (r: Symbol)
        ensures
            r@ == s@,
    {
        Symbol(intern_new(String::from_str(s)))
    }

    /// The interned text.
    pub fn as_str(&self) -> (r: &str)
        ensures
            r@ == self@,
    {
        intern_text(&self.0).as_str()
    }

    /// Whether two symbols hold the same text.
    pub fn same(&self, other: &Symbol) -> (r: bool)
        ensures
            r == (self@ == other@),
    {
        intern_eq(&self.0, &other.0)
    }
}

impl PartialEq for Symbol {
    fn eq(&self, other: &Symbol) -> (r: bool) {
        self.same(other)
    }
}

impl vstd::std_specs::cmp::PartialEqSpecImpl for Symbol {
    open spec fn obeys_eq_spec() -> bool {
        true
    }

    open spec fn eq_spec(&self, other: &Symbol) -> bool {
        self@ == other@
    }
}

impl Eq for Symbol {
}

} // verus!

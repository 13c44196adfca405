//! Byte positions and spans in the global source space.
//!
//! A span is kept as the pair of byte positions it covers.  Spans are built
//! by the encoding of `rustc_span`, which stores a base position and a
//! 16-bit length; the pair held here is what that encoding gives back.
use vstd::prelude::*;

verus! {

/// A byte offset into the global source space.
#[derive(Clone, Copy, Debug, PartialEq, Eq, Structural)]
pub struct BytePos(pub u32);

/// A region of source text: the byte positions `lo..hi`.
#[derive(Clone, Copy, Debug, PartialEq, Eq, Structural)]
pub struct Span {
    pub lo: u32,
    pub hi: u32,
}

/// The pair of positions that `rustc_span::Span::new(lo, hi)` reports back
/// through `lo()` and `hi()`: the bounds are ordered, and the length is
/// kept in 16 bits.
pub open spec fn span_encoding(lo: u32, hi: u32) -> (u32, u32) {
    let a = if lo <= hi { lo } else { hi };
    let b = if lo <= hi { hi } else { lo };
    (a, (a + ((b - a) % 65536)) as u32)
}

/// `rustc_span::Span::new` followed by `lo()` and `hi()`: the constructor
/// swaps the bounds when `lo > hi` and stores the length as a `u16`, so the
/// reported `hi` is `lo` plus the length modulo 2^16.
#[verifier::external_body]
fn encode_span(lo: u32, hi: u32) -> (r: (u32, u32))
    ensures
        r == span_encoding(lo, hi),
{
    let s = rustc_span::Span::new(rustc_span::BytePos(lo), rustc_span::BytePos(hi));
    (s.lo().0, s.hi().0)
}

impl Span {
    /// The dummy span `0..0`.
    pub fn dummy() -> (s: Span)
        ensures
            s.lo == 0 && s.hi == 0,
    {
        Span { lo: 0, hi: 0 }
    }

    /// A span between two positions, as the span encoding builds it.
    pub fn new(lo: BytePos, hi: BytePos) -> (s: Span)
        ensures
            (s.lo, s.hi) == span_encoding(lo.0, hi.0),
    {
        let (a, b) = encode_span(lo.0, hi.0);
        Span { lo: a, hi: b }
    }

    pub fn lo(self) -> (r: BytePos)
        ensures
            r.0 == self.lo,
    {
        BytePos(self.lo)
    }

    pub fn hi(self) -> (r: BytePos)
        ensures
            r.0 == self.hi,
    {
        BytePos(self.hi)
    }
}

impl Default for Span {
    fn default() -> (s: Span)
        ensures
            s.lo == 0 && s.hi == 0,
    {
        Span { lo: 0, hi: 0 }
    }
}

} // verus!

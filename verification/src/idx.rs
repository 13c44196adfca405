//! Typed index collections: a vector indexed by a newtype index.
use std::marker::PhantomData;
use vstd::prelude::*;

verus! {

/// A newtype index over `u32` that converts to a `usize` position.
pub trait Idx: Copy + Eq + Sized {
    /// The position this index names.
    spec fn spec_index(self) -> nat;

    fn new(raw: u32) -> (r: Self)
        ensures
            r.spec_index() == raw as nat;

    fn index(self) -> (r: usize)
        ensures
            r as nat == self.spec_index();
}

/// A `Vec<T>` indexed by a typed index `I`.
#[derive(PartialEq, Eq, Hash)]
pub struct IndexVec<I: Idx, T> {
    raw: Vec<T>,
    _marker: PhantomData<I>,
}

impl<I: Idx, T> View for IndexVec<I, T> {
    type V = Seq<T>;

    closed spec fn view(&self) -> Seq<T> {
        self.raw@
    }
}

impl<I: Idx, T> IndexVec<I, T> {
    pub fn new() -> (v: Self)
        ensures
            v@ == Seq::<T>::empty(),
    {
        IndexVec { raw: Vec::new(), _marker: PhantomData }
    }

    pub fn with_capacity(cap: usize) -> (v: Self)
        ensures
            v@ == Seq::<T>::empty(),
    {
        IndexVec { raw: Vec::with_capacity(cap), _marker: PhantomData }
    }

    /// Appends a value and returns the index it was stored at.
    pub fn push(&mut self, val: T) -> (r: I)
        ensures
            final(self)@ == old(self)@.push(val),
            r.spec_index() == (old(self)@.len() as u32) as nat,
    {
        let idx = self.raw.len() as u32;
        self.raw.push(val);
        I::new(idx)
    }

    /// The value at `idx`, or `None` when it is out of bounds.
    pub fn get(&self, idx: I) -> (r: Option<&T>)
        ensures
            match r {
                Some(v) => idx.spec_index() < self@.len() && *v == self@[idx.spec_index() as int],
                None => idx.spec_index() >= self@.len(),
            },
    {
        let i = idx.index();
        if i < self.raw.len() {
            Some(&self.raw[i])
        } else {
            None
        }
    }

    /// Mutable access to the value at `idx`, or `None` when it is out of bounds.
    pub fn get_mut(&mut self, idx: I) -> (r: Option<&mut T>)
        ensures
            match r {
                Some(v) => idx.spec_index() < old(self)@.len() && *v == old(self)@[idx.spec_index() as int]
                    && final(self)@ == old(self)@.update(idx.spec_index() as int, *final(v)),
                None => idx.spec_index() >= old(self)@.len() && final(self)@ == old(self)@,
            },
    {
        let i = idx.index();
        if i < self.raw.len() {
            Some(&mut self.raw[i])
        } else {
            None
        }
    }

    pub fn len(&self) -> (r: usize)
        ensures
            r == self@.len(),
    {
        self.raw.len()
    }

    pub fn is_empty(&self) -> (r: bool)
        ensures
            r == (self@.len() == 0),
    {
        self.raw.len() == 0
    }

    /// The index that the next `push` will return.
    pub fn next_index(&self) -> (r: I)
        ensures
            r.spec_index() == (self@.len() as u32) as nat,
    {
        I::new(self.raw.len() as u32)
    }

    /// An iterator over the values, in index order.
    pub fn iter(&self) -> (r: std::slice::Iter<'_, T>)
        ensures
            vstd::std_specs::slice::into_iter_elts(r) == self@,
    {
        self.raw.iter()
    }

    /// The values in index order, each open to change: iterating over the
    /// result visits every value mutably.
    pub fn iter_mut(&mut self) -> (r: &mut [T])
        ensures
            r@ == old(self)@,
            final(self)@ == final(r)@,
    {
        self.raw.as_mut_slice()
    }

    /// Each value with its index, in index order.
    pub fn iter_enumerated(&self) -> (r: Vec<(I, &T)>)
        requires
            self@.len() <= u32::MAX + 1,
        ensures
            r@.len() == self@.len(),
            forall|i: int| 0 <= i < r@.len() ==> (#[trigger] r@[i]).0.spec_index() == i && *r@[i].1 == self@[i],
    {
        let mut r: Vec<(I, &T)> = Vec::new();
        let mut i: usize = 0;
        while i < self.raw.len()
            invariant
                0 <= i <= self.raw@.len(),
                self.raw@.len() <= u32::MAX + 1,
                r@.len() == i,
                forall|k: int| 0 <= k < i ==> (#[trigger] r@[k]).0.spec_index() == k && *r@[k].1 == self.raw@[k],
            decreases self.raw@.len() - i,
        {
            r.push((I::new(i as u32), &self.raw[i]));
            i += 1;
        }
        r
    }

    /// The underlying vector.
    pub fn raw(&self) -> (r: &Vec<T>)
        ensures
            r@ == self@,
    {
        &self.raw
    }

    /// The underlying vector, mutably.
    pub fn raw_mut(&mut self) -> (r: &mut Vec<T>)
        ensures
            r@ == old(self)@,
            final(self)@ == final(r)@,
    {
        &mut self.raw
    }

    /// Keeps the first `len` values.
    pub fn truncate(&mut self, len: usize)
        ensures
            final(self)@ == if len < old(self)@.len() { old(self)@.take(len as int) } else { old(self)@ },
    {
        self.raw.truncate(len);
    }
}

impl<I: Idx, T> IndexVec<I, Option<T>> {
    /// Grows the vector with `None` until `idx` is in bounds.
    pub fn ensure_contains(&mut self, idx: I)
        requires
            idx.spec_index() < usize::MAX,
        ensures
            final(self)@.len() == if idx.spec_index() + 1 > old(self)@.len() { idx.spec_index() + 1 } else { old(self)@.len() },
            forall|k: int| 0 <= k < old(self)@.len() ==> #[trigger] final(self)@[k] == old(self)@[k],
            forall|k: int| old(self)@.len() <= k < final(self)@.len() ==> #[trigger] final(self)@[k] is None,
    {
        let needed = idx.index() + 1;
        while self.raw.len() < needed
            invariant
                old(self)@.len() <= self@.len(),
                needed == idx.spec_index() + 1,
                self@.len() <= if needed > old(self)@.len() { needed as int } else { old(self)@.len() as int },
                forall|k: int| 0 <= k < old(self)@.len() ==> #[trigger] self@[k] == old(self)@[k],
                forall|k: int| old(self)@.len() <= k < self@.len() ==> #[trigger] self@[k] is None,
            decreases needed - self@.len(),
        {
            self.raw.push(None);
        }
    }

    /// Stores `Some(val)` at `idx`, growing the vector with `None` as needed.
    pub fn insert(&mut self, idx: I, val: T)
        requires
            idx.spec_index() < usize::MAX,
        ensures
            final(self)@.len() == if idx.spec_index() + 1 > old(self)@.len() { idx.spec_index() + 1 } else { old(self)@.len() },
            final(self)@[idx.spec_index() as int] == Some(val),
            forall|k: int| 0 <= k < final(self)@.len() && k != idx.spec_index() ==> #[trigger] final(self)@[k]
                == if k < old(self)@.len() { old(self)@[k] } else { None },
    {
        self.ensure_contains(idx);
        let i = idx.index();
        self.raw.set(i, Some(val));
    }
}

impl<I: Idx, T> Default for IndexVec<I, T> {
    fn default() -> (v: Self)
        ensures
            v@ == Seq::<T>::empty(),
    {
        Self::new()
    }
}

/// A value stored with `insert` is read back by `get` at the same index,
/// and the other indices keep what they held.
pub proof fn lemma_insert_then_get<I: Idx, T>(before: Seq<Option<T>>, after: Seq<Option<T>>, idx: I, val: T)
    requires
        after.len() == if idx.spec_index() + 1 > before.len() { idx.spec_index() + 1 } else { before.len() },
        after[idx.spec_index() as int] == Some(val),
        forall|k: int| 0 <= k < after.len() && k != idx.spec_index() ==> #[trigger] after[k]
            == if k < before.len() { before[k] } else { None },
    ensures
        idx.spec_index() < after.len(),
        after[idx.spec_index() as int] == Some(val),
        forall|k: int| 0 <= k < before.len() && k != idx.spec_index() ==> #[trigger] after[k] == before[k],
{
}

} // verus!

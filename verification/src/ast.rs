//! The flat syntax tree.
//!
//! Nodes live in parallel arrays indexed by `NodeIndex`; index 0 is reserved
//! for the invalid node.  Each node owns a run of slots in `children`,
//! starting at `children_start[i]`.  A slot holds either a child node index
//! or, for a variable-length group, the position of a block in `children`
//! that starts with the group's length followed by its node indices.
use vstd::prelude::*;

use crate::node_kind::NodeKind;
use crate::span::Span;

verus! {

/// Index of a node in an [`Ast`].
pub type NodeIndex = u32;

pub const FN_MOD_PURE: u32 = 1;
pub const FN_MOD_COMPTIME: u32 = 2;
pub const FN_MOD_INLINE: u32 = 4;
pub const FN_MOD_UNSAFE: u32 = 8;
pub const FN_MOD_SPEC: u32 = 16;
pub const FN_MOD_VERIFIED: u32 = 32;
pub const FN_MOD_EXTERN: u32 = 64;
pub const FN_MOD_ATOMIC: u32 = 128;

/// Words separated by single spaces.
pub open spec fn join_words(ws: Seq<Seq<char>>) -> Seq<char>
    decreases ws.len(),
{
    if ws.len() == 0 {
        Seq::empty()
    } else if ws.len() == 1 {
        ws[0]
    } else {
        join_words(ws.drop_last()) + seq![' '] + ws.last()
    }
}

pub open spec fn word_if(set: bool, w: Seq<char>) -> Seq<Seq<char>> {
    if set { seq![w] } else { Seq::empty() }
}

/// The modifier words of the flags that are set, in flag order.
pub open spec fn mod_words(flags: u32) -> Seq<Seq<char>> {
    word_if(flags & FN_MOD_PURE != 0, "pure"@)
        + word_if(flags & FN_MOD_COMPTIME != 0, "comptime"@)
        + word_if(flags & FN_MOD_INLINE != 0, "inline"@)
        + word_if(flags & FN_MOD_UNSAFE != 0, "unsafe"@)
        + word_if(flags & FN_MOD_SPEC != 0, "spec"@)
        + word_if(flags & FN_MOD_VERIFIED != 0, "verified"@)
        + word_if(flags & FN_MOD_EXTERN != 0, "extern"@)
        + word_if(flags & FN_MOD_ATOMIC != 0, "atomic"@)
}

pub proof fn lemma_join_push(ws: Seq<Seq<char>>, w: Seq<char>)
    ensures
        join_words(ws.push(w)) == if ws.len() == 0 { w } else { join_words(ws) + seq![' '] + w },
{
    assert(ws.push(w).drop_last() == ws);
}

fn push_word(out: &mut String, empty: &mut bool, words: Ghost<Seq<Seq<char>>>, set: bool, w: &str) -> (r: Ghost<Seq<Seq<char>>>)
    requires
        old(out)@ == join_words(words@),
        *old(empty) == (words@.len() == 0),
    ensures
        r@ == words@ + word_if(set, w@),
        final(out)@ == join_words(r@),
        *final(empty) == (r@.len() == 0),
{
    if set {
        proof {
            lemma_join_push(words@, w@);
            assert(words@ + seq![w@] == words@.push(w@));
        }
        if *empty {
            out.append(w);
        } else {
            out.append(" ");
            proof { reveal_strlit(" "); }
            out.append(w);
        }
        *empty = false;
        Ghost(words@ + word_if(set, w@))
    } else {
        assert(words@ + word_if(set, w@) == words@);
        Ghost(words@)
    }
}

/// The modifier words of a function-type flag set, separated by spaces.
pub fn fn_mod_flags_to_string(flags: u32) -> (r: String)
    ensures
        r@ == join_words(mod_words(flags)),
{
    let mut out = String::new();
    let mut empty = true;
    let g = Ghost(Seq::<Seq<char>>::empty());
    let g = push_word(&mut out, &mut empty, g, flags & FN_MOD_PURE != 0, "pure");
    let g = push_word(&mut out, &mut empty, g, flags & FN_MOD_COMPTIME != 0, "comptime");
    let g = push_word(&mut out, &mut empty, g, flags & FN_MOD_INLINE != 0, "inline");
    let g = push_word(&mut out, &mut empty, g, flags & FN_MOD_UNSAFE != 0, "unsafe");
    let g = push_word(&mut out, &mut empty, g, flags & FN_MOD_SPEC != 0, "spec");
    let g = push_word(&mut out, &mut empty, g, flags & FN_MOD_VERIFIED != 0, "verified");
    let g = push_word(&mut out, &mut empty, g, flags & FN_MOD_EXTERN != 0, "extern");
    let g = push_word(&mut out, &mut empty, g, flags & FN_MOD_ATOMIC != 0, "atomic");
    out
}

} // verus!

verus! {

/// One child slot of a node under construction.
pub enum Child {
    /// A single child node.
    Single(NodeIndex),
    /// A variable-length group of child nodes.
    Multiple(Vec<NodeIndex>),
}

impl Child {
    pub fn single(index: NodeIndex) -> (c: Child)
        ensures
            c == Child::Single(index),
    {
        Child::Single(index)
    }

    pub fn multiple(indices: Vec<NodeIndex>) -> (c: Child)
        ensures
            c == Child::Multiple(indices),
    {
        Child::Multiple(indices)
    }
}

/// The block that a child slot adds to the children array: nothing for a
/// single child, the length followed by the indices for a group.
pub open spec fn block(c: Child) -> Seq<u32> {
    match c {
        Child::Single(_) => Seq::empty(),
        Child::Multiple(v) => seq![v@.len() as u32] + v@,
    }
}

/// The blocks of all group slots, in slot order.
pub open spec fn packed(cs: Seq<Child>) -> Seq<u32>
    decreases cs.len(),
{
    if cs.len() == 0 {
        Seq::empty()
    } else {
        packed(cs.drop_last()) + block(cs.last())
    }
}

/// What a slot holds: the child itself, or the position of the group's block.
pub open spec fn slot_value(pos: int, c: Child) -> u32 {
    match c {
        Child::Single(i) => i,
        Child::Multiple(_) => pos as u32,
    }
}

/// The slot values of a node whose blocks are stored from position `base`.
pub open spec fn slots(base: int, cs: Seq<Child>) -> Seq<u32>
    decreases cs.len(),
{
    if cs.len() == 0 {
        Seq::empty()
    } else {
        slots(base, cs.drop_last()).push(slot_value(base + packed(cs.drop_last()).len(), cs.last()))
    }
}

pub proof fn lemma_packed_take(cs: Seq<Child>, j: int)
    requires
        0 <= j < cs.len(),
    ensures
        packed(cs.take(j + 1)) == packed(cs.take(j)) + block(cs[j]),
        slots(0, cs.take(j + 1)) == slots(0, cs.take(j)).push(slot_value(packed(cs.take(j)).len() as int, cs[j])),
{
    assert(cs.take(j + 1).drop_last() == cs.take(j));
}

pub proof fn lemma_slots_base(base: int, cs: Seq<Child>)
    ensures
        slots(base, cs).len() == cs.len(),
        forall|j: int| 0 <= j < cs.len() ==> #[trigger] slots(base, cs)[j] == slot_value(
            base + packed(cs.take(j)).len(),
            cs[j],
        ),
    decreases cs.len(),
{
    if cs.len() > 0 {
        lemma_slots_base(base, cs.drop_last());
        assert forall|j: int| 0 <= j < cs.len() implies #[trigger] slots(base, cs)[j] == slot_value(
            base + packed(cs.take(j)).len(),
            cs[j],
        ) by {
            if j < cs.len() - 1 {
                assert(cs.drop_last().take(j) == cs.take(j));
            } else {
                assert(cs.take(j) == cs.drop_last());
            }
        }
    }
}

pub proof fn lemma_packed_len_mono(cs: Seq<Child>, j: int)
    requires
        0 <= j <= cs.len(),
    ensures
        packed(cs.take(j)).len() + j <= packed(cs).len() + cs.len(),
        packed(cs.take(j)).len() <= packed(cs).len(),
    decreases cs.len() - j,
{
    if j < cs.len() {
        lemma_packed_len_mono(cs, j + 1);
        lemma_packed_take(cs, j);
    } else {
        assert(cs.take(j) == cs);
    }
}

/// The packed blocks of the first `j` slots are a prefix of all packed
/// blocks, and each group's block sits right where its slot points.
pub proof fn lemma_packed_prefix(cs: Seq<Child>, j: int)
    requires
        0 <= j <= cs.len(),
    ensures
        packed(cs).subrange(0, packed(cs.take(j)).len() as int) == packed(cs.take(j)),
    decreases cs.len() - j,
{
    if j < cs.len() {
        lemma_packed_prefix(cs, j + 1);
        lemma_packed_take(cs, j);
        lemma_packed_len_mono(cs, j + 1);
        let p = packed(cs.take(j));
        let q = packed(cs.take(j + 1));
        let all = packed(cs);
        assert(q.subrange(0, p.len() as int) == p);
        assert(all.subrange(0, q.len() as int).subrange(0, p.len() as int) == all.subrange(0, p.len() as int));
    } else {
        assert(cs.take(j) == cs);
    }
}

/// A node description, consumed by [`Ast::add_node`].
pub struct NodeBuilder {
    pub kind: NodeKind,
    pub span: Span,
    pub children: Vec<Child>,
}

impl NodeBuilder {
    pub fn new(kind: NodeKind, span: Span) -> (b: NodeBuilder)
        ensures
            b.kind == kind,
            b.span == span,
            b.children@.len() == 0,
    {
        NodeBuilder { kind, span, children: Vec::new() }
    }

    pub fn add_single_child(self, child: NodeIndex) -> (b: NodeBuilder)
        ensures
            b.kind == self.kind,
            b.span == self.span,
            b.children@ == self.children@.push(Child::Single(child)),
    {
        let mut s = self;
        s.children.push(Child::single(child));
        s
    }

    pub fn add_multiple_children(self, children: Vec<NodeIndex>) -> (b: NodeBuilder)
        ensures
            b.kind == self.kind,
            b.span == self.span,
            b.children@ == self.children@.push(Child::Multiple(children)),
    {
        let mut s = self;
        s.children.push(Child::multiple(children));
        s
    }

    pub fn with_span(self, span: Span) -> (b: NodeBuilder)
        ensures
            b.kind == self.kind,
            b.span == span,
            b.children@ == self.children@,
    {
        let mut s = self;
        s.span = span;
        s
    }

    pub fn with_children(self, children: Vec<Child>) -> (b: NodeBuilder)
        ensures
            b.kind == self.kind,
            b.span == self.span,
            b.children@ == children@,
    {
        let mut s = self;
        s.children = children;
        s
    }

    pub fn with_node_kind(self, kind: NodeKind) -> (b: NodeBuilder)
        ensures
            b.kind == kind,
            b.span == self.span,
            b.children@ == self.children@,
    {
        let mut s = self;
        s.kind = kind;
        s
    }

    /// Whether adding this node keeps every index of the tree within `u32`.
    pub open spec fn fits(&self, ast: &Ast) -> bool {
        &&& ast.nodes@.len() < u32::MAX
        &&& ast.children@.len() + packed(self.children@).len() + self.children@.len() <= u32::MAX
    }

    pub fn build(self, ast: &mut Ast) -> (r: NodeIndex)
        requires
            old(ast).wf(),
            self.fits(old(ast)),
        ensures
            final(ast).wf(),
            Ast::added(*old(ast), *final(ast), self.kind, self.span, self.children@, r),
    {
        ast.add_node(self)
    }
}

/// The flat syntax tree.
#[derive(Clone)]
pub struct Ast {
    pub nodes: Vec<NodeKind>,
    pub spans: Vec<Span>,
    pub children_start: Vec<NodeIndex>,
    pub children: Vec<NodeIndex>,
    pub root: NodeIndex,
}

impl Ast {
    /// The arrays agree in length, every index fits in `u32`, and every
    /// node's slots start inside the children array.
    pub open spec fn wf(&self) -> bool {
        &&& self.nodes@.len() >= 1
        &&& self.spans@.len() == self.nodes@.len()
        &&& self.children_start@.len() == self.nodes@.len()
        &&& self.children@.len() >= 1
        &&& self.nodes@.len() <= u32::MAX
        &&& self.children@.len() <= u32::MAX
        &&& forall|i: int|
            0 <= i < self.nodes@.len() ==> #[trigger] self.children_start@[i] <= self.children@.len()
    }

    /// Whether `i` names an existing node other than the invalid node 0.
    pub open spec fn is_node(&self, i: u32) -> bool {
        1 <= i < self.nodes@.len()
    }

    /// The kind of node `i`, if it is a node.
    pub open spec fn kind_of(&self, i: u32) -> Option<NodeKind> {
        if self.is_node(i) { Some(self.nodes@[i as int]) } else { None }
    }

    /// The span of node `i`, if it is a node.
    pub open spec fn span_of(&self, i: u32) -> Option<Span> {
        if self.is_node(i) { Some(self.spans@[i as int]) } else { None }
    }

    /// The children array from the first slot of node `i` to its end; the
    /// slots of `i` come first.
    pub open spec fn children_of(&self, i: u32) -> Seq<NodeIndex> {
        if self.is_node(i) {
            self.children@.subrange(self.children_start@[i as int] as int, self.children@.len() as int)
        } else {
            Seq::empty()
        }
    }

    /// The group stored in the block at position `p` of the children array.
    pub open spec fn group_at(&self, p: u32) -> Option<Seq<NodeIndex>> {
        if p == 0 || p >= self.children@.len() {
            None
        } else {
            Some(
                self.children@.subrange(
                    p + 1,
                    p + 1 + self.children@[p as int],
                ),
            )
        }
    }

    /// Whether the block at position `p` fits in the children array, so
    /// that reading it does not run past the end.
    pub open spec fn group_in_bounds(&self, p: u32) -> bool {
        p == 0 || p >= self.children@.len() || p + 1 + self.children@[p as int] <= self.children@.len()
    }

    /// `new` is `old` with one node added: its kind, span and slots are
    /// appended, and the blocks of its groups come right before its slots.
    pub open spec fn added(old: Ast, new: Ast, kind: NodeKind, span: Span, cs: Seq<Child>, r: NodeIndex) -> bool {
        let base = old.children@.len();
        &&& r == old.nodes@.len()
        &&& new.nodes@ == old.nodes@.push(kind)
        &&& new.spans@ == old.spans@.push(span)
        &&& new.children_start@ == old.children_start@.push((base + packed(cs).len()) as u32)
        &&& new.children@ == old.children@ + packed(cs) + slots(base as int, cs)
        &&& new.root == old.root
    }

    /// An empty tree holding only the invalid node.
    pub fn new() -> (a: Ast)
        ensures
            a.wf(),
            a.nodes@ == seq![NodeKind::Invalid],
            a.spans@ == seq![Span { lo: 0, hi: 0 }],
            a.children_start@ == seq![0u32],
            a.children@ == seq![0u32],
            a.root == 0,
    {
        let mut result = Ast {
            nodes: Vec::new(),
            spans: Vec::new(),
            children_start: Vec::new(),
            children: Vec::new(),
            root: 0,
        };
        result.nodes.push(NodeKind::Invalid);
        result.spans.push(Span::dummy());
        result.children_start.push(0);
        result.children.push(0);
        result
    }

    /// Appends a node and returns its index.
    pub fn add_node(&mut self, descriptor: NodeBuilder) -> (r: NodeIndex)
        requires
            old(self).wf(),
            descriptor.fits(old(self)),
        ensures
            final(self).wf(),
            Ast::added(*old(self), *final(self), descriptor.kind, descriptor.span, descriptor.children@, r),
    {
        let ghost cs = descriptor.children@;
        let ghost base = self.children@.len();
        let n = descriptor.children.len();
        let mut children_indexes: Vec<NodeIndex> = Vec::new();
        proof {
            lemma_packed_len_mono(cs, n as int);
            assert(cs.take(0) == Seq::<Child>::empty());
            assert(cs.take(n as int) == cs);
        }
        let mut j: usize = 0;
        while j < n
            invariant
                n == cs.len(),
                cs == descriptor.children@,
                0 <= j <= n,
                base == old(self).children@.len(),
                base + packed(cs).len() + cs.len() <= u32::MAX,
                self.children@ == old(self).children@ + packed(cs.take(j as int)),
                children_indexes@ == slots(base as int, cs.take(j as int)),
                self.nodes@ == old(self).nodes@,
                self.spans@ == old(self).spans@,
                self.children_start@ == old(self).children_start@,
                self.root == old(self).root,
            decreases n - j,
        {
            proof {
                lemma_packed_take(cs, j as int);
                lemma_packed_len_mono(cs, j as int + 1);
                assert(cs.take(j as int + 1).drop_last() == cs.take(j as int));
            }
            match &descriptor.children[j] {
                Child::Single(ci) => {
                    children_indexes.push(*ci);
                },
                Child::Multiple(v) => {
                    let len_index = self.children.len() as NodeIndex;
                    self.children.push(v.len() as NodeIndex);
                    let mut k: usize = 0;
                    let ghost before = self.children@;
                    while k < v.len()
                        invariant
                            0 <= k <= v@.len(),
                            self.children@ == before + v@.take(k as int),
                            self.nodes@ == old(self).nodes@,
                            self.spans@ == old(self).spans@,
                            self.children_start@ == old(self).children_start@,
                            self.root == old(self).root,
                        decreases v@.len() - k,
                    {
                        self.children.push(v[k]);
                        proof {
                            assert(v@.take(k as int + 1) == v@.take(k as int).push(v@[k as int]));
                        }
                        k += 1;
                    }
                    proof {
                        assert(v@.take(v@.len() as int) == v@);
                    }
                    children_indexes.push(len_index);
                },
            }
            j += 1;
        }
        let node_index = self.nodes.len() as NodeIndex;
        let children_start_pos = self.children.len() as NodeIndex;
        let mut k: usize = 0;
        let ghost before = self.children@;
        let ghost all_slots = children_indexes@;
        proof {
            lemma_slots_base(base as int, cs);
        }
        while k < children_indexes.len()
            invariant
                0 <= k <= children_indexes@.len(),
                all_slots == children_indexes@,
                all_slots.len() == cs.len(),
                before.len() + cs.len() <= u32::MAX,
                self.children@ == before + all_slots.take(k as int),
                self.nodes@ == old(self).nodes@,
                self.spans@ == old(self).spans@,
                self.children_start@ == old(self).children_start@,
                self.root == old(self).root,
            decreases children_indexes@.len() - k,
        {
            self.children.push(children_indexes[k]);
            proof {
                assert(all_slots.take(k as int + 1) == all_slots.take(k as int).push(all_slots[k as int]));
            }
            k += 1;
        }
        proof {
            assert(all_slots.take(all_slots.len() as int) == all_slots);
        }
        self.nodes.push(descriptor.kind);
        self.spans.push(descriptor.span);
        self.children_start.push(children_start_pos);
        node_index
    }

    /// The children array from the first slot of a node onwards.
    pub fn get_children(&self, node_index: NodeIndex) -> (r: &[NodeIndex])
        requires
            self.wf(),
            node_index as int != self.nodes@.len(),
        ensures
            r@ == self.children_of(node_index),
    {
        if node_index == 0 || node_index as usize > self.nodes.len() {
            return vstd::slice::slice_subrange(self.children.as_slice(), 0, 0);
        }
        let start = self.children_start[node_index as usize] as usize;
        let end = self.children.len();
        vstd::slice::slice_subrange(self.children.as_slice(), start, end)
    }

    pub fn get_node_kind(&self, node_index: NodeIndex) -> (r: Option<NodeKind>)
        requires
            self.wf(),
            node_index as int != self.nodes@.len(),
        ensures
            r == self.kind_of(node_index),
    {
        if node_index == 0 || node_index as usize > self.nodes.len() {
            return None;
        }
        Some(self.nodes[node_index as usize])
    }

    pub fn get_node(&self, node_index: NodeIndex) -> (r: Option<(NodeKind, Span, &[NodeIndex])>)
        requires
            self.wf(),
            node_index as int != self.nodes@.len(),
        ensures
            match r {
                Some((k, s, c)) => self.is_node(node_index) && k == self.nodes@[node_index as int]
                    && s == self.spans@[node_index as int] && c@ == self.children_of(node_index),
                None => !self.is_node(node_index),
            },
    {
        if node_index == 0 || node_index as usize > self.nodes.len() {
            return None;
        }
        Some((self.nodes[node_index as usize], self.spans[node_index as usize], self.get_children(node_index)))
    }

    pub fn get_span(&self, node_index: NodeIndex) -> (r: Option<Span>)
        requires
            self.wf(),
            node_index as int != self.nodes@.len(),
        ensures
            r == self.span_of(node_index),
    {
        if node_index == 0 || node_index as usize > self.nodes.len() {
            return None;
        }
        Some(self.spans[node_index as usize])
    }

    /// The group whose block starts at position `slice_len_index`.
    pub fn get_multi_child_slice(&self, slice_len_index: NodeIndex) -> (r: Option<&[NodeIndex]>)
        requires
            self.wf(),
            self.group_in_bounds(slice_len_index),
        ensures
            match r {
                Some(g) => self.group_at(slice_len_index) == Some(g@),
                None => self.group_at(slice_len_index) is None,
            },
    {
        if slice_len_index == 0 || slice_len_index as usize >= self.children.len() {
            return None;
        }
        let slice_len_index = slice_len_index as usize;
        let count = self.children[slice_len_index] as usize;
        Some(vstd::slice::slice_subrange(self.children.as_slice(), slice_len_index + 1, slice_len_index + count + 1))
    }
}

/// Reading back a node that was just added gives what was written: its
/// kind and span, each single child in its slot, and each group through the
/// position in its slot; the nodes that were there before are unchanged.
pub proof fn lemma_add_node_read_back(old: Ast, new: Ast, kind: NodeKind, span: Span, cs: Seq<Child>, r: NodeIndex)
    requires
        old.wf(),
        old.children@.len() + packed(cs).len() + cs.len() <= u32::MAX,
        Ast::added(old, new, kind, span, cs, r),
    ensures
        new.kind_of(r) == Some(kind),
        new.span_of(r) == Some(span),
        forall|j: int| 0 <= j < cs.len() ==> {
            let slot = #[trigger] new.children_of(r)[j];
            &&& (cs[j] matches Child::Single(i) ==> slot == i)
            &&& (cs[j] matches Child::Multiple(v) ==> new.group_in_bounds(slot) && new.group_at(slot) == Some(v@))
        },
        forall|i: u32| #[trigger] old.is_node(i) ==> new.kind_of(i) == old.kind_of(i) && new.span_of(i)
            == old.span_of(i) && new.children_of(i).subrange(0, old.children_of(i).len() as int)
            == old.children_of(i),
{
    let base = old.children@.len() as int;
    let p = packed(cs);
    lemma_slots_base(base, cs);
    assert(new.children_of(r) == slots(base, cs));
    assert forall|j: int| 0 <= j < cs.len() implies {
        let slot = #[trigger] new.children_of(r)[j];
        &&& (cs[j] matches Child::Single(i) ==> slot == i)
        &&& (cs[j] matches Child::Multiple(v) ==> new.group_in_bounds(slot) && new.group_at(slot) == Some(v@))
    } by {
        lemma_packed_prefix(cs, j);
        lemma_packed_prefix(cs, j + 1);
        lemma_packed_take(cs, j);
        lemma_packed_len_mono(cs, j);
        lemma_packed_len_mono(cs, j + 1);
        let q = packed(cs.take(j));
        if let Child::Multiple(v) = cs[j] {
            let pos = base + q.len();
            assert(new.children@.subrange(base, base + p.len()) == p);
            let q1 = packed(cs.take(j + 1));
            assert(q1 == q + block(cs[j]));
            assert(p.subrange(0, q1.len() as int) == q1);
            assert(q1.subrange(q.len() as int, q1.len() as int) == block(cs[j]));
            assert(p.subrange(q.len() as int, q1.len() as int) == p.subrange(0, q1.len() as int).subrange(q.len() as int, q1.len() as int));
            assert(p.subrange(q.len() as int, (q.len() + 1 + v@.len()) as int) == block(cs[j]));
            assert(block(cs[j])[0] == v@.len() as u32);
            assert(new.children@[pos] == v@.len() as u32);
            let blk = block(cs[j]);
            let vl = v@.len() as int;
            let ql = q.len() as int;
            assert(blk.subrange(1, 1 + vl) == v@);
            assert(p.subrange(ql + 1, ql + 1 + vl) == blk.subrange(1, 1 + vl));
            assert(new.children@.subrange(pos + 1, pos + 1 + vl) == new.children@.subrange(base, base + p.len()).subrange(ql + 1, ql + 1 + vl));
            assert(new.children@.subrange(pos + 1, pos + 1 + v@.len()) == v@);
        }
    }
    assert forall|i: u32| #[trigger] old.is_node(i) implies new.kind_of(i) == old.kind_of(i) && new.span_of(i)
        == old.span_of(i) && new.children_of(i).subrange(0, old.children_of(i).len() as int)
        == old.children_of(i) by {
        assert(new.children_start@[i as int] == old.children_start@[i as int]);
    }
}

} // verus!

//! Source text of nodes and the s-expression rendering of a tree.
use vstd::prelude::*;

use crate::ast::{Ast, NodeIndex, fn_mod_flags_to_string, join_words, mod_words};
use crate::node_kind::{NodeType, spec_kind_name, spec_node_type};
use crate::source::SourceMap;
use crate::text::{decimal, push_decimal};

verus! {

/// The group stored at position `p`, or nothing.
pub open spec fn group_or_empty(ast: Ast, p: u32) -> Seq<NodeIndex> {
    match ast.group_at(p) {
        Some(g) => g,
        None => Seq::empty(),
    }
}

/// The renderings of a group of children, separated by single spaces,
/// each rendered with at most `fuel` levels below it.
pub open spec fn dump_list(ast: Ast, sm: SourceMap, g: Seq<NodeIndex>, fuel: nat) -> Seq<char>
    decreases fuel, g.len() + 1,
{
    if g.len() == 0 {
        Seq::empty()
    } else if g.len() == 1 {
        dump_fuel(ast, sm, g[0], fuel)
    } else {
        dump_list(ast, sm, g.drop_last(), fuel) + " "@ + dump_fuel(ast, sm, g.last(), fuel)
    }
}

/// The s-expression rendering of node `n`, looking at most `fuel` levels
/// of children deep: the kind name followed by the renderings of its
/// children, groups shown between the brackets their place calls for; a
/// leaf shows its trimmed source text.
pub open spec fn dump_fuel(ast: Ast, sm: SourceMap, n: u32, fuel: nat) -> Seq<char>
    decreases fuel, 0int,
{
    if n == 0 {
        "(<invalid node>)"@
    } else if !ast.is_node(n) {
        "Invalid node index: "@ + decimal(n as nat)
    } else if fuel == 0 {
        Seq::empty()
    } else {
        let kind = ast.nodes@[n as int];
        let name = spec_kind_name(kind);
        let c = ast.children_of(n);
        match spec_node_type(kind) {
            NodeType::NoChild => match sm.span_text(ast.spans@[n as int]) {
                Some(t) => "("@ + name + " "@ + t + ")"@,
                None => "<invalid source>"@,
            },
            NodeType::SingleChild => "("@ + name + " "@ + dump_fuel(ast, sm, c[0], (fuel - 1) as nat) + ")"@,
            NodeType::DoubleChildren => "("@ + name + " "@ + dump_fuel(ast, sm, c[0], (fuel - 1) as nat) + " "@ + dump_fuel(ast, sm, c[1], (fuel - 1) as nat) + ")"@,
            NodeType::TripleChildren => "("@ + name + " "@ + dump_fuel(ast, sm, c[0], (fuel - 1) as nat) + " "@ + dump_fuel(ast, sm, c[1], (fuel - 1) as nat) + " "@ + dump_fuel(ast, sm, c[2], (fuel - 1) as nat) + ")"@,
            NodeType::QuadrupleChildren => "("@ + name + " "@ + dump_fuel(ast, sm, c[0], (fuel - 1) as nat) + " "@ + dump_fuel(ast, sm, c[1], (fuel - 1) as nat) + " "@ + dump_fuel(ast, sm, c[2], (fuel - 1) as nat) + " "@ + dump_fuel(ast, sm, c[3], (fuel - 1) as nat) + ")"@,
            NodeType::MultiChildren => "("@ + name + " "@ + dump_list(ast, sm, group_or_empty(ast, c[0]), (fuel - 1) as nat) + ")"@,
            NodeType::SingleWithMultiChildren => "("@ + name + " "@ + dump_fuel(ast, sm, c[0], (fuel - 1) as nat) + " "@ + dump_list(ast, sm, group_or_empty(ast, c[1]), (fuel - 1) as nat) + ")"@,
            NodeType::DoubleWithMultiChildren => "("@ + name + " "@ + dump_fuel(ast, sm, c[0], (fuel - 1) as nat) + " "@ + dump_fuel(ast, sm, c[1], (fuel - 1) as nat) + " "@ + dump_list(ast, sm, group_or_empty(ast, c[2]), (fuel - 1) as nat) + ")"@,
            NodeType::TripleWithMultiChildren => "("@ + name + " "@ + dump_fuel(ast, sm, c[0], (fuel - 1) as nat) + " "@ + dump_fuel(ast, sm, c[1], (fuel - 1) as nat) + " "@ + dump_fuel(ast, sm, c[2], (fuel - 1) as nat) + " "@ + dump_list(ast, sm, group_or_empty(ast, c[3]), (fuel - 1) as nat) + ")"@,
            NodeType::FunctionDefChildren => "("@ + name + " "@ + dump_fuel(ast, sm, c[0], (fuel - 1) as nat) + " ["@ + dump_list(ast, sm, group_or_empty(ast, c[1]), (fuel - 1) as nat) + "] "@ + dump_fuel(ast, sm, c[2], (fuel - 1) as nat) + " "@ + dump_fuel(ast, sm, c[3], (fuel - 1) as nat) + " ["@ + dump_list(ast, sm, group_or_empty(ast, c[4]), (fuel - 1) as nat) + "] "@ + dump_fuel(ast, sm, c[5], (fuel - 1) as nat) + ")"@,
            NodeType::NormalFormDefChildren => "("@ + name + " "@ + dump_fuel(ast, sm, c[0], (fuel - 1) as nat) + " <"@ + dump_list(ast, sm, group_or_empty(ast, c[1]), (fuel - 1) as nat) + "> "@ + dump_fuel(ast, sm, c[2], (fuel - 1) as nat) + " ["@ + dump_list(ast, sm, group_or_empty(ast, c[3]), (fuel - 1) as nat) + "] "@ + dump_fuel(ast, sm, c[4], (fuel - 1) as nat) + ")"@,
            NodeType::AlgebraicEffectChildren => "("@ + name + " "@ + dump_fuel(ast, sm, c[0], (fuel - 1) as nat) + " ["@ + dump_list(ast, sm, group_or_empty(ast, c[1]), (fuel - 1) as nat) + "] "@ + dump_fuel(ast, sm, c[2], (fuel - 1) as nat) + " ["@ + dump_list(ast, sm, group_or_empty(ast, c[3]), (fuel - 1) as nat) + "] "@ + dump_fuel(ast, sm, c[4], (fuel - 1) as nat) + ")"@,
            NodeType::TypeDefChildren => "("@ + name + " "@ + dump_fuel(ast, sm, c[0], (fuel - 1) as nat) + " ["@ + dump_list(ast, sm, group_or_empty(ast, c[1]), (fuel - 1) as nat) + "] "@ + dump_fuel(ast, sm, c[2], (fuel - 1) as nat) + ")"@,
            NodeType::TraitDefChildren => "("@ + name + " "@ + dump_fuel(ast, sm, c[0], (fuel - 1) as nat) + " "@ + dump_fuel(ast, sm, c[1], (fuel - 1) as nat) + " ["@ + dump_list(ast, sm, group_or_empty(ast, c[2]), (fuel - 1) as nat) + "] "@ + dump_fuel(ast, sm, c[3], (fuel - 1) as nat) + ")"@,
            NodeType::ImplTraitDefChildren => "("@ + name + " "@ + dump_fuel(ast, sm, c[0], (fuel - 1) as nat) + " "@ + dump_fuel(ast, sm, c[1], (fuel - 1) as nat) + " ["@ + dump_list(ast, sm, group_or_empty(ast, c[2]), (fuel - 1) as nat) + "] "@ + dump_fuel(ast, sm, c[3], (fuel - 1) as nat) + ")"@,
            NodeType::ExtendTraitDefChildren => "("@ + name + " "@ + dump_fuel(ast, sm, c[0], (fuel - 1) as nat) + " "@ + dump_fuel(ast, sm, c[1], (fuel - 1) as nat) + " ["@ + dump_list(ast, sm, group_or_empty(ast, c[2]), (fuel - 1) as nat) + "] "@ + dump_fuel(ast, sm, c[3], (fuel - 1) as nat) + ")"@,
            NodeType::TypeAliasChildren => "("@ + name + " "@ + dump_fuel(ast, sm, c[0], (fuel - 1) as nat) + " <"@ + dump_list(ast, sm, group_or_empty(ast, c[1]), (fuel - 1) as nat) + "> "@ + dump_fuel(ast, sm, c[2], (fuel - 1) as nat) + ")"@,
            NodeType::AssocDeclChildren => "("@ + name + " "@ + dump_fuel(ast, sm, c[0], (fuel - 1) as nat) + " <"@ + dump_list(ast, sm, group_or_empty(ast, c[1]), (fuel - 1) as nat) + "> "@ + dump_fuel(ast, sm, c[2], (fuel - 1) as nat) + " "@ + dump_fuel(ast, sm, c[3], (fuel - 1) as nat) + " ["@ + dump_list(ast, sm, group_or_empty(ast, c[4]), (fuel - 1) as nat) + "])"@,
            NodeType::FnTypeChildren => {
                let mods = join_words(mod_words(c[0]));
                let ps = dump_list(ast, sm, group_or_empty(ast, c[2]), (fuel - 1) as nat);
                if c[1] != 0 {
                    "(FnType ["@ + mods + "] "@ + dump_fuel(ast, sm, c[1], (fuel - 1) as nat) + " ["@ + ps + "])"@
                } else if mods.len() > 0 {
                    "(FnType ["@ + mods + "] ["@ + ps + "])"@
                } else {
                    "(FnType ["@ + ps + "])"@
                }
            },
        }
    }
}

/// Whether rendering node `n` stays in bounds and comes to an end within
/// `fuel` levels: every slot it reads exists, every group it reads lies
/// inside the children array, every leaf's text can be cut out of its
/// source file, and no chain of children is deeper than `fuel`.
pub open spec fn dumpable_fuel(ast: Ast, sm: SourceMap, n: u32, fuel: nat) -> bool
    decreases fuel, 0int,
{
    if n == 0 {
        true
    } else if n as int == ast.nodes@.len() {
        false
    } else if !ast.is_node(n) {
        true
    } else if fuel == 0 {
        false
    } else {
        let kind = ast.nodes@[n as int];
        let c = ast.children_of(n);
        match spec_node_type(kind) {
            NodeType::NoChild => sm.span_text_ok(ast.spans@[n as int]),
            NodeType::SingleChild => c.len() >= 1 && dumpable_fuel(ast, sm, c[0], (fuel - 1) as nat),
            NodeType::DoubleChildren => c.len() >= 2 && dumpable_fuel(ast, sm, c[0], (fuel - 1) as nat) && dumpable_fuel(ast, sm, c[1], (fuel - 1) as nat),
            NodeType::TripleChildren => c.len() >= 3 && dumpable_fuel(ast, sm, c[0], (fuel - 1) as nat) && dumpable_fuel(ast, sm, c[1], (fuel - 1) as nat) && dumpable_fuel(ast, sm, c[2], (fuel - 1) as nat),
            NodeType::QuadrupleChildren => c.len() >= 4 && dumpable_fuel(ast, sm, c[0], (fuel - 1) as nat) && dumpable_fuel(ast, sm, c[1], (fuel - 1) as nat) && dumpable_fuel(ast, sm, c[2], (fuel - 1) as nat) && dumpable_fuel(ast, sm, c[3], (fuel - 1) as nat),
            NodeType::MultiChildren => c.len() >= 1 && (ast.group_in_bounds(c[0]) && ast.group_at(c[0]) is Some && dumpable_list(ast, sm, group_or_empty(ast, c[0]), (fuel - 1) as nat)),
            NodeType::SingleWithMultiChildren => c.len() >= 2 && dumpable_fuel(ast, sm, c[0], (fuel - 1) as nat) && (ast.group_in_bounds(c[1]) && ast.group_at(c[1]) is Some && dumpable_list(ast, sm, group_or_empty(ast, c[1]), (fuel - 1) as nat)),
            NodeType::DoubleWithMultiChildren => c.len() >= 3 && dumpable_fuel(ast, sm, c[0], (fuel - 1) as nat) && dumpable_fuel(ast, sm, c[1], (fuel - 1) as nat) && (ast.group_in_bounds(c[2]) && ast.group_at(c[2]) is Some && dumpable_list(ast, sm, group_or_empty(ast, c[2]), (fuel - 1) as nat)),
            NodeType::TripleWithMultiChildren => c.len() >= 4 && dumpable_fuel(ast, sm, c[0], (fuel - 1) as nat) && dumpable_fuel(ast, sm, c[1], (fuel - 1) as nat) && dumpable_fuel(ast, sm, c[2], (fuel - 1) as nat) && (ast.group_in_bounds(c[3]) && ast.group_at(c[3]) is Some && dumpable_list(ast, sm, group_or_empty(ast, c[3]), (fuel - 1) as nat)),
            NodeType::FunctionDefChildren => c.len() >= 6 && dumpable_fuel(ast, sm, c[0], (fuel - 1) as nat) && (ast.group_in_bounds(c[1]) && ast.group_at(c[1]) is Some && dumpable_list(ast, sm, group_or_empty(ast, c[1]), (fuel - 1) as nat)) && dumpable_fuel(ast, sm, c[2], (fuel - 1) as nat) && dumpable_fuel(ast, sm, c[3], (fuel - 1) as nat) && (ast.group_in_bounds(c[4]) && ast.group_at(c[4]) is Some && dumpable_list(ast, sm, group_or_empty(ast, c[4]), (fuel - 1) as nat)) && dumpable_fuel(ast, sm, c[5], (fuel - 1) as nat),
            NodeType::NormalFormDefChildren => c.len() >= 5 && dumpable_fuel(ast, sm, c[0], (fuel - 1) as nat) && (ast.group_in_bounds(c[1]) && ast.group_at(c[1]) is Some && dumpable_list(ast, sm, group_or_empty(ast, c[1]), (fuel - 1) as nat)) && dumpable_fuel(ast, sm, c[2], (fuel - 1) as nat) && (ast.group_in_bounds(c[3]) && ast.group_at(c[3]) is Some && dumpable_list(ast, sm, group_or_empty(ast, c[3]), (fuel - 1) as nat)) && dumpable_fuel(ast, sm, c[4], (fuel - 1) as nat),
            NodeType::AlgebraicEffectChildren => c.len() >= 5 && dumpable_fuel(ast, sm, c[0], (fuel - 1) as nat) && (ast.group_in_bounds(c[1]) && ast.group_at(c[1]) is Some && dumpable_list(ast, sm, group_or_empty(ast, c[1]), (fuel - 1) as nat)) && dumpable_fuel(ast, sm, c[2], (fuel - 1) as nat) && (ast.group_in_bounds(c[3]) && ast.group_at(c[3]) is Some && dumpable_list(ast, sm, group_or_empty(ast, c[3]), (fuel - 1) as nat)) && dumpable_fuel(ast, sm, c[4], (fuel - 1) as nat),
            NodeType::TypeDefChildren => c.len() >= 3 && dumpable_fuel(ast, sm, c[0], (fuel - 1) as nat) && (ast.group_in_bounds(c[1]) && ast.group_at(c[1]) is Some && dumpable_list(ast, sm, group_or_empty(ast, c[1]), (fuel - 1) as nat)) && dumpable_fuel(ast, sm, c[2], (fuel - 1) as nat),
            NodeType::TraitDefChildren => c.len() >= 4 && dumpable_fuel(ast, sm, c[0], (fuel - 1) as nat) && dumpable_fuel(ast, sm, c[1], (fuel - 1) as nat) && (ast.group_in_bounds(c[2]) && ast.group_at(c[2]) is Some && dumpable_list(ast, sm, group_or_empty(ast, c[2]), (fuel - 1) as nat)) && dumpable_fuel(ast, sm, c[3], (fuel - 1) as nat),
            NodeType::ImplTraitDefChildren => c.len() >= 4 && dumpable_fuel(ast, sm, c[0], (fuel - 1) as nat) && dumpable_fuel(ast, sm, c[1], (fuel - 1) as nat) && (ast.group_in_bounds(c[2]) && ast.group_at(c[2]) is Some && dumpable_list(ast, sm, group_or_empty(ast, c[2]), (fuel - 1) as nat)) && dumpable_fuel(ast, sm, c[3], (fuel - 1) as nat),
            NodeType::ExtendTraitDefChildren => c.len() >= 4 && dumpable_fuel(ast, sm, c[0], (fuel - 1) as nat) && dumpable_fuel(ast, sm, c[1], (fuel - 1) as nat) && (ast.group_in_bounds(c[2]) && ast.group_at(c[2]) is Some && dumpable_list(ast, sm, group_or_empty(ast, c[2]), (fuel - 1) as nat)) && dumpable_fuel(ast, sm, c[3], (fuel - 1) as nat),
            NodeType::TypeAliasChildren => c.len() >= 3 && dumpable_fuel(ast, sm, c[0], (fuel - 1) as nat) && (ast.group_in_bounds(c[1]) && ast.group_at(c[1]) is Some && dumpable_list(ast, sm, group_or_empty(ast, c[1]), (fuel - 1) as nat)) && dumpable_fuel(ast, sm, c[2], (fuel - 1) as nat),
            NodeType::AssocDeclChildren => c.len() >= 5 && dumpable_fuel(ast, sm, c[0], (fuel - 1) as nat) && (ast.group_in_bounds(c[1]) && ast.group_at(c[1]) is Some && dumpable_list(ast, sm, group_or_empty(ast, c[1]), (fuel - 1) as nat)) && dumpable_fuel(ast, sm, c[2], (fuel - 1) as nat) && dumpable_fuel(ast, sm, c[3], (fuel - 1) as nat) && (ast.group_in_bounds(c[4]) && ast.group_at(c[4]) is Some && dumpable_list(ast, sm, group_or_empty(ast, c[4]), (fuel - 1) as nat)),
            NodeType::FnTypeChildren => c.len() >= 3 && (c[1] != 0 ==> dumpable_fuel(ast, sm, c[1], (fuel - 1) as nat)) && (ast.group_in_bounds(c[2]) && ast.group_at(c[2]) is Some && dumpable_list(ast, sm, group_or_empty(ast, c[2]), (fuel - 1) as nat)),
        }
    }
}

/// Whether every member of a group can be rendered within `fuel` levels.
pub open spec fn dumpable_list(ast: Ast, sm: SourceMap, g: Seq<NodeIndex>, fuel: nat) -> bool
    decreases fuel, g.len() + 1,
{
    if g.len() == 0 {
        true
    } else {
        dumpable_list(ast, sm, g.drop_last(), fuel) && dumpable_fuel(ast, sm, g.last(), fuel)
    }
}

/// Rendering node `n` stays in bounds and comes to an end: the children
/// it follows form no cycle.
pub open spec fn dumpable(ast: Ast, sm: SourceMap, n: u32) -> bool {
    exists|f: nat| #[trigger] dumpable_fuel(ast, sm, n, f)
}

/// The s-expression rendering of node `n`.
pub open spec fn dump_spec(ast: Ast, sm: SourceMap, n: u32) -> Seq<char> {
    dump_fuel(ast, sm, n, choose|f: nat| #[trigger] dumpable_fuel(ast, sm, n, f))
}

proof fn lemma_dumpable_list(ast: Ast, sm: SourceMap, g: Seq<NodeIndex>, fuel: nat)
    requires
        dumpable_list(ast, sm, g, fuel),
    ensures
        forall|i: int| 0 <= i < g.len() ==> #[trigger] dumpable_fuel(ast, sm, g[i], fuel),
    decreases g.len(),
{
    if g.len() > 0 {
        lemma_dumpable_list(ast, sm, g.drop_last(), fuel);
        assert forall|i: int| 0 <= i < g.len() implies #[trigger] dumpable_fuel(ast, sm, g[i], fuel) by {
            if i < g.len() - 1 {
                assert(g[i] == g.drop_last()[i]);
            }
        }
    }
}

/// Rendering with more fuel than a node needs gives the same text.
pub proof fn lemma_dump_fuel_mono(ast: Ast, sm: SourceMap, n: u32, f: nat, g: nat)
    requires
        dumpable_fuel(ast, sm, n, f),
        f <= g,
    ensures
        dumpable_fuel(ast, sm, n, g),
        dump_fuel(ast, sm, n, g) == dump_fuel(ast, sm, n, f),
    decreases f, 0int,
{
    if n != 0 && ast.is_node(n) {
        let kind = ast.nodes@[n as int];
        let c = ast.children_of(n);
        match spec_node_type(kind) {
                NodeType::SingleChild => { lemma_dump_fuel_mono(ast, sm, c[0], (f - 1) as nat, (g - 1) as nat); },
                NodeType::DoubleChildren => { lemma_dump_fuel_mono(ast, sm, c[0], (f - 1) as nat, (g - 1) as nat); lemma_dump_fuel_mono(ast, sm, c[1], (f - 1) as nat, (g - 1) as nat); },
                NodeType::TripleChildren => { lemma_dump_fuel_mono(ast, sm, c[0], (f - 1) as nat, (g - 1) as nat); lemma_dump_fuel_mono(ast, sm, c[1], (f - 1) as nat, (g - 1) as nat); lemma_dump_fuel_mono(ast, sm, c[2], (f - 1) as nat, (g - 1) as nat); },
                NodeType::QuadrupleChildren => { lemma_dump_fuel_mono(ast, sm, c[0], (f - 1) as nat, (g - 1) as nat); lemma_dump_fuel_mono(ast, sm, c[1], (f - 1) as nat, (g - 1) as nat); lemma_dump_fuel_mono(ast, sm, c[2], (f - 1) as nat, (g - 1) as nat); lemma_dump_fuel_mono(ast, sm, c[3], (f - 1) as nat, (g - 1) as nat); },
                NodeType::MultiChildren => { lemma_dump_list_mono(ast, sm, group_or_empty(ast, c[0]), (f - 1) as nat, (g - 1) as nat); },
                NodeType::SingleWithMultiChildren => { lemma_dump_fuel_mono(ast, sm, c[0], (f - 1) as nat, (g - 1) as nat); lemma_dump_list_mono(ast, sm, group_or_empty(ast, c[1]), (f - 1) as nat, (g - 1) as nat); },
                NodeType::DoubleWithMultiChildren => { lemma_dump_fuel_mono(ast, sm, c[0], (f - 1) as nat, (g - 1) as nat); lemma_dump_fuel_mono(ast, sm, c[1], (f - 1) as nat, (g - 1) as nat); lemma_dump_list_mono(ast, sm, group_or_empty(ast, c[2]), (f - 1) as nat, (g - 1) as nat); },
                NodeType::TripleWithMultiChildren => { lemma_dump_fuel_mono(ast, sm, c[0], (f - 1) as nat, (g - 1) as nat); lemma_dump_fuel_mono(ast, sm, c[1], (f - 1) as nat, (g - 1) as nat); lemma_dump_fuel_mono(ast, sm, c[2], (f - 1) as nat, (g - 1) as nat); lemma_dump_list_mono(ast, sm, group_or_empty(ast, c[3]), (f - 1) as nat, (g - 1) as nat); },
                NodeType::FunctionDefChildren => { lemma_dump_fuel_mono(ast, sm, c[0], (f - 1) as nat, (g - 1) as nat); lemma_dump_list_mono(ast, sm, group_or_empty(ast, c[1]), (f - 1) as nat, (g - 1) as nat); lemma_dump_fuel_mono(ast, sm, c[2], (f - 1) as nat, (g - 1) as nat); lemma_dump_fuel_mono(ast, sm, c[3], (f - 1) as nat, (g - 1) as nat); lemma_dump_list_mono(ast, sm, group_or_empty(ast, c[4]), (f - 1) as nat, (g - 1) as nat); lemma_dump_fuel_mono(ast, sm, c[5], (f - 1) as nat, (g - 1) as nat); },
                NodeType::NormalFormDefChildren => { lemma_dump_fuel_mono(ast, sm, c[0], (f - 1) as nat, (g - 1) as nat); lemma_dump_list_mono(ast, sm, group_or_empty(ast, c[1]), (f - 1) as nat, (g - 1) as nat); lemma_dump_fuel_mono(ast, sm, c[2], (f - 1) as nat, (g - 1) as nat); lemma_dump_list_mono(ast, sm, group_or_empty(ast, c[3]), (f - 1) as nat, (g - 1) as nat); lemma_dump_fuel_mono(ast, sm, c[4], (f - 1) as nat, (g - 1) as nat); },
                NodeType::AlgebraicEffectChildren => { lemma_dump_fuel_mono(ast, sm, c[0], (f - 1) as nat, (g - 1) as nat); lemma_dump_list_mono(ast, sm, group_or_empty(ast, c[1]), (f - 1) as nat, (g - 1) as nat); lemma_dump_fuel_mono(ast, sm, c[2], (f - 1) as nat, (g - 1) as nat); lemma_dump_list_mono(ast, sm, group_or_empty(ast, c[3]), (f - 1) as nat, (g - 1) as nat); lemma_dump_fuel_mono(ast, sm, c[4], (f - 1) as nat, (g - 1) as nat); },
                NodeType::TypeDefChildren => { lemma_dump_fuel_mono(ast, sm, c[0], (f - 1) as nat, (g - 1) as nat); lemma_dump_list_mono(ast, sm, group_or_empty(ast, c[1]), (f - 1) as nat, (g - 1) as nat); lemma_dump_fuel_mono(ast, sm, c[2], (f - 1) as nat, (g - 1) as nat); },
                NodeType::TraitDefChildren => { lemma_dump_fuel_mono(ast, sm, c[0], (f - 1) as nat, (g - 1) as nat); lemma_dump_fuel_mono(ast, sm, c[1], (f - 1) as nat, (g - 1) as nat); lemma_dump_list_mono(ast, sm, group_or_empty(ast, c[2]), (f - 1) as nat, (g - 1) as nat); lemma_dump_fuel_mono(ast, sm, c[3], (f - 1) as nat, (g - 1) as nat); },
                NodeType::ImplTraitDefChildren => { lemma_dump_fuel_mono(ast, sm, c[0], (f - 1) as nat, (g - 1) as nat); lemma_dump_fuel_mono(ast, sm, c[1], (f - 1) as nat, (g - 1) as nat); lemma_dump_list_mono(ast, sm, group_or_empty(ast, c[2]), (f - 1) as nat, (g - 1) as nat); lemma_dump_fuel_mono(ast, sm, c[3], (f - 1) as nat, (g - 1) as nat); },
                NodeType::ExtendTraitDefChildren => { lemma_dump_fuel_mono(ast, sm, c[0], (f - 1) as nat, (g - 1) as nat); lemma_dump_fuel_mono(ast, sm, c[1], (f - 1) as nat, (g - 1) as nat); lemma_dump_list_mono(ast, sm, group_or_empty(ast, c[2]), (f - 1) as nat, (g - 1) as nat); lemma_dump_fuel_mono(ast, sm, c[3], (f - 1) as nat, (g - 1) as nat); },
                NodeType::TypeAliasChildren => { lemma_dump_fuel_mono(ast, sm, c[0], (f - 1) as nat, (g - 1) as nat); lemma_dump_list_mono(ast, sm, group_or_empty(ast, c[1]), (f - 1) as nat, (g - 1) as nat); lemma_dump_fuel_mono(ast, sm, c[2], (f - 1) as nat, (g - 1) as nat); },
                NodeType::AssocDeclChildren => { lemma_dump_fuel_mono(ast, sm, c[0], (f - 1) as nat, (g - 1) as nat); lemma_dump_list_mono(ast, sm, group_or_empty(ast, c[1]), (f - 1) as nat, (g - 1) as nat); lemma_dump_fuel_mono(ast, sm, c[2], (f - 1) as nat, (g - 1) as nat); lemma_dump_fuel_mono(ast, sm, c[3], (f - 1) as nat, (g - 1) as nat); lemma_dump_list_mono(ast, sm, group_or_empty(ast, c[4]), (f - 1) as nat, (g - 1) as nat); },
                NodeType::FnTypeChildren => { if c[1] != 0 { lemma_dump_fuel_mono(ast, sm, c[1], (f - 1) as nat, (g - 1) as nat); } lemma_dump_list_mono(ast, sm, group_or_empty(ast, c[2]), (f - 1) as nat, (g - 1) as nat); },
                NodeType::NoChild => {},
        }
    }
}

/// The same for a group of children.
pub proof fn lemma_dump_list_mono(ast: Ast, sm: SourceMap, gs: Seq<NodeIndex>, f: nat, g: nat)
    requires
        dumpable_list(ast, sm, gs, f),
        f <= g,
    ensures
        dumpable_list(ast, sm, gs, g),
        dump_list(ast, sm, gs, g) == dump_list(ast, sm, gs, f),
    decreases f, gs.len() + 1,
{
    if gs.len() > 0 {
        lemma_dump_list_mono(ast, sm, gs.drop_last(), f, g);
        lemma_dump_fuel_mono(ast, sm, gs.last(), f, g);
    }
}

/// The rendering of a node is what any amount of fuel that suffices gives.
pub proof fn lemma_dump_spec_at(ast: Ast, sm: SourceMap, n: u32, f: nat)
    requires
        dumpable_fuel(ast, sm, n, f),
    ensures
        dumpable(ast, sm, n),
        dump_spec(ast, sm, n) == dump_fuel(ast, sm, n, f),
{
    let h = choose|h: nat| #[trigger] dumpable_fuel(ast, sm, n, h);
    if f <= h {
        lemma_dump_fuel_mono(ast, sm, n, f, h);
    } else {
        lemma_dump_fuel_mono(ast, sm, n, h, f);
    }
}

/// The number of child slots that a node type renders, for the types whose
/// slots all hold single children.
pub open spec fn plain_arity(t: NodeType) -> Option<nat> {
    match t {
        NodeType::SingleChild => Some(1),
        NodeType::DoubleChildren => Some(2),
        NodeType::TripleChildren => Some(3),
        NodeType::QuadrupleChildren => Some(4),
        _ => None,
    }
}

/// A space, then the rendering, for each node of `ns` in order.
pub open spec fn spaced_dumps(ast: Ast, sm: SourceMap, ns: Seq<NodeIndex>) -> Seq<char>
    decreases ns.len(),
{
    if ns.len() == 0 {
        Seq::empty()
    } else {
        spaced_dumps(ast, sm, ns.drop_last()) + " "@ + dump_spec(ast, sm, ns.last())
    }
}

/// A node whose slots all hold single children renders as its kind name
/// followed by the renderings of its children, each after a space, in the
/// order of their slots.
pub proof fn lemma_dump_children_in_slot_order(ast: Ast, sm: SourceMap, n: u32)
    requires
        n != 0,
        ast.is_node(n),
        dumpable(ast, sm, n),
        plain_arity(spec_node_type(ast.nodes@[n as int])) is Some,
    ensures
        ast.children_of(n).len() >= plain_arity(spec_node_type(ast.nodes@[n as int])).unwrap(),
        dump_spec(ast, sm, n) == "("@ + spec_kind_name(ast.nodes@[n as int]) + spaced_dumps(
            ast,
            sm,
            ast.children_of(n).take(plain_arity(spec_node_type(ast.nodes@[n as int])).unwrap() as int),
        ) + ")"@,
{
    let f = choose|f: nat| #[trigger] dumpable_fuel(ast, sm, n, f);
    lemma_dump_spec_at(ast, sm, n, f);
    let g = (f - 1) as nat;
    let c = ast.children_of(n);
    let k = plain_arity(spec_node_type(ast.nodes@[n as int])).unwrap() as int;
    assert(c.len() >= k);
    assert forall|i: int| 0 <= i < k implies dump_spec(ast, sm, #[trigger] c[i]) == dump_fuel(ast, sm, c[i], g) by {
        lemma_dump_spec_at(ast, sm, c[i], g);
    }
    assert forall|j: int| 0 < j <= k implies #[trigger] c.take(j).drop_last() == c.take(j - 1) && c.take(j).last() == c[j - 1] by {
        assert(c.take(j).drop_last() =~= c.take(j - 1));
    }
    assert(c.take(0) =~= Seq::<NodeIndex>::empty());
    assert(spaced_dumps(ast, sm, c.take(0)) == Seq::<char>::empty());
    let d0 = dump_spec(ast, sm, c[0]);
    assert(spaced_dumps(ast, sm, c.take(1)) == spaced_dumps(ast, sm, c.take(0)) + " "@ + d0);
    assert(Seq::<char>::empty() + " "@ + d0 =~= " "@ + d0);
    let name = spec_kind_name(ast.nodes@[n as int]);
    match spec_node_type(ast.nodes@[n as int]) {
        NodeType::SingleChild => {
            assert(dump_spec(ast, sm, n) =~= "("@ + name + spaced_dumps(ast, sm, c.take(k)) + ")"@);
        },
        NodeType::DoubleChildren => {
            assert(spaced_dumps(ast, sm, c.take(2)) == spaced_dumps(ast, sm, c.take(1)) + " "@ + dump_spec(ast, sm, c[1]));
            assert(dump_spec(ast, sm, n) =~= "("@ + name + spaced_dumps(ast, sm, c.take(k)) + ")"@);
        },
        NodeType::TripleChildren => {
            assert(spaced_dumps(ast, sm, c.take(2)) == spaced_dumps(ast, sm, c.take(1)) + " "@ + dump_spec(ast, sm, c[1]));
            assert(spaced_dumps(ast, sm, c.take(3)) == spaced_dumps(ast, sm, c.take(2)) + " "@ + dump_spec(ast, sm, c[2]));
            assert(dump_spec(ast, sm, n) =~= "("@ + name + spaced_dumps(ast, sm, c.take(k)) + ")"@);
        },
        _ => {
            assert(spaced_dumps(ast, sm, c.take(2)) == spaced_dumps(ast, sm, c.take(1)) + " "@ + dump_spec(ast, sm, c[1]));
            assert(spaced_dumps(ast, sm, c.take(3)) == spaced_dumps(ast, sm, c.take(2)) + " "@ + dump_spec(ast, sm, c[2]));
            assert(spaced_dumps(ast, sm, c.take(4)) == spaced_dumps(ast, sm, c.take(3)) + " "@ + dump_spec(ast, sm, c[3]));
            assert(dump_spec(ast, sm, n) =~= "("@ + name + spaced_dumps(ast, sm, c.take(k)) + ")"@);
        },
    }
}

/// The number of single child slots before the group, for the node types
/// that end with a group of children.
pub open spec fn arity_before_group(t: NodeType) -> Option<nat> {
    match t {
        NodeType::SingleWithMultiChildren => Some(1),
        NodeType::DoubleWithMultiChildren => Some(2),
        NodeType::TripleWithMultiChildren => Some(3),
        _ => None,
    }
}

/// A node whose single child slots come before a group renders, after its
/// kind name, the renderings of those children in slot order, then the group.
pub proof fn lemma_dump_single_slots_before_group(ast: Ast, sm: SourceMap, n: u32)
    requires
        n != 0,
        ast.is_node(n),
        dumpable(ast, sm, n),
        arity_before_group(spec_node_type(ast.nodes@[n as int])) is Some,
    ensures
        ast.children_of(n).len() > arity_before_group(spec_node_type(ast.nodes@[n as int])).unwrap(),
        ("("@ + spec_kind_name(ast.nodes@[n as int]) + spaced_dumps(
            ast,
            sm,
            ast.children_of(n).take(arity_before_group(spec_node_type(ast.nodes@[n as int])).unwrap() as int),
        ) + " "@).is_prefix_of(dump_spec(ast, sm, n)),
{
    let f = choose|f: nat| #[trigger] dumpable_fuel(ast, sm, n, f);
    lemma_dump_spec_at(ast, sm, n, f);
    let g = (f - 1) as nat;
    let c = ast.children_of(n);
    let k = arity_before_group(spec_node_type(ast.nodes@[n as int])).unwrap() as int;
    assert(c.len() > k);
    assert forall|i: int| 0 <= i < k implies dump_spec(ast, sm, #[trigger] c[i]) == dump_fuel(ast, sm, c[i], g) by {
        lemma_dump_spec_at(ast, sm, c[i], g);
    }
    assert forall|j: int| 0 < j <= k implies #[trigger] c.take(j).drop_last() == c.take(j - 1) && c.take(j).last() == c[j - 1] by {
        assert(c.take(j).drop_last() =~= c.take(j - 1));
    }
    assert(c.take(0) =~= Seq::<NodeIndex>::empty());
    assert(spaced_dumps(ast, sm, c.take(0)) == Seq::<char>::empty());
    let d0 = dump_spec(ast, sm, c[0]);
    assert(spaced_dumps(ast, sm, c.take(1)) == spaced_dumps(ast, sm, c.take(0)) + " "@ + d0);
    assert(Seq::<char>::empty() + " "@ + d0 =~= " "@ + d0);
    let name = spec_kind_name(ast.nodes@[n as int]);
    let pre = "("@ + name + spaced_dumps(ast, sm, c.take(k)) + " "@;
    match spec_node_type(ast.nodes@[n as int]) {
        NodeType::SingleWithMultiChildren => {
            assert(dump_spec(ast, sm, n) =~= pre + (dump_list(ast, sm, group_or_empty(ast, c[1]), g) + ")"@));
        },
        NodeType::DoubleWithMultiChildren => {
            assert(spaced_dumps(ast, sm, c.take(2)) == spaced_dumps(ast, sm, c.take(1)) + " "@ + dump_spec(ast, sm, c[1]));
            assert(dump_spec(ast, sm, n) =~= pre + (dump_list(ast, sm, group_or_empty(ast, c[2]), g) + ")"@));
        },
        _ => {
            assert(spaced_dumps(ast, sm, c.take(2)) == spaced_dumps(ast, sm, c.take(1)) + " "@ + dump_spec(ast, sm, c[1]));
            assert(spaced_dumps(ast, sm, c.take(3)) == spaced_dumps(ast, sm, c.take(2)) + " "@ + dump_spec(ast, sm, c[2]));
            assert(dump_spec(ast, sm, n) =~= pre + (dump_list(ast, sm, group_or_empty(ast, c[3]), g) + ")"@));
        },
    }
    assert(pre =~= dump_spec(ast, sm, n).subrange(0, pre.len() as int));
}

impl Ast {
    /// The trimmed source text of a node; `None` for the invalid node, for an
    /// index that is not a node, or when the node's file has no text.
    pub fn source_content(&self, node_index: NodeIndex, source_map: &SourceMap) -> (r: Option<String>)
        requires
            self.wf(),
            node_index as int != self.nodes@.len(),
            self.is_node(node_index) ==> source_map.span_text_ok(self.spans@[node_index as int]),
        ensures
            match r {
                Some(s) => self.is_node(node_index) && source_map.span_text(self.spans@[node_index as int]) == Some(s@),
                None => !self.is_node(node_index) || source_map.span_text(self.spans@[node_index as int]) is None,
            },
    {
        if node_index == 0 {
            return None;
        }
        if let Some(span) = self.get_span(node_index) {
            source_map.span_source_text(span)
        } else {
            None
        }
    }

    fn dump_group(&self, g: &[NodeIndex], source_map: &SourceMap, Ghost(fuel): Ghost<nat>) -> (r: String)
        requires
            self.wf(),
            dumpable_list(*self, *source_map, g@, fuel),
        ensures
            r@ == dump_list(*self, *source_map, g@, fuel),
        decreases fuel, 2int,
    {
        proof {
            lemma_dumpable_list(*self, *source_map, g@, fuel);
        }
        let mut out = String::new();
        let mut i: usize = 0;
        while i < g.len()
            invariant
                self.wf(),
                0 <= i <= g@.len(),
                forall|k: int| 0 <= k < g@.len() ==> #[trigger] dumpable_fuel(*self, *source_map, g@[k], fuel),
                out@ == dump_list(*self, *source_map, g@.take(i as int), fuel),
            decreases g@.len() - i,
        {
            let d = self.dump_in(g[i], source_map, Ghost(fuel));
            proof {
                let t = g@.take(i as int + 1);
                assert(t.drop_last() == g@.take(i as int));
                assert(t.last() == g@[i as int]);
                if i == 0 {
                    assert(t.len() == 1);
                    assert(t[0] == g@[0]);
                    assert(dump_list(*self, *source_map, t, fuel) == d@);
                } else {
                    assert(dump_list(*self, *source_map, t, fuel) == out@ + " "@ + d@);
                }
            }
            if i > 0 {
                out.append(" ");
            }
            out.append(d.as_str());
            i += 1;
        }
        proof {
            assert(g@.take(g@.len() as int) == g@);
        }
        out
    }

    /// Renders the subtree under a node as an s-expression.
    pub fn dump_to_s_expression(&self, node_index: NodeIndex, source_map: &SourceMap) -> (r: String)
        requires
            self.wf(),
            dumpable(*self, *source_map, node_index),
        ensures
            r@ == dump_spec(*self, *source_map, node_index),
    {
        let ghost f = choose|f: nat| #[trigger] dumpable_fuel(*self, *source_map, node_index, f);
        self.dump_in(node_index, source_map, Ghost(f))
    }

    fn dump_in(&self, node_index: NodeIndex, source_map: &SourceMap, Ghost(fuel): Ghost<nat>) -> (r: String)
        requires
            self.wf(),
            dumpable_fuel(*self, *source_map, node_index, fuel),
        ensures
            r@ == dump_fuel(*self, *source_map, node_index, fuel),
        decreases fuel, 1int,
    {
        if node_index == 0 {
            return String::from_str("(<invalid node>)");
        }
        match self.get_node_kind(node_index) {
            None => {
                let mut out = String::from_str("Invalid node index: ");
                push_decimal(&mut out, node_index as u64);
                out
            },
            Some(kind) => {
                let children = self.get_children(node_index);
                match kind.node_type() {
                    NodeType::NoChild => {
                        let span = self.get_span(node_index).unwrap();
                        match source_map.span_source_text(span) {
                            Some(t) => {
                                let mut out = String::new();
                                out.append("(");
                                out.append(kind.kind_name());
                                out.append(" ");
                                out.append(t.as_str());
                                out.append(")");
                                out
                            },
                            None => String::from_str("<invalid source>"),
                        }
                    },
            NodeType::SingleChild => {
                let d0 = self.dump_in(children[0], source_map, Ghost((fuel - 1) as nat));
                let mut out = String::new();
                out.append("(");
                out.append(kind.kind_name());
                out.append(" ");
                out.append(d0.as_str());
                out.append(")");
                out
            },
            NodeType::DoubleChildren => {
                let d0 = self.dump_in(children[0], source_map, Ghost((fuel - 1) as nat));
                let d1 = self.dump_in(children[1], source_map, Ghost((fuel - 1) as nat));
                let mut out = String::new();
                out.append("(");
                out.append(kind.kind_name());
                out.append(" ");
                out.append(d0.as_str());
                out.append(" ");
                out.append(d1.as_str());
                out.append(")");
                out
            },
            NodeType::TripleChildren => {
                let d0 = self.dump_in(children[0], source_map, Ghost((fuel - 1) as nat));
                let d1 = self.dump_in(children[1], source_map, Ghost((fuel - 1) as nat));
                let d2 = self.dump_in(children[2], source_map, Ghost((fuel - 1) as nat));
                let mut out = String::new();
                out.append("(");
                out.append(kind.kind_name());
                out.append(" ");
                out.append(d0.as_str());
                out.append(" ");
                out.append(d1.as_str());
                out.append(" ");
                out.append(d2.as_str());
                out.append(")");
                out
            },
            NodeType::QuadrupleChildren => {
                let d0 = self.dump_in(children[0], source_map, Ghost((fuel - 1) as nat));
                let d1 = self.dump_in(children[1], source_map, Ghost((fuel - 1) as nat));
                let d2 = self.dump_in(children[2], source_map, Ghost((fuel - 1) as nat));
                let d3 = self.dump_in(children[3], source_map, Ghost((fuel - 1) as nat));
                let mut out = String::new();
                out.append("(");
                out.append(kind.kind_name());
                out.append(" ");
                out.append(d0.as_str());
                out.append(" ");
                out.append(d1.as_str());
                out.append(" ");
                out.append(d2.as_str());
                out.append(" ");
                out.append(d3.as_str());
                out.append(")");
                out
            },
            NodeType::MultiChildren => {
                let g0 = self.get_multi_child_slice(children[0]).unwrap();
                let j0 = self.dump_group(g0, source_map, Ghost((fuel - 1) as nat));
                let mut out = String::new();
                out.append("(");
                out.append(kind.kind_name());
                out.append(" ");
                out.append(j0.as_str());
                out.append(")");
                out
            },
            NodeType::SingleWithMultiChildren => {
                let d0 = self.dump_in(children[0], source_map, Ghost((fuel - 1) as nat));
                let g1 = self.get_multi_child_slice(children[1]).unwrap();
                let j1 = self.dump_group(g1, source_map, Ghost((fuel - 1) as nat));
                let mut out = String::new();
                out.append("(");
                out.append(kind.kind_name());
                out.append(" ");
                out.append(d0.as_str());
                out.append(" ");
                out.append(j1.as_str());
                out.append(")");
                out
            },
            NodeType::DoubleWithMultiChildren => {
                let d0 = self.dump_in(children[0], source_map, Ghost((fuel - 1) as nat));
                let d1 = self.dump_in(children[1], source_map, Ghost((fuel - 1) as nat));
                let g2 = self.get_multi_child_slice(children[2]).unwrap();
                let j2 = self.dump_group(g2, source_map, Ghost((fuel - 1) as nat));
                let mut out = String::new();
                out.append("(");
                out.append(kind.kind_name());
                out.append(" ");
                out.append(d0.as_str());
                out.append(" ");
                out.append(d1.as_str());
                out.append(" ");
                out.append(j2.as_str());
                out.append(")");
                out
            },
            NodeType::TripleWithMultiChildren => {
                let d0 = self.dump_in(children[0], source_map, Ghost((fuel - 1) as nat));
                let d1 = self.dump_in(children[1], source_map, Ghost((fuel - 1) as nat));
                let d2 = self.dump_in(children[2], source_map, Ghost((fuel - 1) as nat));
                let g3 = self.get_multi_child_slice(children[3]).unwrap();
                let j3 = self.dump_group(g3, source_map, Ghost((fuel - 1) as nat));
                let mut out = String::new();
                out.append("(");
                out.append(kind.kind_name());
                out.append(" ");
                out.append(d0.as_str());
                out.append(" ");
                out.append(d1.as_str());
                out.append(" ");
                out.append(d2.as_str());
                out.append(" ");
                out.append(j3.as_str());
                out.append(")");
                out
            },
            NodeType::FunctionDefChildren => {
                let d0 = self.dump_in(children[0], source_map, Ghost((fuel - 1) as nat));
                let g1 = self.get_multi_child_slice(children[1]).unwrap();
                let j1 = self.dump_group(g1, source_map, Ghost((fuel - 1) as nat));
                let d2 = self.dump_in(children[2], source_map, Ghost((fuel - 1) as nat));
                let d3 = self.dump_in(children[3], source_map, Ghost((fuel - 1) as nat));
                let g4 = self.get_multi_child_slice(children[4]).unwrap();
                let j4 = self.dump_group(g4, source_map, Ghost((fuel - 1) as nat));
                let d5 = self.dump_in(children[5], source_map, Ghost((fuel - 1) as nat));
                let mut out = String::new();
                out.append("(");
                out.append(kind.kind_name());
                out.append(" ");
                out.append(d0.as_str());
                out.append(" [");
                out.append(j1.as_str());
                out.append("] ");
                out.append(d2.as_str());
                out.append(" ");
                out.append(d3.as_str());
                out.append(" [");
                out.append(j4.as_str());
                out.append("] ");
                out.append(d5.as_str());
                out.append(")");
                out
            },
            NodeType::NormalFormDefChildren => {
                let d0 = self.dump_in(children[0], source_map, Ghost((fuel - 1) as nat));
                let g1 = self.get_multi_child_slice(children[1]).unwrap();
                let j1 = self.dump_group(g1, source_map, Ghost((fuel - 1) as nat));
                let d2 = self.dump_in(children[2], source_map, Ghost((fuel - 1) as nat));
                let g3 = self.get_multi_child_slice(children[3]).unwrap();
                let j3 = self.dump_group(g3, source_map, Ghost((fuel - 1) as nat));
                let d4 = self.dump_in(children[4], source_map, Ghost((fuel - 1) as nat));
                let mut out = String::new();
                out.append("(");
                out.append(kind.kind_name());
                out.append(" ");
                out.append(d0.as_str());
                out.append(" <");
                out.append(j1.as_str());
                out.append("> ");
                out.append(d2.as_str());
                out.append(" [");
                out.append(j3.as_str());
                out.append("] ");
                out.append(d4.as_str());
                out.append(")");
                out
            },
            NodeType::AlgebraicEffectChildren => {
                let d0 = self.dump_in(children[0], source_map, Ghost((fuel - 1) as nat));
                let g1 = self.get_multi_child_slice(children[1]).unwrap();
                let j1 = self.dump_group(g1, source_map, Ghost((fuel - 1) as nat));
                let d2 = self.dump_in(children[2], source_map, Ghost((fuel - 1) as nat));
                let g3 = self.get_multi_child_slice(children[3]).unwrap();
                let j3 = self.dump_group(g3, source_map, Ghost((fuel - 1) as nat));
                let d4 = self.dump_in(children[4], source_map, Ghost((fuel - 1) as nat));
                let mut out = String::new();
                out.append("(");
                out.append(kind.kind_name());
                out.append(" ");
                out.append(d0.as_str());
                out.append(" [");
                out.append(j1.as_str());
                out.append("] ");
                out.append(d2.as_str());
                out.append(" [");
                out.append(j3.as_str());
                out.append("] ");
                out.append(d4.as_str());
                out.append(")");
                out
            },
            NodeType::TypeDefChildren => {
                let d0 = self.dump_in(children[0], source_map, Ghost((fuel - 1) as nat));
                let g1 = self.get_multi_child_slice(children[1]).unwrap();
                let j1 = self.dump_group(g1, source_map, Ghost((fuel - 1) as nat));
                let d2 = self.dump_in(children[2], source_map, Ghost((fuel - 1) as nat));
                let mut out = String::new();
                out.append("(");
                out.append(kind.kind_name());
                out.append(" ");
                out.append(d0.as_str());
                out.append(" [");
                out.append(j1.as_str());
                out.append("] ");
                out.append(d2.as_str());
                out.append(")");
                out
            },
            NodeType::TraitDefChildren => {
                let d0 = self.dump_in(children[0], source_map, Ghost((fuel - 1) as nat));
                let d1 = self.dump_in(children[1], source_map, Ghost((fuel - 1) as nat));
                let g2 = self.get_multi_child_slice(children[2]).unwrap();
                let j2 = self.dump_group(g2, source_map, Ghost((fuel - 1) as nat));
                let d3 = self.dump_in(children[3], source_map, Ghost((fuel - 1) as nat));
                let mut out = String::new();
                out.append("(");
                out.append(kind.kind_name());
                out.append(" ");
                out.append(d0.as_str());
                out.append(" ");
                out.append(d1.as_str());
                out.append(" [");
                out.append(j2.as_str());
                out.append("] ");
                out.append(d3.as_str());
                out.append(")");
                out
            },
            NodeType::ImplTraitDefChildren => {
                let d0 = self.dump_in(children[0], source_map, Ghost((fuel - 1) as nat));
                let d1 = self.dump_in(children[1], source_map, Ghost((fuel - 1) as nat));
                let g2 = self.get_multi_child_slice(children[2]).unwrap();
                let j2 = self.dump_group(g2, source_map, Ghost((fuel - 1) as nat));
                let d3 = self.dump_in(children[3], source_map, Ghost((fuel - 1) as nat));
                let mut out = String::new();
                out.append("(");
                out.append(kind.kind_name());
                out.append(" ");
                out.append(d0.as_str());
                out.append(" ");
                out.append(d1.as_str());
                out.append(" [");
                out.append(j2.as_str());
                out.append("] ");
                out.append(d3.as_str());
                out.append(")");
                out
            },
            NodeType::ExtendTraitDefChildren => {
                let d0 = self.dump_in(children[0], source_map, Ghost((fuel - 1) as nat));
                let d1 = self.dump_in(children[1], source_map, Ghost((fuel - 1) as nat));
                let g2 = self.get_multi_child_slice(children[2]).unwrap();
                let j2 = self.dump_group(g2, source_map, Ghost((fuel - 1) as nat));
                let d3 = self.dump_in(children[3], source_map, Ghost((fuel - 1) as nat));
                let mut out = String::new();
                out.append("(");
                out.append(kind.kind_name());
                out.append(" ");
                out.append(d0.as_str());
                out.append(" ");
                out.append(d1.as_str());
                out.append(" [");
                out.append(j2.as_str());
                out.append("] ");
                out.append(d3.as_str());
                out.append(")");
                out
            },
            NodeType::TypeAliasChildren => {
                let d0 = self.dump_in(children[0], source_map, Ghost((fuel - 1) as nat));
                let g1 = self.get_multi_child_slice(children[1]).unwrap();
                let j1 = self.dump_group(g1, source_map, Ghost((fuel - 1) as nat));
                let d2 = self.dump_in(children[2], source_map, Ghost((fuel - 1) as nat));
                let mut out = String::new();
                out.append("(");
                out.append(kind.kind_name());
                out.append(" ");
                out.append(d0.as_str());
                out.append(" <");
                out.append(j1.as_str());
                out.append("> ");
                out.append(d2.as_str());
                out.append(")");
                out
            },
            NodeType::AssocDeclChildren => {
                let d0 = self.dump_in(children[0], source_map, Ghost((fuel - 1) as nat));
                let g1 = self.get_multi_child_slice(children[1]).unwrap();
                let j1 = self.dump_group(g1, source_map, Ghost((fuel - 1) as nat));
                let d2 = self.dump_in(children[2], source_map, Ghost((fuel - 1) as nat));
                let d3 = self.dump_in(children[3], source_map, Ghost((fuel - 1) as nat));
                let g4 = self.get_multi_child_slice(children[4]).unwrap();
                let j4 = self.dump_group(g4, source_map, Ghost((fuel - 1) as nat));
                let mut out = String::new();
                out.append("(");
                out.append(kind.kind_name());
                out.append(" ");
                out.append(d0.as_str());
                out.append(" <");
                out.append(j1.as_str());
                out.append("> ");
                out.append(d2.as_str());
                out.append(" ");
                out.append(d3.as_str());
                out.append(" [");
                out.append(j4.as_str());
                out.append("])");
                out
            },
            NodeType::FnTypeChildren => {
                let flags = children[0];
                let abi_node = children[1];
                let mods_str = fn_mod_flags_to_string(flags);
                let g2 = self.get_multi_child_slice(children[2]).unwrap();
                let params_str = self.dump_group(g2, source_map, Ghost((fuel - 1) as nat));
                let mut out = String::new();
                if abi_node != 0 {
                    let abi = self.dump_in(abi_node, source_map, Ghost((fuel - 1) as nat));
                    out.append("(FnType [");
                    out.append(mods_str.as_str());
                    out.append("] ");
                    out.append(abi.as_str());
                    out.append(" [");
                    out.append(params_str.as_str());
                    out.append("])");
                } else if !mods_str.as_str().is_empty() {
                    out.append("(FnType [");
                    out.append(mods_str.as_str());
                    out.append("] [");
                    out.append(params_str.as_str());
                    out.append("])");
                } else {
                    out.append("(FnType [");
                    out.append(params_str.as_str());
                    out.append("])");
                }
                out
            },
                }
            },
        }
    }
}

} // verus!

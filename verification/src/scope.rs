//! Lexical scopes: the names each scope binds, the scopes it imports from,
//! and the clause parameters it declares, with the lookups that resolve a
//! name against them.
//!
//! Lookups follow imports and parent links as they were registered; the
//! manager does not forbid cycles among them, so each lookup states in its
//! `requires` that the walk it makes comes to an end.
use std::collections::HashMap;
use vstd::prelude::*;

use crate::ast::{join_words, lemma_join_push};
use crate::luna_hir::{Clause, HirId, Import, ScopeId};
use crate::source::{trim_str, trimmed};
use crate::symbol::Symbol;
use crate::text::{
    debug_str, decimal, push_decimal, push_str, str_chars, str_debug_text, string_of_chars,
};

verus! {

/// A name bound in a scope, with the node it stands for and, when the
/// name opens a scope of its own (a module, a package), that scope.
#[derive(Clone, Copy)]
pub struct Item {
    pub symbol: Symbol,
    pub hir_id: HirId,
    pub scope_id: Option<ScopeId>,
}

impl Item {
    pub fn new(symbol: Symbol, hir_id: HirId, scope_id: Option<ScopeId>) -> (r: Item)
        ensures
            r == (Item { symbol, hir_id, scope_id }),
    {
        Item { symbol, hir_id, scope_id }
    }

    /// Points the item at another node.
    pub fn update_hir_id_unchecked(&mut self, hir_id: HirId)
        ensures
            final(self).hir_id == hir_id,
            final(self).symbol == old(self).symbol,
            final(self).scope_id == old(self).scope_id,
    {
        self.hir_id = hir_id;
    }
}

/// One scope.  In an unordered scope (a module) a name is bound at most
/// once; an ordered scope (a block) lets a later binding shadow an
/// earlier one.
pub struct Scope {
    pub ordered: bool,
    pub id: ScopeId,
    pub hir_id: HirId,
    pub name: Option<Symbol>,
    pub parent: Option<ScopeId>,
    pub items: Vec<Item>,
    pub imports: Vec<Import>,
    pub clauses: Vec<Clause>,
}

/// A scope as `add_scope` creates it: nothing bound, imported or declared.
pub open spec fn is_fresh_scope(
    s: Scope,
    id: ScopeId,
    hir_id: HirId,
    name: Option<Symbol>,
    parent: Option<ScopeId>,
    ordered: bool,
) -> bool {
    &&& s.id == id
    &&& s.hir_id == hir_id
    &&& s.name == name
    &&& s.parent == parent
    &&& s.ordered == ordered
    &&& s.items@.len() == 0
    &&& s.imports@.len() == 0
    &&& s.clauses@.len() == 0
}

/// `b` is `a` with its item list changed to `items`.
pub open spec fn same_but_items(a: Scope, b: Scope, items: Seq<Item>) -> bool {
    &&& b.id == a.id
    &&& b.hir_id == a.hir_id
    &&& b.name == a.name
    &&& b.parent == a.parent
    &&& b.ordered == a.ordered
    &&& b.items@ == items
    &&& b.imports@ == a.imports@
    &&& b.clauses@ == a.clauses@
}

/// `b` is `a` with its import list changed to `imports`.
pub open spec fn same_but_imports(a: Scope, b: Scope, imports: Seq<Import>) -> bool {
    &&& b.id == a.id
    &&& b.hir_id == a.hir_id
    &&& b.name == a.name
    &&& b.parent == a.parent
    &&& b.ordered == a.ordered
    &&& b.items@ == a.items@
    &&& b.imports@ == imports
    &&& b.clauses@ == a.clauses@
}

/// `b` is `a` with its clause list changed to `clauses`.
pub open spec fn same_but_clauses(a: Scope, b: Scope, clauses: Seq<Clause>) -> bool {
    &&& b.id == a.id
    &&& b.hir_id == a.hir_id
    &&& b.name == a.name
    &&& b.parent == a.parent
    &&& b.ordered == a.ordered
    &&& b.items@ == a.items@
    &&& b.imports@ == a.imports@
    &&& b.clauses@ == clauses
}

impl Scope {
    fn new(
        id: ScopeId,
        hir_id: HirId,
        name: Option<Symbol>,
        parent: Option<ScopeId>,
        ordered: bool,
    ) -> (r: Scope)
        ensures
            is_fresh_scope(r, id, hir_id, name, parent, ordered),
    {
        Scope {
            id,
            hir_id,
            parent,
            name,
            items: Vec::new(),
            ordered,
            imports: Vec::new(),
            clauses: Vec::new(),
        }
    }
}

/// Why a scope operation was refused.
pub enum ScopeError {
    /// The name is bound already in an unordered scope.
    DuplicateSymbol(Symbol),
    /// No scope has this id.
    InvalidParentScope(ScopeId),
}

/// Whether some item of `items` binds `name`.
pub open spec fn binds(items: Seq<Item>, name: Seq<char>) -> bool {
    exists|k: int| 0 <= k < items.len() && (#[trigger] items[k]).symbol@ == name
}

/// The last item of `items` that binds `name`.
pub open spec fn last_item_named(items: Seq<Item>, name: Seq<char>) -> Option<Item>
    decreases items.len(),
{
    if items.len() == 0 {
        None
    } else if items.last().symbol@ == name {
        Some(items.last())
    } else {
        last_item_named(items.drop_last(), name)
    }
}

/// Where an import sends a lookup of `name`: the scope to look in and the
/// name to look for there, or `None` when the import does not bring `name`.
pub open spec fn import_target(imp: Import, name: Seq<char>) -> Option<(ScopeId, Seq<char>)> {
    match imp {
        Import::All(s) => Some((s, name)),
        Import::Multi(s, names) => if exists|i: int|
            0 <= i < names@.len() && (#[trigger] names@[i])@ == name {
            Some((s, name))
        } else {
            None
        },
        Import::Single(s, n) => if n@ == name {
            Some((s, name))
        } else {
            None
        },
        Import::Alias { scope_id, alias, original } => if alias@ == name {
            Some((scope_id, original@))
        } else {
            None
        },
    }
}

/// Looking `name` up in scope `sid`, with at most `fuel` nested scopes
/// visited through imports; `None` when that is not enough.  A scope's own
/// items come first, the last binding winning; then its imports, the last
/// one that yields an item winning.
pub open spec fn lookup_fuel(m: Map<ScopeId, Scope>, name: Seq<char>, sid: ScopeId, fuel: nat) -> Option<
    Option<Item>,
>
    decreases fuel, 0int,
{
    if fuel == 0 {
        None
    } else if !m.contains_key(sid) {
        Some(None)
    } else {
        match last_item_named(m[sid].items@, name) {
            Some(it) => Some(Some(it)),
            None => imports_fuel(m, name, m[sid].imports@, m[sid].imports@.len() as int, (fuel - 1) as nat),
        }
    }
}

/// The lookup of `name` through the first `n` imports of `imps`, the last
/// of them first.
pub open spec fn imports_fuel(
    m: Map<ScopeId, Scope>,
    name: Seq<char>,
    imps: Seq<Import>,
    n: int,
    fuel: nat,
) -> Option<Option<Item>>
    decreases fuel, n,
{
    if n <= 0 {
        Some(None)
    } else {
        match import_target(imps[n - 1], name) {
            None => imports_fuel(m, name, imps, n - 1, fuel),
            Some(t) => match lookup_fuel(m, t.1, t.0, fuel) {
                None => None,
                Some(Some(it)) => Some(Some(it)),
                Some(None) => imports_fuel(m, name, imps, n - 1, fuel),
            },
        }
    }
}

/// The lookup of `name` in `sid` comes to an end: the imports it follows
/// do not lead round in a circle.
pub open spec fn lookup_ends(m: Map<ScopeId, Scope>, name: Seq<char>, sid: ScopeId) -> bool {
    exists|f: nat| (#[trigger] lookup_fuel(m, name, sid, f)) is Some
}

/// The item that looking `name` up in `sid` finds.
pub open spec fn lookup_spec(m: Map<ScopeId, Scope>, name: Seq<char>, sid: ScopeId) -> Option<Item> {
    lookup_fuel(m, name, sid, choose|f: nat| (#[trigger] lookup_fuel(m, name, sid, f)) is Some).unwrap()
}

/// The manager of all scopes; scope ids are handed out in increasing order.
pub struct ScopeManager {
    pub root: ScopeId,
    next_scope_id: ScopeId,
    scopes: HashMap<ScopeId, Scope>,
}

impl View for ScopeManager {
    type V = Map<ScopeId, Scope>;

    closed spec fn view(&self) -> Map<ScopeId, Scope> {
        self.scopes@
    }
}

impl ScopeManager {
    /// The id the next scope will get.
    pub closed spec fn next_id(&self) -> ScopeId {
        self.next_scope_id
    }

    /// The root scope's id.
    pub closed spec fn root_id(&self) -> ScopeId {
        self.root
    }

    /// Every scope is stored under its own id, and every id in use lies
    /// below the next one to be handed out.
    pub open spec fn wf(&self) -> bool {
        forall|k: ScopeId| #[trigger] self@.contains_key(k) ==> k < self.next_id() && self@[k].id == k
    }

    /// A manager that holds the root scope, with id 0.
    pub fn new() -> (r: ScopeManager)
        ensures
            r.wf(),
            r.root_id() == 0,
            r.next_id() == 1,
            r@.dom() == set![0usize],
            is_fresh_scope(r@[0], 0, 0, None, None, false),
    {
        let mut result = ScopeManager { root: 0, next_scope_id: 0, scopes: HashMap::new() };
        let root = result.add_scope(None, None, false, 0);
        match root {
            Ok(id) => {
                result.root = id;
            },
            Err(_) => {},
        }
        proof {
            assert(result@.dom() =~= set![0usize]);
        }
        result
    }

    /// The scope with this id, when there is one.
    fn scope(&self, scope_id: ScopeId) -> (r: Option<&Scope>)
        ensures
            match r {
                Some(s) => self@.contains_key(scope_id) && *s == self@[scope_id],
                None => !self@.contains_key(scope_id),
            },
    {
        self.scopes.get(&scope_id)
    }

    /// Takes the scope stored under `scope_id` out of the manager.
    fn take_scope(&mut self, scope_id: ScopeId) -> (r: Option<Scope>)
        ensures
            final(self)@ == old(self)@.remove(scope_id),
            final(self).next_id() == old(self).next_id(),
            final(self).root_id() == old(self).root_id(),
            match r {
                Some(s) => old(self)@.contains_key(scope_id) && s == old(self)@[scope_id],
                None => !old(self)@.contains_key(scope_id),
            },
    {
        self.scopes.remove(&scope_id)
    }
}

/// Whether `items` binds `name`, looking at each item.
fn any_named(items: &Vec<Item>, name: &Symbol) -> (r: bool)
    ensures
        r == binds(items@, name@),
{
    let mut i: usize = 0;
    while i < items.len()
        invariant
            0 <= i <= items@.len(),
            forall|k: int| 0 <= k < i ==> (#[trigger] items@[k]).symbol@ != name@,
        decreases items@.len() - i,
    {
        if items[i].symbol.same(name) {
            return true;
        }
        i += 1;
    }
    false
}

/// The last item of `items` that binds `name`.
fn find_last_named(items: &Vec<Item>, name: &Symbol) -> (r: Option<Item>)
    ensures
        r == last_item_named(items@, name@),
{
    let mut i = items.len();
    proof {
        assert(items@.subrange(0, i as int) =~= items@);
    }
    while i > 0
        invariant
            i <= items@.len(),
            last_item_named(items@, name@) == last_item_named(items@.subrange(0, i as int), name@),
        decreases i,
    {
        let ghost pre = items@.subrange(0, i as int);
        if items[i - 1].symbol.same(name) {
            return Some(items[i - 1]);
        }
        proof {
            assert(pre.drop_last() =~= items@.subrange(0, i - 1));
        }
        i -= 1;
    }
    None
}

/// Whether `names` holds `name`.
fn names_hold(names: &Vec<Symbol>, name: &Symbol) -> (r: bool)
    ensures
        r == exists|i: int| 0 <= i < names@.len() && (#[trigger] names@[i])@ == name@,
{
    let mut i: usize = 0;
    while i < names.len()
        invariant
            0 <= i <= names@.len(),
            forall|k: int| 0 <= k < i ==> (#[trigger] names@[k])@ != name@,
        decreases names@.len() - i,
    {
        if names[i].same(name) {
            return true;
        }
        i += 1;
    }
    false
}

impl ScopeManager {
    fn lookup_in(&self, name: Symbol, scope_id: ScopeId, Ghost(fuel): Ghost<nat>) -> (r: Option<Item>)
        requires
            lookup_fuel(self@, name@, scope_id, fuel) is Some,
        ensures
            r == lookup_fuel(self@, name@, scope_id, fuel).unwrap(),
        decreases fuel,
    {
        match self.scope(scope_id) {
            None => None,
            Some(scope) => {
                if let Some(item) = find_last_named(&scope.items, &name) {
                    return Some(item);
                }
                let ghost m = self@;
                let ghost imps = scope.imports@;
                let ghost f1: nat = (fuel - 1) as nat;
                let mut j = scope.imports.len();
                while j > 0
                    invariant
                        j <= imps.len(),
                        imps == scope.imports@,
                        m == self@,
                        fuel >= 1,
                        f1 == fuel - 1,
                        lookup_fuel(m, name@, scope_id, fuel) == imports_fuel(m, name@, imps, imps.len() as int, f1),
                        imports_fuel(m, name@, imps, imps.len() as int, f1)
                            == imports_fuel(m, name@, imps, j as int, f1),
                        imports_fuel(m, name@, imps, j as int, f1) is Some,
                    decreases j,
                {
                    let found = match &scope.imports[j - 1] {
                        Import::All(s) => self.lookup_in(name, *s, Ghost(f1)),
                        Import::Multi(s, names) => {
                            if names_hold(names, &name) {
                                self.lookup_in(name, *s, Ghost(f1))
                            } else {
                                None
                            }
                        },
                        Import::Single(s, n) => {
                            if n.same(&name) {
                                self.lookup_in(name, *s, Ghost(f1))
                            } else {
                                None
                            }
                        },
                        Import::Alias { scope_id: s, alias, original } => {
                            if alias.same(&name) {
                                self.lookup_in(*original, *s, Ghost(f1))
                            } else {
                                None
                            }
                        },
                    };
                    if found.is_some() {
                        return found;
                    }
                    j -= 1;
                }
                None
            },
        }
    }

    /// Looks `name` up in one scope: its own items first (the last
    /// binding wins), then what its imports bring, the last import first.
    pub fn lookup(&self, name: Symbol, scope_id: ScopeId) -> (r: Option<Item>)
        requires
            lookup_ends(self@, name@, scope_id),
        ensures
            r == lookup_spec(self@, name@, scope_id),
    {
        let ghost f = choose|f: nat| (#[trigger] lookup_fuel(self@, name@, scope_id, f)) is Some;
        self.lookup_in(name, scope_id, Ghost(f))
    }
}


/// What `add_scope` did, given the scopes before (`old_m`) and after
/// (`new_m`) and the id `id` it handed out.
pub open spec fn add_scope_outcome(
    old_m: Map<ScopeId, Scope>,
    new_m: Map<ScopeId, Scope>,
    id: ScopeId,
    name: Option<Symbol>,
    parent: Option<ScopeId>,
    ordered: bool,
    hir_id: HirId,
    r: Result<ScopeId, ScopeError>,
) -> bool {
    match (parent, name) {
        (Some(p), Some(n)) => if !old_m.contains_key(p) {
            r == Err::<ScopeId, ScopeError>(ScopeError::InvalidParentScope(p)) && new_m == old_m
        } else if !old_m[p].ordered && binds(old_m[p].items@, n@) {
            r == Err::<ScopeId, ScopeError>(ScopeError::DuplicateSymbol(n)) && new_m == old_m
        } else {
            &&& r == Ok::<ScopeId, ScopeError>(id)
            &&& new_m == old_m.insert(p, new_m[p]).insert(id, new_m[id])
            &&& same_but_items(old_m[p], new_m[p], old_m[p].items@.push(Item { symbol: n, hir_id, scope_id: Some(id) }))
            &&& is_fresh_scope(new_m[id], id, hir_id, name, parent, ordered)
        },
        _ => {
            &&& r == Ok::<ScopeId, ScopeError>(id)
            &&& new_m == old_m.insert(id, new_m[id])
            &&& is_fresh_scope(new_m[id], id, hir_id, name, parent, ordered)
        },
    }
}

/// What `add_item` did.
pub open spec fn add_item_outcome(
    old_m: Map<ScopeId, Scope>,
    new_m: Map<ScopeId, Scope>,
    item: Item,
    scope_id: ScopeId,
    r: Result<(), ScopeError>,
) -> bool {
    if !old_m.contains_key(scope_id) {
        r == Err::<(), ScopeError>(ScopeError::InvalidParentScope(scope_id)) && new_m == old_m
    } else if !old_m[scope_id].ordered && binds(old_m[scope_id].items@, item.symbol@) {
        r == Err::<(), ScopeError>(ScopeError::DuplicateSymbol(item.symbol)) && new_m == old_m
    } else {
        &&& r == Ok::<(), ScopeError>(())
        &&& new_m == old_m.insert(scope_id, new_m[scope_id])
        &&& same_but_items(old_m[scope_id], new_m[scope_id], old_m[scope_id].items@.push(item))
    }
}

impl ScopeManager {
    /// Creates a scope under the next id, which is used up whatever the
    /// outcome.  A named scope with a parent is bound in the parent under
    /// its name, which must then be new there unless the parent is
    /// ordered; an anonymous scope, or one without a parent, is bound
    /// nowhere and its parent is not checked.
    pub fn add_scope(
        &mut self,
        name: Option<Symbol>,
        parent: Option<ScopeId>,
        ordered: bool,
        hir_id: HirId,
    ) -> (r: Result<ScopeId, ScopeError>)
        requires
            old(self).wf(),
            old(self).next_id() < usize::MAX,
        ensures
            final(self).wf(),
            final(self).root_id() == old(self).root_id(),
            final(self).next_id() == old(self).next_id() + 1,
            add_scope_outcome(old(self)@, final(self)@, old(self).next_id(), name, parent, ordered, hir_id, r),
    {
        let id = self.next_scope_id;
        self.next_scope_id = id + 1;
        let ghost m0 = self@;
        match (parent, name) {
            (Some(parent_id), Some(n)) => {
                match self.scopes.remove(&parent_id) {
                    None => {
                        proof {
                            assert(self@ =~= m0);
                        }
                        return Err(ScopeError::InvalidParentScope(parent_id));
                    },
                    Some(mut ps) => {
                        if !ps.ordered && any_named(&ps.items, &n) {
                            self.scopes.insert(parent_id, ps);
                            proof {
                                assert(self@ =~= m0);
                            }
                            return Err(ScopeError::DuplicateSymbol(n));
                        }
                        ps.items.push(Item::new(n, hir_id, Some(id)));
                        self.scopes.insert(parent_id, ps);
                    },
                }
            },
            _ => {},
        }
        let ghost m1 = self@;
        let scope = Scope::new(id, hir_id, name, parent, ordered);
        self.scopes.insert(id, scope);
        proof {
            if parent is Some && name is Some && m0.contains_key(parent->0) {
                assert(self@ =~= m0.insert(parent->0, self@[parent->0]).insert(id, self@[id]));
            } else {
                assert(self@ =~= m0.insert(id, self@[id]));
            }
        }
        Ok(id)
    }

    /// Binds an item in a scope; in an unordered scope its name must be
    /// new there.
    pub fn add_item(&mut self, item: Item, scope_id: ScopeId) -> (r: Result<(), ScopeError>)
        requires
            old(self).wf(),
        ensures
            final(self).wf(),
            final(self).root_id() == old(self).root_id(),
            final(self).next_id() == old(self).next_id(),
            add_item_outcome(old(self)@, final(self)@, item, scope_id, r),
    {
        let ghost m0 = self@;
        match self.take_scope(scope_id) {
            None => {
                proof {
                    assert(self@ =~= m0);
                }
                Err(ScopeError::InvalidParentScope(scope_id))
            },
            Some(mut sc) => {
                if !sc.ordered && any_named(&sc.items, &item.symbol) {
                    self.scopes.insert(scope_id, sc);
                    proof {
                        assert(self@ =~= m0);
                    }
                    return Err(ScopeError::DuplicateSymbol(item.symbol));
                }
                sc.items.push(item);
                self.scopes.insert(scope_id, sc);
                proof {
                    assert(self@ =~= m0.insert(scope_id, self@[scope_id]));
                }
                Ok(())
            },
        }
    }

    /// Declares a clause parameter in a scope.
    pub fn add_clause(&mut self, scope_id: ScopeId, clause: Clause) -> (r: Result<(), ScopeError>)
        requires
            old(self).wf(),
        ensures
            final(self).wf(),
            final(self).root_id() == old(self).root_id(),
            final(self).next_id() == old(self).next_id(),
            old(self)@.contains_key(scope_id) ==> {
                &&& r == Ok::<(), ScopeError>(())
                &&& final(self)@ == old(self)@.insert(scope_id, final(self)@[scope_id])
                &&& same_but_clauses(old(self)@[scope_id], final(self)@[scope_id], old(self)@[scope_id].clauses@.push(clause))
            },
            !old(self)@.contains_key(scope_id) ==> r == Err::<(), ScopeError>(ScopeError::InvalidParentScope(scope_id))
                && final(self)@ == old(self)@,
    {
        let ghost m0 = self@;
        match self.take_scope(scope_id) {
            None => {
                proof {
                    assert(self@ =~= m0);
                }
                Err(ScopeError::InvalidParentScope(scope_id))
            },
            Some(mut sc) => {
                sc.clauses.push(clause);
                self.scopes.insert(scope_id, sc);
                proof {
                    assert(self@ =~= m0.insert(scope_id, self@[scope_id]));
                }
                Ok(())
            },
        }
    }

    /// Adds an import to a scope.
    pub fn add_import(&mut self, scope_id: ScopeId, import: Import) -> (r: Result<(), ScopeError>)
        requires
            old(self).wf(),
        ensures
            final(self).wf(),
            final(self).root_id() == old(self).root_id(),
            final(self).next_id() == old(self).next_id(),
            old(self)@.contains_key(scope_id) ==> {
                &&& r == Ok::<(), ScopeError>(())
                &&& final(self)@ == old(self)@.insert(scope_id, final(self)@[scope_id])
                &&& same_but_imports(old(self)@[scope_id], final(self)@[scope_id], old(self)@[scope_id].imports@.push(import))
            },
            !old(self)@.contains_key(scope_id) ==> r == Err::<(), ScopeError>(ScopeError::InvalidParentScope(scope_id))
                && final(self)@ == old(self)@,
    {
        let ghost m0 = self@;
        match self.take_scope(scope_id) {
            None => {
                proof {
                    assert(self@ =~= m0);
                }
                Err(ScopeError::InvalidParentScope(scope_id))
            },
            Some(mut sc) => {
                sc.imports.push(import);
                self.scopes.insert(scope_id, sc);
                proof {
                    assert(self@ =~= m0.insert(scope_id, self@[scope_id]));
                }
                Ok(())
            },
        }
    }

    /// The items bound in a scope, in the order they were bound.
    pub fn items(&self, scope_id: ScopeId) -> (r: Option<Vec<Item>>)
        ensures
            match r {
                Some(v) => self@.contains_key(scope_id) && v@ == self@[scope_id].items@,
                None => !self@.contains_key(scope_id),
            },
    {
        match self.scope(scope_id) {
            None => None,
            Some(s) => {
                let mut v: Vec<Item> = Vec::new();
                let mut i: usize = 0;
                while i < s.items.len()
                    invariant
                        0 <= i <= s.items@.len(),
                        v@ == s.items@.subrange(0, i as int),
                    decreases s.items@.len() - i,
                {
                    v.push(s.items[i]);
                    proof {
                        assert(v@ =~= s.items@.subrange(0, i + 1));
                    }
                    i += 1;
                }
                proof {
                    assert(v@ =~= s.items@);
                }
                Some(v)
            },
        }
    }

    /// The clause parameters declared in a scope, in order.
    pub fn scope_clauses(&self, scope_id: ScopeId) -> (r: Option<Vec<Clause>>)
        ensures
            match r {
                Some(v) => self@.contains_key(scope_id) && v@ == self@[scope_id].clauses@,
                None => !self@.contains_key(scope_id),
            },
    {
        match self.scope(scope_id) {
            None => None,
            Some(s) => {
                let mut v: Vec<Clause> = Vec::new();
                let mut i: usize = 0;
                while i < s.clauses.len()
                    invariant
                        0 <= i <= s.clauses@.len(),
                        v@ == s.clauses@.subrange(0, i as int),
                    decreases s.clauses@.len() - i,
                {
                    v.push(s.clauses[i]);
                    proof {
                        assert(v@ =~= s.clauses@.subrange(0, i + 1));
                    }
                    i += 1;
                }
                proof {
                    assert(v@ =~= s.clauses@);
                }
                Some(v)
            },
        }
    }

    /// The name of a scope; `None` also for an anonymous one.
    pub fn scope_name(&self, scope_id: ScopeId) -> (r: Option<Symbol>)
        ensures
            r == (if self@.contains_key(scope_id) { self@[scope_id].name } else { None }),
    {
        match self.scope(scope_id) {
            None => None,
            Some(s) => s.name,
        }
    }

    /// The node that a scope belongs to.
    pub fn scope_hir_id(&self, scope_id: ScopeId) -> (r: Option<HirId>)
        ensures
            r == (if self@.contains_key(scope_id) { Some(self@[scope_id].hir_id) } else { None }),
    {
        match self.scope(scope_id) {
            None => None,
            Some(s) => Some(s.hir_id),
        }
    }

    /// The parent of a scope; `None` also for a scope without one.
    pub fn scope_parent(&self, scope_id: ScopeId) -> (r: Option<ScopeId>)
        ensures
            r == (if self@.contains_key(scope_id) { self@[scope_id].parent } else { None }),
    {
        match self.scope(scope_id) {
            None => None,
            Some(s) => s.parent,
        }
    }
}


/// The item a clause parameter declares under `name`, if it declares it.
pub open spec fn clause_item(c: Clause, name: Seq<char>) -> Option<Item> {
    match c {
        Clause::Decl { symbol, self_id, .. } => if symbol@ == name {
            Some(Item { symbol, hir_id: self_id, scope_id: None })
        } else {
            None
        },
        Clause::TypeDecl { symbol, self_id, .. } => if symbol@ == name {
            Some(Item { symbol, hir_id: self_id, scope_id: None })
        } else {
            None
        },
        Clause::TypeTraitBounded { symbol, self_id, .. } => if symbol@ == name {
            Some(Item { symbol, hir_id: self_id, scope_id: None })
        } else {
            None
        },
        _ => None,
    }
}

/// The item that the last clause of `cs` declaring `name` declares.
pub open spec fn last_clause_item(cs: Seq<Clause>, name: Seq<char>) -> Option<Item>
    decreases cs.len(),
{
    if cs.len() == 0 {
        None
    } else {
        match clause_item(cs.last(), name) {
            Some(it) => Some(it),
            None => last_clause_item(cs.drop_last(), name),
        }
    }
}

/// Resolving `name` from scope `sid` outwards, through at most `fuel`
/// scopes; `None` when that is not enough or a lookup on the way does not
/// end.  In each scope the lookup comes first, then its clause
/// parameters (the last declaration wins), then the parent scope.
pub open spec fn resolve_fuel(m: Map<ScopeId, Scope>, name: Seq<char>, sid: ScopeId, fuel: nat) -> Option<
    Option<(ScopeId, Item)>,
>
    decreases fuel,
{
    if fuel == 0 {
        None
    } else if !m.contains_key(sid) {
        Some(None)
    } else if !lookup_ends(m, name, sid) {
        None
    } else {
        match lookup_spec(m, name, sid) {
            Some(it) => Some(Some((sid, it))),
            None => match last_clause_item(m[sid].clauses@, name) {
                Some(it) => Some(Some((sid, it))),
                None => match m[sid].parent {
                    Some(p) => resolve_fuel(m, name, p, (fuel - 1) as nat),
                    None => Some(None),
                },
            },
        }
    }
}

/// The resolution of `name` from `sid` comes to an end: the parent links
/// it follows, and the lookups it makes, do not go round in a circle.
pub open spec fn resolve_ends(m: Map<ScopeId, Scope>, name: Seq<char>, sid: ScopeId) -> bool {
    exists|f: nat| (#[trigger] resolve_fuel(m, name, sid, f)) is Some
}

/// The scope and item that resolving `name` from `sid` finds.
pub open spec fn resolve_spec(m: Map<ScopeId, Scope>, name: Seq<char>, sid: ScopeId) -> Option<(ScopeId, Item)> {
    resolve_fuel(m, name, sid, choose|f: nat| (#[trigger] resolve_fuel(m, name, sid, f)) is Some).unwrap()
}

/// Following `path` from scope `sid`: each name is looked up in the scope
/// that the item of the previous one opens.  `None` when a lookup does not
/// end, or when an item before the last opens no scope.
pub open spec fn path_walk(m: Map<ScopeId, Scope>, path: Seq<Symbol>, sid: ScopeId) -> Option<Option<Item>>
    decreases path.len(),
{
    if path.len() == 0 {
        Some(None)
    } else if !lookup_ends(m, path[0]@, sid) {
        None
    } else {
        match lookup_spec(m, path[0]@, sid) {
            None => Some(None),
            Some(item) => if path.len() == 1 {
                Some(Some(item))
            } else {
                match item.scope_id {
                    None => None,
                    Some(s) => path_walk(m, path.drop_first(), s),
                }
            },
        }
    }
}

/// The item a clause parameter declares under `name`.
fn resolve_symbol_in_clause(name: Symbol, scope_id: ScopeId, clause: &Clause) -> (r: Option<Item>)
    ensures
        r == clause_item(*clause, name@),
{
    match clause {
        Clause::Decl { symbol, self_id, .. } => {
            if symbol.same(&name) {
                Some(Item::new(*symbol, *self_id, None))
            } else {
                None
            }
        },
        Clause::TypeDecl { symbol, self_id, .. } => {
            if symbol.same(&name) {
                Some(Item::new(*symbol, *self_id, None))
            } else {
                None
            }
        },
        Clause::TypeTraitBounded { symbol, self_id, .. } => {
            if symbol.same(&name) {
                Some(Item::new(*symbol, *self_id, None))
            } else {
                None
            }
        },
        _ => None,
    }
}

impl ScopeManager {
    fn resolve_in(&self, name: Symbol, scope_id: ScopeId, Ghost(fuel): Ghost<nat>) -> (r: Option<(ScopeId, Item)>)
        requires
            resolve_fuel(self@, name@, scope_id, fuel) is Some,
        ensures
            r == resolve_fuel(self@, name@, scope_id, fuel).unwrap(),
        decreases fuel,
    {
        match self.scope(scope_id) {
            None => None,
            Some(scope) => {
                if let Some(result) = self.lookup(name, scope_id) {
                    return Some((scope_id, result));
                }
                let mut j = scope.clauses.len();
                proof {
                    assert(scope.clauses@.subrange(0, j as int) =~= scope.clauses@);
                }
                assert(last_clause_item(scope.clauses@, name@) is Some
                    ==> resolve_fuel(self@, name@, scope_id, fuel).unwrap()
                        == Some((scope_id, last_clause_item(scope.clauses@, name@).unwrap())));
                while j > 0
                    invariant
                        last_clause_item(scope.clauses@, name@) is Some
                            ==> resolve_fuel(self@, name@, scope_id, fuel).unwrap()
                                == Some((scope_id, last_clause_item(scope.clauses@, name@).unwrap())),
                        j <= scope.clauses@.len(),
                        last_clause_item(scope.clauses@, name@)
                            == last_clause_item(scope.clauses@.subrange(0, j as int), name@),
                    decreases j,
                {
                    let ghost pre = scope.clauses@.subrange(0, j as int);
                    if let Some(item) = resolve_symbol_in_clause(name, scope_id, &scope.clauses[j - 1]) {
                        return Some((scope_id, item));
                    }
                    proof {
                        assert(pre.drop_last() =~= scope.clauses@.subrange(0, j - 1));
                    }
                    j -= 1;
                }
                match scope.parent {
                    Some(parent_id) => self.resolve_in(name, parent_id, Ghost((fuel - 1) as nat)),
                    None => None,
                }
            },
        }
    }

    /// Resolves `name` from a scope outwards: in each scope the lookup
    /// comes first, then its clause parameters, then the parent scope.
    /// The result holds the scope where `name` was found.
    pub fn resolve(&self, name: Symbol, scope_id: ScopeId) -> (r: Option<(ScopeId, Item)>)
        requires
            resolve_ends(self@, name@, scope_id),
        ensures
            r == resolve_spec(self@, name@, scope_id),
    {
        let ghost f = choose|f: nat| (#[trigger] resolve_fuel(self@, name@, scope_id, f)) is Some;
        self.resolve_in(name, scope_id, Ghost(f))
    }

    /// Follows a path of names from a scope: each name is looked up in the
    /// scope opened by the item of the one before.
    pub fn lookup_path(&self, path: &[Symbol], scope_id: ScopeId) -> (r: Option<Item>)
        requires
            path_walk(self@, path@, scope_id) is Some,
        ensures
            r == path_walk(self@, path@, scope_id).unwrap(),
    {
        let mut current_scope_id = scope_id;
        let mut i: usize = 0;
        proof {
            assert(path@.subrange(0, path@.len() as int) =~= path@);
        }
        while i < path.len()
            invariant
                0 <= i <= path@.len(),
                path_walk(self@, path@, scope_id) == if i == 0 {
                    path_walk(self@, path@, scope_id)
                } else {
                    path_walk(self@, path@.subrange(i as int, path@.len() as int), current_scope_id)
                },
                i == 0 ==> current_scope_id == scope_id,
                path_walk(self@, path@.subrange(i as int, path@.len() as int), current_scope_id) is Some,
                path_walk(self@, path@.subrange(i as int, path@.len() as int), current_scope_id)
                    == path_walk(self@, path@, scope_id),
            decreases path@.len() - i,
        {
            let ghost rest = path@.subrange(i as int, path@.len() as int);
            let name = path[i];
            proof {
                assert(rest[0] == name);
            }
            match self.lookup(name, current_scope_id) {
                None => {
                    return None;
                },
                Some(item) => {
                    if i + 1 == path.len() {
                        return Some(item);
                    }
                    proof {
                        assert(rest.drop_first() =~= path@.subrange(i + 1, path@.len() as int));
                    }
                    current_scope_id = item.scope_id.unwrap();
                    i += 1;
                },
            }
        }
        None
    }
}


/// Looking a name up with more fuel than it needs gives the same answer.
pub proof fn lemma_lookup_fuel_mono(m: Map<ScopeId, Scope>, name: Seq<char>, sid: ScopeId, f: nat, g: nat)
    requires
        f <= g,
        lookup_fuel(m, name, sid, f) is Some,
    ensures
        lookup_fuel(m, name, sid, g) == lookup_fuel(m, name, sid, f),
    decreases f, 0int,
{
    if f > 0 && m.contains_key(sid) && last_item_named(m[sid].items@, name) is None {
        lemma_imports_fuel_mono(
            m,
            name,
            m[sid].imports@,
            m[sid].imports@.len() as int,
            (f - 1) as nat,
            (g - 1) as nat,
        );
    }
}

/// The same for the walk through a scope's imports.
pub proof fn lemma_imports_fuel_mono(
    m: Map<ScopeId, Scope>,
    name: Seq<char>,
    imps: Seq<Import>,
    n: int,
    f: nat,
    g: nat,
)
    requires
        f <= g,
        imports_fuel(m, name, imps, n, f) is Some,
    ensures
        imports_fuel(m, name, imps, n, g) == imports_fuel(m, name, imps, n, f),
    decreases f, n,
{
    if n > 0 {
        match import_target(imps[n - 1], name) {
            None => {
                lemma_imports_fuel_mono(m, name, imps, n - 1, f, g);
            },
            Some(t) => {
                lemma_lookup_fuel_mono(m, t.1, t.0, f, g);
                if lookup_fuel(m, t.1, t.0, f) == Some(None::<Item>) {
                    lemma_imports_fuel_mono(m, name, imps, n - 1, f, g);
                }
            },
        }
    }
}

/// Resolving with more fuel than it needs gives the same answer.
pub proof fn lemma_resolve_fuel_mono(m: Map<ScopeId, Scope>, name: Seq<char>, sid: ScopeId, f: nat, g: nat)
    requires
        f <= g,
        resolve_fuel(m, name, sid, f) is Some,
    ensures
        resolve_fuel(m, name, sid, g) == resolve_fuel(m, name, sid, f),
    decreases f,
{
    if f > 0 && m.contains_key(sid) && lookup_ends(m, name, sid) && lookup_spec(m, name, sid) is None
        && last_clause_item(m[sid].clauses@, name) is None && m[sid].parent is Some {
        lemma_resolve_fuel_mono(m, name, m[sid].parent->0, (f - 1) as nat, (g - 1) as nat);
    }
}

/// A lookup that ends with some fuel gives, at that fuel, the item that
/// `lookup_spec` names.
pub proof fn lemma_lookup_spec_at(m: Map<ScopeId, Scope>, name: Seq<char>, sid: ScopeId, f: nat)
    requires
        lookup_fuel(m, name, sid, f) is Some,
    ensures
        lookup_ends(m, name, sid),
        lookup_spec(m, name, sid) == lookup_fuel(m, name, sid, f).unwrap(),
{
    let g = choose|g: nat| (#[trigger] lookup_fuel(m, name, sid, g)) is Some;
    if f <= g {
        lemma_lookup_fuel_mono(m, name, sid, f, g);
    } else {
        lemma_lookup_fuel_mono(m, name, sid, g, f);
    }
}

/// The same for resolution.
pub proof fn lemma_resolve_spec_at(m: Map<ScopeId, Scope>, name: Seq<char>, sid: ScopeId, f: nat)
    requires
        resolve_fuel(m, name, sid, f) is Some,
    ensures
        resolve_ends(m, name, sid),
        resolve_spec(m, name, sid) == resolve_fuel(m, name, sid, f).unwrap(),
{
    let g = choose|g: nat| (#[trigger] resolve_fuel(m, name, sid, g)) is Some;
    if f <= g {
        lemma_resolve_fuel_mono(m, name, sid, f, g);
    } else {
        lemma_resolve_fuel_mono(m, name, sid, g, f);
    }
}

/// After an item is bound in a scope, looking its name up in that scope
/// finds that item: the latest binding wins.
pub proof fn lemma_add_item_then_lookup(
    old_m: Map<ScopeId, Scope>,
    new_m: Map<ScopeId, Scope>,
    item: Item,
    scope_id: ScopeId,
)
    requires
        add_item_outcome(old_m, new_m, item, scope_id, Ok(())),
    ensures
        lookup_ends(new_m, item.symbol@, scope_id),
        lookup_spec(new_m, item.symbol@, scope_id) == Some(item),
{
    let items = new_m[scope_id].items@;
    assert(items.last() == item);
    assert(last_item_named(items, item.symbol@) == Some(item));
    assert(lookup_fuel(new_m, item.symbol@, scope_id, 1) == Some(Some(item)));
    lemma_lookup_spec_at(new_m, item.symbol@, scope_id, 1);
}

/// A named scope created under a parent is bound in the parent under its
/// name: looking the name up there finds an item that opens the new scope.
pub proof fn lemma_add_scope_then_lookup(
    old_m: Map<ScopeId, Scope>,
    new_m: Map<ScopeId, Scope>,
    id: ScopeId,
    name: Symbol,
    parent: ScopeId,
    ordered: bool,
    hir_id: HirId,
)
    requires
        add_scope_outcome(old_m, new_m, id, Some(name), Some(parent), ordered, hir_id, Ok(id)),
    ensures
        new_m.contains_key(id),
        new_m[id].parent == Some(parent),
        lookup_ends(new_m, name@, parent),
        lookup_spec(new_m, name@, parent) == Some(Item { symbol: name, hir_id, scope_id: Some(id) }),
{
    let it = Item { symbol: name, hir_id, scope_id: Some(id) };
    let items = new_m[parent].items@;
    assert(items.last() == it);
    assert(last_item_named(items, name@) == Some(it));
    assert(lookup_fuel(new_m, name@, parent, 1) == Some(Some(it)));
    lemma_lookup_spec_at(new_m, name@, parent, 1);
}

/// An unordered scope binds a name at most once: a second binding of a
/// name is refused, and nothing changes.
pub proof fn lemma_unordered_refuses_rebinding(
    old_m: Map<ScopeId, Scope>,
    new_m: Map<ScopeId, Scope>,
    item: Item,
    scope_id: ScopeId,
    r: Result<(), ScopeError>,
)
    requires
        add_item_outcome(old_m, new_m, item, scope_id, r),
        old_m.contains_key(scope_id),
        !old_m[scope_id].ordered,
        binds(old_m[scope_id].items@, item.symbol@),
    ensures
        r == Err::<(), ScopeError>(ScopeError::DuplicateSymbol(item.symbol)),
        new_m == old_m,
{
}

/// Each scope that `add_scope` creates gets an id no scope had before.
pub proof fn lemma_add_scope_fresh(
    old_m: Map<ScopeId, Scope>,
    next: ScopeId,
    new_m: Map<ScopeId, Scope>,
    name: Option<Symbol>,
    parent: Option<ScopeId>,
    ordered: bool,
    hir_id: HirId,
)
    requires
        forall|k: ScopeId| #[trigger] old_m.contains_key(k) ==> k < next,
        add_scope_outcome(old_m, new_m, next, name, parent, ordered, hir_id, Ok(next)),
    ensures
        !old_m.contains_key(next),
        new_m.contains_key(next),
        is_fresh_scope(new_m[next], next, hir_id, name, parent, ordered),
{
}

/// A name that a scope's own lookup finds is resolved there, whatever the
/// scopes around it bind.
pub proof fn lemma_resolve_finds_local(m: Map<ScopeId, Scope>, name: Seq<char>, sid: ScopeId, item: Item)
    requires
        m.contains_key(sid),
        lookup_ends(m, name, sid),
        lookup_spec(m, name, sid) == Some(item),
    ensures
        resolve_ends(m, name, sid),
        resolve_spec(m, name, sid) == Some((sid, item)),
{
    assert(resolve_fuel(m, name, sid, 1) == Some(Some((sid, item))));
    lemma_resolve_spec_at(m, name, sid, 1);
}

/// A clause parameter of any declaring kind is found by resolution: when a
/// scope's own lookup finds nothing for `name` and its last clause declares
/// `name` (as a `Decl`, a `TypeDecl` or a `TypeTraitBounded`), resolving
/// `name` there gives an item for that clause's own id, in that scope.
pub proof fn lemma_resolve_finds_clause_parameter(
    m: Map<ScopeId, Scope>,
    name: Seq<char>,
    sid: ScopeId,
    sym: Symbol,
    id: HirId,
)
    requires
        m.contains_key(sid),
        lookup_ends(m, name, sid),
        lookup_spec(m, name, sid) is None,
        m[sid].clauses@.len() > 0,
        sym@ == name,
        (m[sid].clauses@.last() matches Clause::Decl { symbol, self_id, .. } && symbol == sym && self_id == id)
            || (m[sid].clauses@.last() matches Clause::TypeDecl { symbol, self_id, .. } && symbol == sym && self_id == id)
            || (m[sid].clauses@.last() matches Clause::TypeTraitBounded { symbol, self_id, .. } && symbol == sym
            && self_id == id),
    ensures
        resolve_ends(m, name, sid),
        resolve_spec(m, name, sid) == Some((sid, Item { symbol: sym, hir_id: id, scope_id: None })),
{
    assert(last_clause_item(m[sid].clauses@, name) == Some(Item { symbol: sym, hir_id: id, scope_id: None }));
    assert(resolve_fuel(m, name, sid, 1) == Some(Some((sid, Item { symbol: sym, hir_id: id, scope_id: None }))));
    lemma_resolve_spec_at(m, name, sid, 1);
}

/// A name that a scope neither binds, imports nor declares as a clause
/// parameter is resolved as from its parent.
pub proof fn lemma_resolve_defers_to_parent(m: Map<ScopeId, Scope>, name: Seq<char>, sid: ScopeId)
    requires
        m.contains_key(sid),
        lookup_ends(m, name, sid),
        lookup_spec(m, name, sid) is None,
        last_clause_item(m[sid].clauses@, name) is None,
        m[sid].parent is Some,
        resolve_ends(m, name, m[sid].parent->0),
    ensures
        resolve_ends(m, name, sid),
        resolve_spec(m, name, sid) == resolve_spec(m, name, m[sid].parent->0),
{
    let p = m[sid].parent->0;
    let g = choose|g: nat| (#[trigger] resolve_fuel(m, name, p, g)) is Some;
    assert(resolve_fuel(m, name, sid, g + 1) == resolve_fuel(m, name, p, g));
    lemma_resolve_spec_at(m, name, sid, g + 1);
}

/// An import of everything from another scope makes its bindings visible:
/// when a scope does not bind a name itself and its last import imports
/// everything from `s`, looking the name up finds what it finds in `s`.
pub proof fn lemma_import_all_exposes(m: Map<ScopeId, Scope>, name: Seq<char>, sid: ScopeId, s: ScopeId)
    requires
        m.contains_key(sid),
        last_item_named(m[sid].items@, name) is None,
        m[sid].imports@.len() > 0,
        m[sid].imports@.last() == Import::All(s),
        lookup_ends(m, name, s),
        lookup_spec(m, name, s) is Some,
    ensures
        lookup_ends(m, name, sid),
        lookup_spec(m, name, sid) == lookup_spec(m, name, s),
{
    let g = choose|g: nat| (#[trigger] lookup_fuel(m, name, s, g)) is Some;
    let imps = m[sid].imports@;
    assert(import_target(imps[imps.len() - 1], name) == Some((s, name)));
    assert(imports_fuel(m, name, imps, imps.len() as int, g) == lookup_fuel(m, name, s, g));
    assert(lookup_fuel(m, name, sid, g + 1) == lookup_fuel(m, name, s, g));
    lemma_lookup_spec_at(m, name, sid, g + 1);
}


/// How `Debug` renders an optional name.
pub open spec fn name_debug(o: Option<Symbol>) -> Seq<char> {
    match o {
        Some(n) => "Some("@ + str_debug_text(n@) + ")"@,
        None => "None"@,
    }
}

/// The report line of one item.
pub open spec fn item_info(it: Item) -> Seq<char> {
    "  - Item: "@ + it.symbol@ + " (HirId: "@ + decimal(it.hir_id as nat) + ")\n"@
}

/// The report lines of a list of items.
pub open spec fn items_info(items: Seq<Item>) -> Seq<char>
    decreases items.len(),
{
    if items.len() == 0 {
        Seq::empty()
    } else {
        items_info(items.drop_last()) + item_info(items.last())
    }
}

/// The report of one scope: its id and name, then its items.
pub open spec fn scope_info(s: Scope) -> Seq<char> {
    "Scope "@ + decimal(s.id as nat) + ": "@ + name_debug(s.name) + "\n"@ + items_info(s.items@)
}

/// The reports of the scopes with ids below `n`, in increasing id order.
pub open spec fn info_upto(m: Map<ScopeId, Scope>, n: nat) -> Seq<char>
    decreases n,
{
    if n == 0 {
        Seq::empty()
    } else {
        info_upto(m, (n - 1) as nat) + if m.contains_key((n - 1) as ScopeId) {
            scope_info(m[(n - 1) as ScopeId])
        } else {
            Seq::empty()
        }
    }
}

fn push_name_debug(out: &mut String, o: Option<Symbol>)
    ensures
        final(out)@ == old(out)@ + name_debug(o),
{
    match o {
        Some(n) => {
            push_str(out, "Some(");
            let d = debug_str(n.as_str());
            push_str(out, d.as_str());
            push_str(out, ")");
        },
        None => {
            push_str(out, "None");
        },
    }
}

impl ScopeManager {
    /// A report of every scope and the items bound in it, one scope after
    /// another in increasing id order.
    pub fn info(&self) -> (r: String)
        ensures
            r@ == info_upto(self@, self.next_id() as nat),
    {
        let mut output = String::new();
        let mut k: ScopeId = 0;
        while k < self.next_scope_id
            invariant
                k <= self.next_scope_id,
                output@ == info_upto(self@, k as nat),
            decreases self.next_scope_id - k,
        {
            match self.scope(k) {
                Some(scope) => {
                    push_str(&mut output, "Scope ");
                    push_decimal(&mut output, scope.id as u64);
                    push_str(&mut output, ": ");
                    push_name_debug(&mut output, scope.name);
                    push_str(&mut output, "\n");
                    let ghost head = output@;
                    let mut i: usize = 0;
                    while i < scope.items.len()
                        invariant
                            0 <= i <= scope.items@.len(),
                            output@ == head + items_info(scope.items@.subrange(0, i as int)),
                        decreases scope.items@.len() - i,
                    {
                        let item = scope.items[i];
                        push_str(&mut output, "  - Item: ");
                        push_str(&mut output, item.symbol.as_str());
                        push_str(&mut output, " (HirId: ");
                        push_decimal(&mut output, item.hir_id as u64);
                        push_str(&mut output, ")\n");
                        proof {
                            assert(scope.items@.subrange(0, i + 1).drop_last() =~= scope.items@.subrange(0, i as int));
                        }
                        i += 1;
                    }
                    proof {
                        assert(scope.items@.subrange(0, scope.items@.len() as int) =~= scope.items@);
                        assert(output@ =~= info_upto(self@, k as nat) + scope_info(self@[k]));
                    }
                },
                None => {
                    proof {
                        assert(output@ =~= info_upto(self@, k as nat) + Seq::<char>::empty());
                    }
                },
            }
            k += 1;
        }
        output
    }
}


/// The S-expression part of an item that opens no scope.
pub open spec fn symbol_part(it: Item) -> Seq<char> {
    "(symbol "@ + it.symbol@ + " :hir_id "@ + decimal(it.hir_id as nat) + ")"@
}

/// The parts of the items of `items` that open no scope, in order.
pub open spec fn symbol_parts(items: Seq<Item>) -> Seq<Seq<char>>
    decreases items.len(),
{
    if items.len() == 0 {
        Seq::empty()
    } else if items.last().scope_id is None {
        symbol_parts(items.drop_last()).push(symbol_part(items.last()))
    } else {
        symbol_parts(items.drop_last())
    }
}

/// The index of the first space of `s` at or after `i`.
pub open spec fn space_from(s: Seq<char>, i: int) -> Option<int>
    decreases s.len() - i,
{
    if i < 0 || i >= s.len() {
        None
    } else if s[i] == ' ' {
        Some(i)
    } else {
        space_from(s, i + 1)
    }
}

/// A text without the round brackets around it, when it has them.
pub open spec fn unbracketed(c: Seq<char>) -> Seq<char> {
    if c.len() > 0 && c[0] == '(' && c.last() == ')' {
        c.subrange(1, c.len() - 1)
    } else {
        c
    }
}

/// The S-expression part of an item that opens a scope whose own
/// S-expression is `content`: the child's name is dropped from `content`
/// (everything up to its first space) and the rest is kept.
pub open spec fn child_part(it: Item, content: Seq<char>) -> Seq<char> {
    let h = decimal(it.hir_id as nat);
    if trimmed(content).len() == 0 {
        "(child :hir_id "@ + h + " "@ + it.symbol@ + ")"@
    } else {
        let inner = unbracketed(content);
        match space_from(inner, 0) {
            Some(p) => {
                let rest = trimmed(inner.subrange(p, inner.len() as int));
                if rest.len() == 0 {
                    "(child "@ + it.symbol@ + " :hir_id "@ + h + ")"@
                } else {
                    "(child "@ + it.symbol@ + " :hir_id "@ + h + " "@ + rest + ")"@
                }
            },
            None => "(child :hir_id "@ + h + " "@ + it.symbol@ + ")"@,
        }
    }
}

/// The part reported for an item of scope `s` that claims to open `s`
/// itself.
pub open spec fn self_child_part(m: Map<ScopeId, Scope>, s: Scope, cid: ScopeId) -> Seq<char> {
    let cname = if m.contains_key(cid) { m[cid].name } else { None };
    "(ERROR child "@ + name_debug(cname) + " at %"@ + decimal(cid as nat)
        + " has the same id of parent scope "@ + name_debug(s.name) + ")"@
}

/// The parts of the items of `items` that open a scope, each rendered
/// with that scope's S-expression, visiting at most `fuel` levels below
/// `s`; `None` when that is not enough.  An item naming a scope that does
/// not exist gives no part.
pub open spec fn child_parts_fuel(m: Map<ScopeId, Scope>, s: Scope, items: Seq<Item>, fuel: nat) -> Option<
    Seq<Seq<char>>,
>
    decreases fuel, items.len(),
{
    if items.len() == 0 {
        Some(Seq::empty())
    } else {
        match child_parts_fuel(m, s, items.drop_last(), fuel) {
            None => None,
            Some(prev) => match items.last().scope_id {
                None => Some(prev),
                Some(cid) => if cid != s.id {
                    if m.contains_key(cid) {
                        match scope_sexpr_fuel(m, m[cid], fuel) {
                            None => None,
                            Some(c) => Some(prev.push(child_part(items.last(), c))),
                        }
                    } else {
                        Some(prev)
                    }
                } else {
                    Some(prev.push(self_child_part(m, s, cid)))
                },
            },
        }
    }
}

/// The name a scope is printed under.
pub open spec fn scope_label(s: Scope) -> Seq<char> {
    match s.name {
        Some(n) => n@,
        None => "root"@,
    }
}

/// A label and its parts in round brackets.
pub open spec fn bracketed(label: Seq<char>, parts: Seq<Seq<char>>) -> Seq<char> {
    if parts.len() == 0 {
        "("@ + label + ")"@
    } else {
        "("@ + label + " "@ + join_words(parts) + ")"@
    }
}

/// The S-expression of scope `s`, visiting at most `fuel` levels of
/// scopes: its name, then its plain symbols, then its child scopes.
pub open spec fn scope_sexpr_fuel(m: Map<ScopeId, Scope>, s: Scope, fuel: nat) -> Option<Seq<char>>
    decreases fuel, 0int,
{
    if fuel == 0 {
        None
    } else {
        match child_parts_fuel(m, s, s.items@, (fuel - 1) as nat) {
            None => None,
            Some(cp) => Some(bracketed(scope_label(s), symbol_parts(s.items@) + cp)),
        }
    }
}

/// The scopes below `s` form a tree: following the items that open
/// scopes never comes back round.
pub open spec fn subtree_finite(m: Map<ScopeId, Scope>, s: Scope) -> bool {
    exists|f: nat| (#[trigger] scope_sexpr_fuel(m, s, f)) is Some
}

/// The S-expression of scope `s`.
pub open spec fn scope_sexpr(m: Map<ScopeId, Scope>, s: Scope) -> Seq<char> {
    scope_sexpr_fuel(m, s, choose|f: nat| (#[trigger] scope_sexpr_fuel(m, s, f)) is Some).unwrap()
}

/// The S-expression of the manager: that of the root scope, or nothing
/// when there is no root scope.
pub open spec fn manager_sexpr(m: Map<ScopeId, Scope>, root: ScopeId) -> Seq<char> {
    if m.contains_key(root) {
        scope_sexpr(m, m[root])
    } else {
        Seq::empty()
    }
}

/// The manager's tree can be walked from its root.
pub open spec fn manager_finite(m: Map<ScopeId, Scope>, root: ScopeId) -> bool {
    m.contains_key(root) ==> subtree_finite(m, m[root])
}

/// The rendering of a symbol reference.
pub open spec fn symbol_ref_text(symbol: Symbol, scope_id: Option<ScopeId>) -> Seq<char> {
    match scope_id {
        Some(id) => "(Symbol \""@ + symbol@ + "\" scope:"@ + decimal(id as nat) + ")"@,
        None => "(Symbol \""@ + symbol@ + "\" scope:nil)"@,
    }
}

/// A walk over the scope tree.
pub trait ScopeVisitor {
    type Output;

    /// Whether `out` is what this visitor makes of a walk over `manager`.
    spec fn manager_output(&self, manager: ScopeManager, out: Self::Output) -> bool;

    fn visit_scope_manager(&mut self, manager: &ScopeManager) -> (r: Self::Output)
        requires
            manager_finite(manager@, manager.root_id()),
        ensures
            old(self).manager_output(*manager, r),
    ;

    fn visit_scope(&mut self, scope: &Scope, manager: &ScopeManager) -> String
        requires
            subtree_finite(manager@, *scope),
    ;

    fn visit_symbol(&mut self, symbol: Symbol, scope_id: Option<ScopeId>) -> String;
}

impl ScopeManager {
    /// Lets a visitor walk the scopes from the root.
    pub fn accept<V: ScopeVisitor>(&self, visitor: &mut V) -> (r: V::Output)
        requires
            manager_finite(self@, self.root_id()),
        ensures
            old(visitor).manager_output(*self, r),
    {
        visitor.visit_scope_manager(self)
    }
}

/// Renders the scope tree as an S-expression.
pub struct ScopeSExpressionVisitor;

/// Appends `p` to the text of the parts in `parts`.
fn push_part(parts: &mut Vec<String>, p: String)
    ensures
        final(parts)@.map_values(|q: String| q@) == old(parts)@.map_values(|q: String| q@).push(p@),
{
    parts.push(p);
    proof {
        assert(final(parts)@.map_values(|q: String| q@) =~= old(parts)@.map_values(|q: String| q@).push(p@));
    }
}

/// The parts joined by single spaces.
fn join_parts(parts: &Vec<String>) -> (r: String)
    ensures
        r@ == join_words(parts@.map_values(|q: String| q@)),
{
    let ghost ws = parts@.map_values(|q: String| q@);
    let mut out = String::new();
    let mut i: usize = 0;
    while i < parts.len()
        invariant
            0 <= i <= parts@.len(),
            ws == parts@.map_values(|q: String| q@),
            out@ == join_words(ws.subrange(0, i as int)),
        decreases parts@.len() - i,
    {
        proof {
            lemma_join_push(ws.subrange(0, i as int), ws[i as int]);
            assert(ws.subrange(0, i as int).push(ws[i as int]) =~= ws.subrange(0, i + 1));
        }
        if i > 0 {
            push_str(&mut out, " ");
            proof {
                reveal_strlit(" ");
            }
        }
        push_str(&mut out, parts[i].as_str());
        i += 1;
    }
    proof {
        assert(ws.subrange(0, parts@.len() as int) =~= ws);
    }
    out
}

/// The part of an item that opens scope `content` describes.
fn child_part_text(it: &Item, content: &String) -> (r: String)
    ensures
        r@ == child_part(*it, content@),
{
    let mut out = String::new();
    let t = trim_str(content.as_str());
    if t.is_empty() {
        push_str(&mut out, "(child :hir_id ");
        push_decimal(&mut out, it.hir_id as u64);
        push_str(&mut out, " ");
        push_str(&mut out, it.symbol.as_str());
        push_str(&mut out, ")");
        return out;
    }
    let cs = str_chars(content.as_str());
    let n = cs.len();
    let (lo, hi) = if n > 0 && cs[0] == '(' && cs[n - 1] == ')' {
        (1usize, n - 1)
    } else {
        (0usize, n)
    };
    let ghost inner = cs@.subrange(lo as int, hi as int);
    proof {
        assert(inner =~= unbracketed(content@));
    }
    let mut p = lo;
    while p < hi && cs[p] != ' '
        invariant
            lo <= p <= hi <= cs@.len(),
            inner == cs@.subrange(lo as int, hi as int),
            space_from(inner, 0) == space_from(inner, p - lo),
        decreases hi - p,
    {
        p += 1;
    }
    if p < hi {
        let rest = string_of_chars(&cs, p, hi);
        proof {
            assert(rest@ =~= inner.subrange(p - lo, inner.len() as int));
        }
        let rt = trim_str(rest.as_str());
        if rt.is_empty() {
            push_str(&mut out, "(child ");
            push_str(&mut out, it.symbol.as_str());
            push_str(&mut out, " :hir_id ");
            push_decimal(&mut out, it.hir_id as u64);
            push_str(&mut out, ")");
        } else {
            push_str(&mut out, "(child ");
            push_str(&mut out, it.symbol.as_str());
            push_str(&mut out, " :hir_id ");
            push_decimal(&mut out, it.hir_id as u64);
            push_str(&mut out, " ");
            push_str(&mut out, rt);
            push_str(&mut out, ")");
        }
    } else {
        push_str(&mut out, "(child :hir_id ");
        push_decimal(&mut out, it.hir_id as u64);
        push_str(&mut out, " ");
        push_str(&mut out, it.symbol.as_str());
        push_str(&mut out, ")");
    }
    out
}

/// A prefix of an item list whose parts can be rendered can be rendered.
proof fn lemma_child_parts_prefix(m: Map<ScopeId, Scope>, s: Scope, items: Seq<Item>, i: int, fuel: nat)
    requires
        0 <= i <= items.len(),
        child_parts_fuel(m, s, items, fuel) is Some,
    ensures
        child_parts_fuel(m, s, items.subrange(0, i), fuel) is Some,
    decreases items.len() - i,
{
    if i == items.len() {
        assert(items.subrange(0, i) =~= items);
    } else {
        lemma_child_parts_prefix(m, s, items.drop_last(), i, fuel);
        assert(items.drop_last().subrange(0, i) =~= items.subrange(0, i));
    }
}

impl ScopeSExpressionVisitor {
    pub fn new() -> (r: ScopeSExpressionVisitor) {
        ScopeSExpressionVisitor
    }

    fn sexpr_in(&mut self, scope: &Scope, manager: &ScopeManager, Ghost(fuel): Ghost<nat>) -> (r: String)
        requires
            scope_sexpr_fuel(manager@, *scope, fuel) is Some,
        ensures
            r@ == scope_sexpr_fuel(manager@, *scope, fuel).unwrap(),
        decreases fuel,
    {
        let ghost m = manager@;
        let ghost f1: nat = (fuel - 1) as nat;
        let ghost items = scope.items@;
        let mut parts: Vec<String> = Vec::new();
        let mut i: usize = 0;
        while i < scope.items.len()
            invariant
                0 <= i <= items.len(),
                items == scope.items@,
                parts@.map_values(|q: String| q@) == symbol_parts(items.subrange(0, i as int)),
            decreases items.len() - i,
        {
            let item = scope.items[i];
            proof {
                assert(items.subrange(0, i + 1).drop_last() =~= items.subrange(0, i as int));
            }
            if item.scope_id.is_none() {
                let mut t = String::new();
                push_str(&mut t, "(symbol ");
                push_str(&mut t, item.symbol.as_str());
                push_str(&mut t, " :hir_id ");
                push_decimal(&mut t, item.hir_id as u64);
                push_str(&mut t, ")");
                push_part(&mut parts, t);
            }
            i += 1;
        }
        proof {
            assert(items.subrange(0, items.len() as int) =~= items);
            lemma_child_parts_prefix(m, *scope, items, 0, f1);
            assert(items.subrange(0, 0) =~= Seq::<Item>::empty());
        }
        let ghost sym = parts@.map_values(|q: String| q@);
        let mut i: usize = 0;
        while i < scope.items.len()
            invariant
                0 <= i <= items.len(),
                items == scope.items@,
                m == manager@,
                fuel >= 1,
                f1 == fuel - 1,
                child_parts_fuel(m, *scope, items, f1) is Some,
                child_parts_fuel(m, *scope, items.subrange(0, i as int), f1) is Some,
                parts@.map_values(|q: String| q@) == sym + child_parts_fuel(m, *scope, items.subrange(0, i as int), f1).unwrap(),
            decreases items.len() - i,
        {
            let item = scope.items[i];
            let ghost pre = items.subrange(0, i as int);
            let ghost cur = items.subrange(0, i + 1);
            proof {
                assert(cur.drop_last() =~= pre);
                lemma_child_parts_prefix(m, *scope, items, i + 1, f1);
            }
            match item.scope_id {
                None => {},
                Some(child_id) => {
                    if child_id != scope.id {
                        match manager.scope(child_id) {
                            Some(child) => {
                                let content = self.sexpr_in(child, manager, Ghost(f1));
                                let part = child_part_text(&item, &content);
                                push_part(&mut parts, part);
                                proof {
                                    assert(sym + child_parts_fuel(m, *scope, pre, f1).unwrap().push(part@)
                                        =~= (sym + child_parts_fuel(m, *scope, pre, f1).unwrap()).push(part@));
                                }
                            },
                            None => {},
                        }
                    } else {
                        let mut t = String::new();
                        push_str(&mut t, "(ERROR child ");
                        push_name_debug(&mut t, manager.scope_name(child_id));
                        push_str(&mut t, " at %");
                        push_decimal(&mut t, child_id as u64);
                        push_str(&mut t, " has the same id of parent scope ");
                        push_name_debug(&mut t, scope.name);
                        push_str(&mut t, ")");
                        push_part(&mut parts, t);
                        proof {
                            assert(sym + child_parts_fuel(m, *scope, pre, f1).unwrap().push(t@)
                                =~= (sym + child_parts_fuel(m, *scope, pre, f1).unwrap()).push(t@));
                        }
                    }
                },
            }
            i += 1;
        }
        proof {
            assert(items.subrange(0, items.len() as int) =~= items);
        }
        let mut out = String::new();
        push_str(&mut out, "(");
        match scope.name {
            Some(n) => push_str(&mut out, n.as_str()),
            None => push_str(&mut out, "root"),
        }
        if parts.len() == 0 {
            push_str(&mut out, ")");
        } else {
            push_str(&mut out, " ");
            let joined = join_parts(&parts);
            push_str(&mut out, joined.as_str());
            push_str(&mut out, ")");
        }
        out
    }

    fn visit_scope_recursive(&mut self, manager: &ScopeManager, scope_id: ScopeId) -> (r: String)
        requires
            manager@.contains_key(scope_id) ==> subtree_finite(manager@, manager@[scope_id]),
        ensures
            r@ == (if manager@.contains_key(scope_id) {
                scope_sexpr(manager@, manager@[scope_id])
            } else {
                Seq::empty()
            }),
    {
        match manager.scope(scope_id) {
            Some(scope) => self.visit_scope(scope, manager),
            None => String::new(),
        }
    }
}

impl ScopeVisitor for ScopeSExpressionVisitor {
    type Output = String;

    /// The S-expression of the manager's scope tree.
    open spec fn manager_output(&self, manager: ScopeManager, out: String) -> bool {
        out@ == manager_sexpr(manager@, manager.root_id())
    }

    fn visit_scope_manager(&mut self, manager: &ScopeManager) -> (r: String)
        ensures
            r@ == manager_sexpr(manager@, manager.root_id()),
    {
        self.visit_scope_recursive(manager, manager.root)
    }

    fn visit_scope(&mut self, scope: &Scope, manager: &ScopeManager) -> (r: String)
        ensures
            r@ == scope_sexpr(manager@, *scope),
    {
        let ghost f = choose|f: nat| (#[trigger] scope_sexpr_fuel(manager@, *scope, f)) is Some;
        self.sexpr_in(scope, manager, Ghost(f))
    }

    fn visit_symbol(&mut self, symbol: Symbol, scope_id: Option<ScopeId>) -> (r: String)
        ensures
            r@ == symbol_ref_text(symbol, scope_id),
    {
        let mut out = String::new();
        push_str(&mut out, "(Symbol \"");
        push_str(&mut out, symbol.as_str());
        match scope_id {
            Some(id) => {
                push_str(&mut out, "\" scope:");
                push_decimal(&mut out, id as u64);
                push_str(&mut out, ")");
            },
            None => {
                push_str(&mut out, "\" scope:nil)");
            },
        }
        out
    }
}

} // verus!

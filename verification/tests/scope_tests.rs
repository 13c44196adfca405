use luna::luna_hir::{Clause, Import};
use luna::scope::{Item, ScopeError, ScopeManager, ScopeSExpressionVisitor, ScopeVisitor};
use luna::symbol::Symbol;

fn sym(s: &str) -> Symbol {
    Symbol::intern(s)
}

/// root (0) binds `a` (scope 1) and `y`; scope 1 binds `x`.
fn sample() -> (ScopeManager, usize) {
    let mut m = ScopeManager::new();
    let a = match m.add_scope(Some(sym("a")), Some(0), false, 10) {
        Ok(id) => id,
        Err(_) => panic!("scope a"),
    };
    assert!(m.add_item(Item::new(sym("x"), 11, None), a).is_ok());
    assert!(m.add_item(Item::new(sym("y"), 13, None), 0).is_ok());
    (m, a)
}

#[test]
fn new_manager_has_an_empty_root() {
    let m = ScopeManager::new();
    assert_eq!(m.root, 0);
    assert_eq!(m.items(0).map(|v| v.len()), Some(0));
    assert!(m.scope_name(0).is_none());
    assert_eq!(m.scope_parent(0), None);
    assert_eq!(m.scope_hir_id(0), Some(0));
    assert!(m.items(1).is_none());
}

#[test]
fn add_scope_binds_the_name_in_the_parent() {
    let (m, a) = sample();
    assert_eq!(a, 1);
    let item = m.lookup(sym("a"), 0).expect("a is bound");
    assert_eq!(item.hir_id, 10);
    assert_eq!(item.scope_id, Some(1));
    assert_eq!(m.scope_name(a).map(|s| s.as_str().to_string()), Some("a".to_string()));
    assert_eq!(m.scope_parent(a), Some(0));
    assert_eq!(m.scope_hir_id(a), Some(10));
}

#[test]
fn lookup_finds_items_of_the_scope_only() {
    let (m, a) = sample();
    let x = m.lookup(sym("x"), a).expect("x in a");
    assert_eq!(x.hir_id, 11);
    assert!(x.scope_id.is_none());
    assert!(m.lookup(sym("x"), 0).is_none());
    assert!(m.lookup(sym("x"), 99).is_none());
}

#[test]
fn unordered_scope_refuses_a_second_binding() {
    let (mut m, a) = sample();
    match m.add_item(Item::new(sym("x"), 12, None), a) {
        Err(ScopeError::DuplicateSymbol(s)) => assert_eq!(s.as_str(), "x"),
        _ => panic!("expected a duplicate"),
    }
    assert_eq!(m.lookup(sym("x"), a).map(|i| i.hir_id), Some(11));
    assert_eq!(m.items(a).map(|v| v.len()), Some(1));
}

#[test]
fn ordered_scope_lets_the_latest_binding_win() {
    let (mut m, _) = sample();
    let b = match m.add_scope(None, Some(0), true, 20) {
        Ok(id) => id,
        Err(_) => panic!("block"),
    };
    assert!(m.add_item(Item::new(sym("v"), 21, None), b).is_ok());
    assert!(m.add_item(Item::new(sym("v"), 22, None), b).is_ok());
    assert_eq!(m.lookup(sym("v"), b).map(|i| i.hir_id), Some(22));
    assert_eq!(m.items(b).map(|v| v.len()), Some(2));
}

#[test]
fn add_item_into_a_missing_scope() {
    let (mut m, _) = sample();
    match m.add_item(Item::new(sym("q"), 1, None), 42) {
        Err(ScopeError::InvalidParentScope(id)) => assert_eq!(id, 42),
        _ => panic!("expected an invalid scope"),
    }
}

#[test]
fn add_scope_errors_use_up_the_id() {
    let (mut m, _) = sample();
    match m.add_scope(Some(sym("a")), Some(0), false, 30) {
        Err(ScopeError::DuplicateSymbol(s)) => assert_eq!(s.as_str(), "a"),
        _ => panic!("expected a duplicate"),
    }
    match m.add_scope(Some(sym("b")), Some(99), false, 31) {
        Err(ScopeError::InvalidParentScope(id)) => assert_eq!(id, 99),
        _ => panic!("expected an invalid parent"),
    }
    match m.add_scope(Some(sym("c")), Some(0), false, 32) {
        Ok(id) => assert_eq!(id, 4),
        Err(_) => panic!("scope c"),
    }
    // an anonymous scope's parent is not checked
    match m.add_scope(None, Some(99), false, 33) {
        Ok(id) => assert_eq!(id, 5),
        Err(_) => panic!("anonymous scope"),
    }
}

#[test]
fn resolve_walks_up_to_the_parent() {
    let (m, a) = sample();
    let (sid, item) = m.resolve(sym("y"), a).expect("y from a");
    assert_eq!(sid, 0);
    assert_eq!(item.hir_id, 13);
    let (sid, item) = m.resolve(sym("x"), a).expect("x from a");
    assert_eq!(sid, a);
    assert_eq!(item.hir_id, 11);
    assert!(m.resolve(sym("nothing"), a).is_none());
}

#[test]
fn resolve_finds_clause_parameters() {
    let (mut m, a) = sample();
    assert!(m
        .add_clause(a, Clause::TypeDecl { symbol: sym("T"), owner: 1, self_id: 42 })
        .is_ok());
    assert!(m.add_clause(a, Clause::Requires).is_ok());
    let (sid, item) = m.resolve(sym("T"), a).expect("T");
    assert_eq!(sid, a);
    assert_eq!(item.hir_id, 42);
    assert!(item.scope_id.is_none());
    assert_eq!(m.scope_clauses(a).map(|v| v.len()), Some(2));
    assert!(m.lookup(sym("T"), a).is_none());
    match m.add_clause(77, Clause::Ensures) {
        Err(ScopeError::InvalidParentScope(id)) => assert_eq!(id, 77),
        _ => panic!("expected an invalid scope"),
    }
}

#[test]
fn imports_bring_names_in() {
    let (mut m, a) = sample();
    let b = match m.add_scope(Some(sym("b")), Some(0), false, 40) {
        Ok(id) => id,
        Err(_) => panic!("b"),
    };
    assert!(m.lookup(sym("x"), b).is_none());
    assert!(m.add_import(b, Import::Single(a, sym("x"))).is_ok());
    assert_eq!(m.lookup(sym("x"), b).map(|i| i.hir_id), Some(11));
    assert!(m
        .add_import(b, Import::Alias { scope_id: a, alias: sym("z"), original: sym("x") })
        .is_ok());
    assert_eq!(m.lookup(sym("z"), b).map(|i| i.hir_id), Some(11));
    assert!(m.add_import(b, Import::Multi(0, vec![sym("y"), sym("w")])).is_ok());
    assert_eq!(m.lookup(sym("y"), b).map(|i| i.hir_id), Some(13));
    assert!(m.lookup(sym("w"), b).is_none());
    let c = match m.add_scope(Some(sym("c")), Some(0), false, 41) {
        Ok(id) => id,
        Err(_) => panic!("c"),
    };
    assert!(m.add_import(c, Import::All(a)).is_ok());
    assert_eq!(m.lookup(sym("x"), c).map(|i| i.hir_id), Some(11));
    match m.add_import(99, Import::All(a)) {
        Err(ScopeError::InvalidParentScope(id)) => assert_eq!(id, 99),
        _ => panic!("expected an invalid scope"),
    }
}

#[test]
fn lookup_path_follows_scopes() {
    let (m, a) = sample();
    let item = m.lookup_path(&[sym("a"), sym("x")], 0).expect("a.x");
    assert_eq!(item.hir_id, 11);
    let item = m.lookup_path(&[sym("a")], 0).expect("a");
    assert_eq!(item.scope_id, Some(a));
    assert!(m.lookup_path(&[sym("a"), sym("nope")], 0).is_none());
    assert!(m.lookup_path(&[], 0).is_none());
}

#[test]
fn update_hir_id_changes_only_the_id() {
    let mut it = Item::new(sym("k"), 1, Some(2));
    it.update_hir_id_unchecked(9);
    assert_eq!(it.hir_id, 9);
    assert_eq!(it.scope_id, Some(2));
    assert_eq!(it.symbol.as_str(), "k");
}

#[test]
fn info_lists_scopes_in_id_order() {
    let (m, _) = sample();
    assert_eq!(
        m.info(),
        "Scope 0: None\n  - Item: a (HirId: 10)\n  - Item: y (HirId: 13)\nScope 1: Some(\"a\")\n  - Item: x (HirId: 11)\n"
    );
}

#[test]
fn s_expression_of_the_scope_tree() {
    let (mut m, a) = sample();
    let mut v = ScopeSExpressionVisitor::new();
    assert_eq!(
        m.accept(&mut v),
        "(root (symbol y :hir_id 13) (child a :hir_id 10 (symbol x :hir_id 11)))"
    );
    let e = match m.add_scope(Some(sym("e")), Some(a), false, 50) {
        Ok(id) => id,
        Err(_) => panic!("e"),
    };
    assert!(m.add_item(Item::new(sym("me"), 51, Some(a)), a).is_ok());
    let out = v.visit_scope_manager(&m);
    assert_eq!(
        out,
        "(root (symbol y :hir_id 13) (child a :hir_id 10 (symbol x :hir_id 11) (child :hir_id 50 e) (ERROR child Some(\"a\") at %1 has the same id of parent scope Some(\"a\"))))"
    );
    assert_eq!(e, 2);
}

#[test]
fn visit_symbol_renders_the_scope() {
    let mut v = ScopeSExpressionVisitor::new();
    assert_eq!(v.visit_symbol(sym("x"), Some(3)), "(Symbol \"x\" scope:3)");
    assert_eq!(v.visit_symbol(sym("x"), None), "(Symbol \"x\" scope:nil)");
}

#[test]
fn info_quotes_and_escapes_scope_names() {
    let mut m = ScopeManager::new();
    assert!(m.add_scope(Some(sym("a\"b")), Some(0), false, 3).is_ok());
    assert_eq!(
        m.info(),
        "Scope 0: None\n  - Item: a\"b (HirId: 3)\nScope 1: Some(\"a\\\"b\")\n"
    );
}

#[test]
fn child_scope_names_with_spaces_keep_the_rest_of_the_name() {
    let mut m = ScopeManager::new();
    let s = match m.add_scope(Some(sym("two words")), Some(0), false, 8) {
        Ok(id) => id,
        Err(_) => panic!("scope"),
    };
    assert!(m.add_item(Item::new(sym("k"), 9, None), s).is_ok());
    let mut v = ScopeSExpressionVisitor::new();
    assert_eq!(
        v.visit_scope_manager(&m),
        "(root (child two words :hir_id 8 words (symbol k :hir_id 9)))"
    );
}

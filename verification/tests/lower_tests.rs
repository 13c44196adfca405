use luna::ast::{Ast, Child, NodeBuilder};
use luna::errors::LowerError;
use luna::literal::{parse_int, split_real};
use luna::lower::{preserved_expr, Hir, HirMapping, LoweringContext};
use luna::luna_hir::{BinaryOp, BlockKind, Clause, Expr, Pattern};
use luna::node_kind::NodeKind;
use luna::scope::{Item, ScopeManager};
use luna::source::{SourceFile, SourceMap};
use luna::span::{BytePos, Span};
use luna::symbol::Symbol;

fn map_of(text: &str) -> SourceMap {
    SourceMap { files: vec![SourceFile { start_pos: BytePos(0), src: Some(text.to_string()) }] }
}

fn sp(lo: u32, hi: u32) -> Span {
    Span::new(BytePos(lo), BytePos(hi))
}

fn leaf(ast: &mut Ast, kind: NodeKind, lo: u32, hi: u32) -> u32 {
    ast.add_node(NodeBuilder::new(kind, sp(lo, hi)))
}

fn context(text: &str) -> LoweringContext {
    LoweringContext::new(Hir::new(map_of(text)), ScopeManager::new())
}

fn owner_in(scope: usize) -> Item {
    Item::new(Symbol::intern("main"), 0, Some(scope))
}

#[test]
fn a_new_table_holds_the_invalid_entry() {
    let mut hir = Hir::new(map_of(""));
    assert!(matches!(hir.get(0), Some(HirMapping::Invalid)));
    assert!(hir.get(1).is_none());
    let id = hir.put(HirMapping::Package);
    assert_eq!(id, 1);
    assert!(matches!(hir.get(1), Some(HirMapping::Package)));
}

#[test]
fn integers_are_read_with_their_sign_and_range() {
    assert_eq!(parse_int("42", true, i64::MIN, i64::MAX), Some(42));
    assert_eq!(parse_int("-7", true, i64::MIN, i64::MAX), Some(-7));
    assert_eq!(parse_int("+7", true, i64::MIN, i64::MAX), Some(7));
    assert_eq!(parse_int("-7", false, 0, 4294967295), None);
    assert_eq!(parse_int("", true, i64::MIN, i64::MAX), None);
    assert_eq!(parse_int("-", true, i64::MIN, i64::MAX), None);
    assert_eq!(parse_int("1x", true, i64::MIN, i64::MAX), None);
    assert_eq!(parse_int("9223372036854775807", true, i64::MIN, i64::MAX), Some(i64::MAX));
    assert_eq!(parse_int("-9223372036854775808", true, i64::MIN, i64::MAX), Some(i64::MIN));
    assert_eq!(parse_int("9223372036854775808", true, i64::MIN, i64::MAX), None);
    assert_eq!(parse_int("99999999999999999999999", true, i64::MIN, i64::MAX), None);
    assert_eq!(parse_int("4294967296", false, 0, 4294967295), None);
}

#[test]
fn reals_split_at_their_one_dot() {
    assert_eq!(split_real("3.25"), Some(("3".to_string(), "25".to_string())));
    assert_eq!(split_real("3."), Some(("3".to_string(), "".to_string())));
    assert_eq!(split_real("325"), None);
    assert_eq!(split_real("1.2.3"), None);
}

#[test]
fn reserved_identifiers() {
    assert_eq!(preserved_expr("null"), Some(Expr::Null));
    assert_eq!(preserved_expr("Self"), Some(Expr::TySelf));
    assert_eq!(preserved_expr("bool"), Some(Expr::TyBool));
    assert_eq!(preserved_expr("x"), None);
}

#[test]
fn literals_lower_from_their_text() {
    let text = "12 3.25 true \"hi\" 1.2.3 99999999999999999999";
    let mut cx = context(text);
    let mut ast = Ast::new();
    let i = leaf(&mut ast, NodeKind::Int, 0, 2);
    let r = leaf(&mut ast, NodeKind::Real, 3, 7);
    let b = leaf(&mut ast, NodeKind::Bool, 8, 12);
    let s = leaf(&mut ast, NodeKind::Str, 13, 17);
    let bad_real = leaf(&mut ast, NodeKind::Real, 18, 23);
    let big = leaf(&mut ast, NodeKind::Int, 24, 44);
    let owner = owner_in(0);
    assert_eq!(cx.lower_expr(&ast, i, &owner).ok(), Some(Expr::IntLiteral(12)));
    assert_eq!(cx.lower_expr(&ast, r, &owner).ok(), Some(Expr::RealLiteral(3, 25)));
    assert_eq!(cx.lower_expr(&ast, b, &owner).ok(), Some(Expr::BoolLiteral(true)));
    match cx.lower_expr(&ast, s, &owner) {
        Ok(Expr::StrLiteral(sym)) => assert_eq!(sym.as_str(), "\"hi\""),
        other => panic!("unexpected {:?}", other),
    }
    match cx.lower_expr(&ast, bad_real, &owner) {
        Err(LowerError::LiteralError { message, span }) => {
            assert_eq!(message, "Invalid real literal: `1.2.3`");
            assert_eq!(span, sp(18, 23));
        },
        other => panic!("unexpected {:?}", other),
    }
    match cx.lower_expr(&ast, big, &owner) {
        Err(e) => assert_eq!(e.message(), "Invalid integer literal: `99999999999999999999`"),
        other => panic!("unexpected {:?}", other),
    }
}

#[test]
fn a_bad_numeric_part_is_reported() {
    let mut cx = context("1.x");
    let mut ast = Ast::new();
    let r = leaf(&mut ast, NodeKind::Real, 0, 3);
    match cx.lower_expr(&ast, r, &owner_in(0)) {
        Err(e) => assert_eq!(e.message(), "Invalid numeric part: `x`"),
        other => panic!("unexpected {:?}", other),
    }
}

#[test]
fn identifiers_resolve_through_the_scopes() {
    let mut cx = context("x + 1 null y");
    assert!(cx.scopes.add_item(Item::new(Symbol::intern("x"), 7, None), 0).is_ok());
    let mut ast = Ast::new();
    let x = leaf(&mut ast, NodeKind::Id, 0, 1);
    let one = leaf(&mut ast, NodeKind::Int, 4, 5);
    let add = ast.add_node(NodeBuilder::new(NodeKind::Add, sp(0, 5)).add_single_child(x).add_single_child(one));
    let null = leaf(&mut ast, NodeKind::Id, 6, 10);
    let y = leaf(&mut ast, NodeKind::Id, 11, 12);
    let owner = owner_in(0);
    assert_eq!(
        cx.lower_expr(&ast, add, &owner).ok(),
        Some(Expr::BinaryApply { left: Box::new(Expr::Ref(7)), right: Box::new(Expr::IntLiteral(1)), op: BinaryOp::Add })
    );
    assert_eq!(cx.lower_expr(&ast, null, &owner).ok(), Some(Expr::Null));
    match cx.lower_expr(&ast, y, &owner) {
        Err(LowerError::UnresolvedIdentifier { message, span }) => {
            assert_eq!(message, "Unresolved identifier: `y`");
            assert_eq!(span, sp(11, 12));
        },
        other => panic!("unexpected {:?}", other),
    }
}

#[test]
fn a_let_binding_is_seen_by_what_follows() {
    let mut cx = context("let v = 2; v");
    let body = match cx.scopes.add_scope(None, Some(0), true, 3) {
        Ok(id) => id,
        Err(_) => panic!("no scope"),
    };
    let mut ast = Ast::new();
    let pat = leaf(&mut ast, NodeKind::Id, 4, 5);
    let two = leaf(&mut ast, NodeKind::Int, 8, 9);
    let decl = ast.add_node(
        NodeBuilder::new(NodeKind::LetDecl, sp(0, 9)).add_single_child(pat).add_single_child(0).add_single_child(two),
    );
    let use_v = leaf(&mut ast, NodeKind::Id, 11, 12);
    let block = ast.add_node(NodeBuilder::new(NodeKind::Block, sp(0, 12)).with_children(vec![Child::multiple(vec![decl, use_v])]));
    let owner = owner_in(body);
    let lowered = cx.lower_expr(&ast, block, &owner).ok().unwrap();
    let expected = Expr::Block(
        BlockKind::Normal,
        vec![
            Expr::Let {
                pattern: Box::new(Pattern::Variable(Symbol::intern("v"))),
                ty: Box::new(Expr::Undefined),
                init: Box::new(Expr::IntLiteral(2)),
            },
            Expr::Ref(1),
        ],
    );
    assert_eq!(lowered, expected);
    assert!(matches!(cx.hir.get(1), Some(HirMapping::Expr(Expr::Ref(0), 0))));
    assert!(cx.hir.get(2).is_none());
}

#[test]
fn a_binding_in_a_missing_scope_is_an_error() {
    let mut cx = context("const c = 1");
    let mut ast = Ast::new();
    let pat = leaf(&mut ast, NodeKind::Id, 6, 7);
    let one = leaf(&mut ast, NodeKind::Int, 10, 11);
    let decl = ast.add_node(
        NodeBuilder::new(NodeKind::ConstDecl, sp(0, 11)).add_single_child(pat).add_single_child(0).add_single_child(one),
    );
    match cx.lower_expr(&ast, decl, &owner_in(9)) {
        Err(LowerError::ScopeError(m)) => assert_eq!(m, "Failed to add variable to scope: InvalidParentScope(9)"),
        other => panic!("unexpected {:?}", other),
    }
}

#[test]
fn calls_lists_and_selections() {
    let mut cx = context("f(a, k: b) [a] a.b");
    for (name, id) in [("f", 20usize), ("a", 21), ("b", 22)] {
        assert!(cx.scopes.add_item(Item::new(Symbol::intern(name), id, None), 0).is_ok());
    }
    let mut ast = Ast::new();
    let f = leaf(&mut ast, NodeKind::Id, 0, 1);
    let a = leaf(&mut ast, NodeKind::Id, 2, 3);
    let k = leaf(&mut ast, NodeKind::Id, 5, 6);
    let b = leaf(&mut ast, NodeKind::Id, 8, 9);
    let named = ast.add_node(NodeBuilder::new(NodeKind::OptionalArg, sp(5, 9)).add_single_child(k).add_single_child(b));
    let call = ast.add_node(
        NodeBuilder::new(NodeKind::Application, sp(0, 10))
            .add_single_child(f)
            .add_multiple_children(vec![a, named]),
    );
    let a2 = leaf(&mut ast, NodeKind::Id, 12, 13);
    let list = ast.add_node(NodeBuilder::new(NodeKind::ListOf, sp(11, 14)).with_children(vec![Child::multiple(vec![a2])]));
    let a3 = leaf(&mut ast, NodeKind::Id, 15, 16);
    let field = leaf(&mut ast, NodeKind::Id, 17, 18);
    let sel = ast.add_node(NodeBuilder::new(NodeKind::Select, sp(15, 18)).add_single_child(a3).add_single_child(field));
    let owner = owner_in(0);
    match cx.lower_expr(&ast, call, &owner) {
        Ok(Expr::FnApply { callee, args, optional_args }) => {
            assert_eq!(*callee, Expr::Ref(20));
            assert_eq!(args, vec![Expr::Ref(21)]);
            assert_eq!(optional_args.len(), 1);
            assert_eq!(optional_args[0].name.as_str(), "k");
            assert_eq!(*optional_args[0].value, Expr::Ref(22));
        },
        other => panic!("unexpected {:?}", other),
    }
    assert_eq!(cx.lower_expr(&ast, list, &owner).ok(), Some(Expr::List(vec![Expr::Ref(21)])));
    match cx.lower_expr(&ast, sel, &owner) {
        Ok(Expr::Select(base, name)) => {
            assert_eq!(*base, Expr::Ref(21));
            assert_eq!(name.as_str(), "b");
        },
        other => panic!("unexpected {:?}", other),
    }
}

#[test]
fn an_index_past_the_nodes_is_reported() {
    let mut cx = context("");
    let ast = Ast::new();
    match cx.lower_expr(&ast, 5, &owner_in(0)) {
        Err(LowerError::InternalError(m)) => assert_eq!(m, "Invalid node index"),
        other => panic!("unexpected {:?}", other),
    }
}

#[test]
fn patterns_bind_their_identifier() {
    let cx = context("abc");
    let mut ast = Ast::new();
    let id = leaf(&mut ast, NodeKind::Id, 0, 3);
    let (p, vs) = cx.lower_pattern(&ast, id, &owner_in(0)).ok().unwrap();
    assert_eq!(p, Pattern::Variable(Symbol::intern("abc")));
    assert_eq!(vs.len(), 1);
    assert_eq!(vs[0].as_str(), "abc");
}

#[test]
fn a_clause_gets_its_own_id() {
    let mut hir = Hir::new(map_of(""));
    let (id, stored) = hir.put_clause(Clause::TypeDecl { symbol: Symbol::intern("T"), owner: 4, self_id: 0 });
    assert_eq!(id, 1);
    assert_eq!(stored.self_id(), Some(1));
    assert_eq!(stored.owner(), Some(4));
    assert!(matches!(hir.get(1), Some(HirMapping::Clause(Clause::TypeDecl { self_id: 1, .. }, 1))));
}

#[test]
fn selections_and_normal_form_calls_lower_from_their_children() {
    let mut cx = context("a.b g<a> :sym");
    assert!(cx.scopes.add_item(Item::new(Symbol::intern("a"), 30, None), 0).is_ok());
    assert!(cx.scopes.add_item(Item::new(Symbol::intern("g"), 31, None), 0).is_ok());
    let mut ast = Ast::new();
    let a = leaf(&mut ast, NodeKind::Id, 0, 1);
    let b = leaf(&mut ast, NodeKind::Id, 2, 3);
    let sel = ast.add_node(NodeBuilder::new(NodeKind::Select, sp(0, 3)).add_single_child(a).add_single_child(b));
    let g = leaf(&mut ast, NodeKind::Id, 4, 5);
    let a2 = leaf(&mut ast, NodeKind::Id, 6, 7);
    let call = ast.add_node(
        NodeBuilder::new(NodeKind::NormalFormApplication, sp(4, 8)).add_single_child(g).add_multiple_children(vec![a2]),
    );
    let name = leaf(&mut ast, NodeKind::Id, 10, 13);
    let sym = ast.add_node(NodeBuilder::new(NodeKind::Symbol, sp(9, 13)).add_single_child(name));
    let owner = owner_in(0);
    let sel_children = ast.get_children(sel).to_vec();
    match cx.lower_select_expr(&ast, &sel_children, &owner) {
        Ok(Expr::Select(base, field)) => {
            assert_eq!(*base, Expr::Ref(30));
            assert_eq!(field.as_str(), "b");
        },
        other => panic!("unexpected {:?}", other),
    }
    let call_children = ast.get_children(call).to_vec();
    match cx.lower_diamond_call(&ast, call, &owner, &call_children) {
        Ok(Expr::NormalFormFnApply { callee, args, optional_args }) => {
            assert_eq!(*callee, Expr::Ref(31));
            assert_eq!(args, vec![Expr::Ref(30)]);
            assert!(optional_args.is_empty());
        },
        other => panic!("unexpected {:?}", other),
    }
    match cx.lower_expr_in_pattern(&ast, sym, &owner) {
        Ok(Expr::SymbolLiteral(s)) => assert_eq!(s.as_str(), "sym"),
        other => panic!("unexpected {:?}", other),
    }
    let short = vec![a];
    match cx.lower_select_expr(&ast, &short, &owner) {
        Err(LowerError::InternalError(m)) => assert_eq!(m, "Select node missing children"),
        other => panic!("unexpected {:?}", other),
    }
}

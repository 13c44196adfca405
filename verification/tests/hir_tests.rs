use luna::candidate::layer_sequence;
use luna::hir_intern::SExpr;
use luna::luna_hir::{BinaryOp, Clause, Expr, Pattern};
use luna::symbol::Symbol;

fn lit(n: i64) -> Box<Expr> {
    Box::new(Expr::IntLiteral(n))
}

fn add(l: Box<Expr>, r: Box<Expr>) -> Expr {
    Expr::BinaryApply { left: l, right: r, op: BinaryOp::Add }
}

#[test]
fn test_function() {
    // 23 + 23 + 34
    let expr1 = SExpr::intern(Expr::IntLiteral(23));
    let expr2 = SExpr::intern(Expr::IntLiteral(23));
    let expr3 = SExpr::intern(Expr::IntLiteral(34));
    let add_expr1 = SExpr::intern(add(Box::new(expr1.expr().deep_clone()), Box::new(expr2.expr().deep_clone())));
    let add_expr2 = SExpr::intern(add(Box::new(add_expr1.expr().deep_clone()), Box::new(expr3.expr().deep_clone())));

    let expr4 = SExpr::intern(Expr::IntLiteral(23));
    let expr5 = SExpr::intern(Expr::IntLiteral(34));
    let add_expr3 = SExpr::intern(add(Box::new(expr4.expr().deep_clone()), Box::new(expr4.expr().deep_clone())));
    let add_expr4 = SExpr::intern(add(Box::new(add_expr3.expr().deep_clone()), Box::new(expr5.expr().deep_clone())));

    assert_eq!(add_expr2, add_expr4);
    assert_eq!(expr1, expr2);
    assert_eq!(expr1, expr4);
    assert_ne!(expr1, expr3);
}

#[test]
fn structurally_equal_trees_are_equal() {
    let a = add(Box::new(add(lit(23), lit(23))), lit(34));
    let b = add(Box::new(add(lit(23), lit(23))), lit(34));
    assert_eq!(a, b);
    assert_ne!(a, add(lit(23), lit(34)));
}

#[test]
fn test_layer_sequence() {
    // Tuple<Tuple<i32, i32>>
    let ty = Expr::TyTuple(vec![Expr::TyTuple(vec![Expr::TyInt(32, true), Expr::TyInt(32, true)])]);

    let layers = layer_sequence(&ty);

    assert_eq!(layers.len(), 3);
    assert_eq!(layers[0], Expr::TyTuple(vec![Expr::TyAny]));
    assert_eq!(layers[1], Expr::TyTuple(vec![Expr::TyTuple(vec![Expr::TyAny, Expr::TyAny])]));
    assert_eq!(
        layers[2],
        Expr::TyTuple(vec![Expr::TyTuple(vec![Expr::TyInt(32, true), Expr::TyInt(32, true)])])
    );
}

#[test]
fn layer_sequence_of_the_doc_example() {
    // Tuple<Vec<Tuple<i32, i32>>, Tuple<i32, i32>>, with an optional standing for Vec
    let pair = || Expr::TyTuple(vec![Expr::TyInt(32, true), Expr::TyInt(32, true)]);
    let ty = Expr::TyTuple(vec![Expr::TyOptional(Box::new(pair())), pair()]);
    let layers = layer_sequence(&ty);
    assert_eq!(layers.len(), 4);
    assert_eq!(layers[0].to_display_string(), "(TyTuple (TyAny) (TyAny))");
    assert_eq!(
        layers[1].to_display_string(),
        "(TyTuple (TyOptional (TyAny)) (TyTuple (TyAny) (TyAny)))"
    );
    assert_eq!(
        layers[2].to_display_string(),
        "(TyTuple (TyOptional (TyTuple (TyAny) (TyAny))) (TyTuple (TyInt 32 true) (TyInt 32 true)))"
    );
    assert_eq!(layers[3], ty);
}

#[test]
fn layer_sequence_of_a_leaf_type_is_the_type() {
    let ty = Expr::TyBool;
    let layers = layer_sequence(&ty);
    assert_eq!(layers.len(), 1);
    assert_eq!(layers[0], Expr::TyBool);
}

#[test]
fn layer_sequence_keeps_array_sizes() {
    let ty = Expr::TyArray(Box::new(Expr::TyPointer(Box::new(Expr::TyChar))), lit(4));
    let layers = layer_sequence(&ty);
    assert_eq!(layers.len(), 3);
    assert_eq!(layers[0], Expr::TyArray(Box::new(Expr::TyAny), lit(4)));
    assert_eq!(layers[1], Expr::TyArray(Box::new(Expr::TyPointer(Box::new(Expr::TyAny))), lit(4)));
    assert_eq!(layers[2], ty);
}

#[test]
fn empty_tuple_has_depth_one() {
    let ty = Expr::TyTuple(vec![]);
    let layers = layer_sequence(&ty);
    assert_eq!(layers.len(), 1);
    assert_eq!(layers[0], Expr::TyTuple(vec![]));
}

#[test]
fn printing_of_expressions() {
    let e = add(Box::new(add(lit(23), lit(23))), lit(34));
    assert_eq!(
        e.to_display_string(),
        "(BinaryApply Add (BinaryApply Add (IntLiteral 23) (IntLiteral 23)) (IntLiteral 34))"
    );
    assert_eq!(Expr::Ref(7).to_display_string(), "(Ref 7)");
    assert_eq!(Expr::IntLiteral(-5).to_display_string(), "(IntLiteral -5)");
    assert_eq!(Expr::StrLiteral(Symbol::intern("hi")).to_display_string(), "(StrLiteral \"hi\")");
}

#[test]
fn deep_clone_is_the_same_tree() {
    let e = Expr::FnApply {
        callee: Box::new(Expr::Ref(3)),
        args: vec![Expr::IntLiteral(1), Expr::TyTuple(vec![Expr::TyAny])],
        optional_args: vec![],
    };
    let c = e.deep_clone();
    assert!(c.same_as(&e));
    assert_eq!(c.to_display_string(), e.to_display_string());
}

#[test]
fn sameness_compares_symbols_by_text() {
    let a = Pattern::Variable(Symbol::intern("x"));
    let b = Pattern::Variable(Symbol::intern("x"));
    let c = Pattern::Variable(Symbol::intern("y"));
    assert_eq!(a, b);
    assert_ne!(a, c);
    assert_ne!(Expr::TyInt(32, true), Expr::TyInt(32, false));
    assert_ne!(Expr::TyTuple(vec![Expr::TyAny]), Expr::TyTuple(vec![Expr::TyAny, Expr::TyAny]));
}


#[test]
fn character_literals_print_their_character() {
    assert_eq!(Expr::CharLiteral('x').to_display_string(), "(CharLiteral 'x')");
    assert_eq!(Expr::CharLiteral('é').to_display_string(), "(CharLiteral 'é')");
}

#[test]
fn clause_ids_and_owners() {
    let c = Clause::Decl { symbol: Symbol::intern("n"), ty: 4, default: None, owner: 2, self_id: 9 };
    assert_eq!(c.self_id(), Some(9));
    assert_eq!(c.owner(), Some(2));
    assert_eq!(Clause::Requires.self_id(), None);
    assert_eq!(Clause::Ensures.owner(), None);
}

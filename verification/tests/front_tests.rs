use luna::ast::{fn_mod_flags_to_string, Ast, Child, NodeBuilder, FN_MOD_ATOMIC, FN_MOD_INLINE, FN_MOD_PURE};
use luna::errors::LexError;
use luna::hir_common::{BinOp, FnModifiers, UnOp};
use luna::hir_id::{hir_id_allocator, ItemLocalId, LocalDefId, OwnerId};
use luna::idx::IndexVec;
use luna::intrinsic::{get_builtin, lookup_builtin, BuiltinFnId, LangItem, LangItemDef, LangItems};
use luna::node_kind::{NodeKind, NodeType};
use luna::source::{SourceFile, SourceMap};
use luna::span::{BytePos, Span};
use luna::sysroot::PackageId;
use luna::text::str_eq;
use luna::ty::{Mutability, PrimTy, Ty, TyKind};

fn map_of(text: &str, start: u32) -> SourceMap {
    SourceMap { files: vec![SourceFile { start_pos: BytePos(start), src: Some(text.to_string()) }] }
}

fn sp(lo: u32, hi: u32) -> Span {
    Span::new(BytePos(lo), BytePos(hi))
}

#[test]
fn dump_of_a_small_tree() {
    let map = map_of("1 + 22", 100);
    let mut ast = Ast::new();
    let a = ast.add_node(NodeBuilder::new(NodeKind::Int, sp(100, 101)));
    let b = ast.add_node(NodeBuilder::new(NodeKind::Int, sp(104, 106)));
    let add = ast.add_node(
        NodeBuilder::new(NodeKind::Add, sp(100, 106)).add_single_child(a).add_single_child(b),
    );
    assert_eq!(ast.dump_to_s_expression(add, &map), "(Add (Int 1) (Int 22))");
    assert_eq!(ast.dump_to_s_expression(0, &map), "(<invalid node>)");
    assert_eq!(ast.get_children(add), &[a, b]);
    assert_eq!(ast.get_node_kind(add), Some(NodeKind::Add));
    assert_eq!(ast.get_span(b), Some(sp(104, 106)));
    assert_eq!(ast.source_content(b, &map), Some("22".to_string()));
}

#[test]
fn multiple_children_are_kept_as_a_slice() {
    let mut ast = Ast::new();
    let a = ast.add_node(NodeBuilder::new(NodeKind::Id, sp(0, 1)));
    let b = ast.add_node(NodeBuilder::new(NodeKind::Id, sp(2, 3)));
    let list = ast.add_node(
        NodeBuilder::new(NodeKind::Tuple, sp(0, 3)).with_children(vec![Child::multiple(vec![a, b])]),
    );
    let slot = ast.get_children(list)[0];
    assert_eq!(ast.get_multi_child_slice(slot), Some(&[a, b][..]));
}

#[test]
fn node_types_of_some_kinds() {
    assert_eq!(NodeKind::Int.node_type(), NodeType::NoChild);
    assert_eq!(NodeKind::Add.node_type(), NodeType::DoubleChildren);
    assert_eq!(NodeKind::Add.kind_name(), "Add");
}

#[test]
fn function_modifier_words() {
    assert_eq!(fn_mod_flags_to_string(0), "");
    assert_eq!(fn_mod_flags_to_string(FN_MOD_PURE | FN_MOD_INLINE), "pure inline");
    assert_eq!(fn_mod_flags_to_string(FN_MOD_ATOMIC | FN_MOD_PURE), "pure atomic");
}

#[test]
fn span_encoding_orders_and_wraps() {
    let s = sp(10, 4);
    assert_eq!((s.lo().0, s.hi().0), (4, 10));
    let long = sp(0, 70000);
    assert_eq!((long.lo().0, long.hi().0), (0, 70000 - 65536));
    assert_eq!(Span::dummy(), Span::default());
}

#[test]
fn source_text_is_looked_up_in_the_right_file() {
    let map = SourceMap {
        files: vec![
            SourceFile { start_pos: BytePos(0), src: Some("  abc  ".to_string()) },
            SourceFile { start_pos: BytePos(10), src: Some("héllo world".to_string()) },
            SourceFile { start_pos: BytePos(40), src: None },
        ],
    };
    assert_eq!(map.lookup_source_file(BytePos(12)).start_pos.0, 10);
    assert_eq!(map.lookup_source_file(BytePos(3)).start_pos.0, 0);
    assert_eq!(map.span_source_text(sp(0, 7)), Some("abc".to_string()));
    assert_eq!(map.span_source_text(sp(10, 16)), Some("héllo".to_string()));
    assert_eq!(map.span_source_text(sp(40, 41)), None);
}

#[test]
fn lex_error_reporting() {
    let e = LexError::InvalidEscape { start: 5, escape_char: 'q', message: "bad escape".to_string() };
    assert_eq!(e.message(), "bad escape");
    assert_eq!(e.start_position(), 5);
    assert_eq!(e.error_code(), 1005);
    assert_eq!(e.error_name(), "invalid_escape");
    let s = e.to_span(BytePos(100));
    assert_eq!((s.lo().0, s.hi().0), (105, 107));
    let d = e.diagnostic(BytePos(100));
    assert_eq!(d.label, "Invalid escape sequence '\\q'");
    assert_eq!(d.code, 1005);
    let u = LexError::UnexpectedChar { position: 3, char: '$', message: "unexpected".to_string() };
    assert_eq!(u.error_code(), 1007);
    assert_eq!(u.diagnostic(BytePos(0)).label, "Unexpected character '$'");
}

#[test]
fn builtins_are_found_by_name_and_id() {
    let first = get_builtin(BuiltinFnId(0)).expect("builtin 0");
    let again = lookup_builtin(first.name).expect("by name");
    assert_eq!(again.name, first.name);
    assert!(lookup_builtin("no_such_builtin").is_none());
    assert!(get_builtin(BuiltinFnId(8)).is_none());
    assert_eq!(first.symbol().as_str(), first.name);
}

#[test]
fn lang_items_read_back_what_was_set() {
    let mut items = LangItems::new();
    assert!(items.is_empty());
    assert!(!items.has(LangItem::Bool));
    items.set(LangItem::Bool, LangItemDef::Builtin);
    assert!(items.has(LangItem::Bool));
    assert_eq!(items.len(), 1);
    assert!(matches!(items.get(LangItem::Bool), Some(LangItemDef::Builtin)));
    items.set(LangItem::Bool, LangItemDef::UserDef(LocalDefId(3)));
    assert_eq!(items.len(), 1);
    assert!(matches!(items.get(LangItem::Bool), Some(LangItemDef::UserDef(LocalDefId(3)))));
    assert_eq!(items.iter().len(), 1);
}

#[test]
fn package_ids_print_their_names() {
    assert_eq!(PackageId::builtin().to_display_string(), "builtin");
    assert_eq!(PackageId::std_package().to_display_string(), "std");
    assert_eq!(PackageId::new(7).to_display_string(), "pkg#7");
    assert!(PackageId::std_package().is_sysroot());
    assert!(!PackageId::user_start().is_sysroot());
}

#[test]
fn types_print_and_classify() {
    let t = Ty(Box::new(TyKind::Ptr(Ty(Box::new(TyKind::Primitive(PrimTy::I32))), Mutability::Mutable)));
    assert_eq!(t.to_display_string(), "*mut i32");
    assert!(!t.is_primitive());
    assert!(PrimTy::U8.is_unsigned_int());
    assert!(PrimTy::I64.is_int());
    assert!(!PrimTy::Bool.is_numeric());
}

#[test]
fn hir_ids_are_handed_out_in_order() {
    let owner = OwnerId::new(LocalDefId::new(2));
    let mut alloc = hir_id_allocator(owner);
    let first = alloc.next_id();
    let second = alloc.next_id();
    assert_eq!(first.owner, owner);
    assert_eq!(first.local_id, ItemLocalId::new(1));
    assert_eq!(second.local_id, ItemLocalId::new(2));
    assert_eq!(alloc.owner_hir_id().local_id, ItemLocalId::zero());
    assert!(!LocalDefId::invalid().is_valid());
}

#[test]
fn index_vec_pushes_and_reads() {
    let mut v: IndexVec<LocalDefId, u32> = IndexVec::new();
    let i = v.push(10);
    let j = v.push(20);
    assert_eq!(i, LocalDefId::new(0));
    assert_eq!(j, LocalDefId::new(1));
    assert_eq!(v.get(j), Some(&20));
    assert_eq!(v.get(LocalDefId::new(5)), None);
    assert_eq!(v.len(), 2);
    assert_eq!(v.iter().copied().collect::<Vec<u32>>(), vec![10, 20]);
    v.truncate(1);
    assert_eq!(v.len(), 1);
    let mut o: IndexVec<LocalDefId, Option<u32>> = IndexVec::new();
    o.insert(LocalDefId::new(3), 7);
    assert_eq!(o.len(), 4);
    assert_eq!(o.get(LocalDefId::new(3)), Some(&Some(7)));
    assert_eq!(o.get(LocalDefId::new(1)), Some(&None));
}

#[test]
fn operators_print() {
    assert_eq!(BinOp::Le.to_display_string(), ">=".replace(">", "<"));
    assert_eq!(BinOp::And.as_str(), "and");
    assert_eq!(UnOp::Not.to_display_string(), "not");
    let m = FnModifiers::default();
    assert!(!m.is_pure && !m.is_comptime && !m.is_extern);
}

#[test]
fn byte_wise_string_equality() {
    assert!(str_eq("abc", "abc"));
    assert!(!str_eq("abc", "abd"));
    assert!(!str_eq("ab", "abc"));
}

#[test]
fn index_vec_enumerates_with_indices() {
    let mut v: IndexVec<LocalDefId, char> = IndexVec::new();
    v.push('a');
    v.push('b');
    let e = v.iter_enumerated();
    assert_eq!(e.len(), 2);
    assert_eq!(e[1].0, LocalDefId::new(1));
    assert_eq!(*e[1].1, 'b');
}

#[test]
fn dump_follows_children_added_later() {
    let map = map_of("1 + 22", 0);
    let mut ast = Ast::new();
    let add = ast.add_node(NodeBuilder::new(NodeKind::Add, sp(0, 6)).add_single_child(2).add_single_child(3));
    let a = ast.add_node(NodeBuilder::new(NodeKind::Int, sp(0, 1)));
    let b = ast.add_node(NodeBuilder::new(NodeKind::Int, sp(4, 6)));
    assert_eq!((add, a, b), (1, 2, 3));
    assert_eq!(ast.dump_to_s_expression(add, &map), "(Add (Int 1) (Int 22))");
}

#[test]
fn many_ids_from_one_allocator() {
    let owner = OwnerId::new(LocalDefId::new(5));
    let mut alloc = hir_id_allocator(owner);
    for j in 1..=10u32 {
        let id = alloc.next_id();
        assert_eq!(id.owner, owner);
        assert_eq!(id.local_id, ItemLocalId::new(j));
        assert_ne!(id, alloc.owner_hir_id());
    }
}

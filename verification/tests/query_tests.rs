use luna::hir_id::LocalDefId;
use luna::idx::IndexVec;
use luna::query::{DependencyType, QueryDependency, QueryEngine, QueryKey};

#[test]
fn hir_answers_are_cached_once() {
    let mut q = QueryEngine::new();
    assert_eq!(q.cache_len(), 0);
    let first = q.hir(3);
    assert_eq!(first, vec!["fn main() for file 3".to_string(), "return statement for file 3".to_string()]);
    assert_eq!(q.cache_len(), 1);
    let again = q.hir(3);
    assert_eq!(again, first);
    assert_eq!(q.cache_len(), 1);
    assert_eq!(q.scope(7), vec!["variable_a in scope 7".to_string(), "variable_b in scope 7".to_string()]);
    assert_eq!(q.cache_len(), 2);
}

#[test]
fn type_queries_depend_on_the_hir_of_file_one() {
    let mut q = QueryEngine::default();
    assert_eq!(q.type_of(42), "Type of node 42 is i32");
    assert_eq!(q.cache_len(), 2);
    let deps = q.get_dependency_info(&QueryKey::TypeOf(42));
    assert_eq!(deps, vec![QueryDependency { query: QueryKey::Hir(1), dependency_type: DependencyType::Direct }]);
    assert_eq!(q.type_of(42), "Type of node 42 is i32");
    assert_eq!(q.get_dependency_info(&QueryKey::TypeOf(42)).len(), 1);
    assert!(q.get_dependency_info(&QueryKey::Hir(1)).is_empty());
    q.clear_cache();
    assert_eq!(q.cache_len(), 0);
    assert_eq!(q.get_dependency_info(&QueryKey::TypeOf(42)).len(), 1);
}

#[test]
fn values_can_be_changed_in_place() {
    let mut v: IndexVec<LocalDefId, u32> = IndexVec::new();
    v.push(1);
    v.push(2);
    for x in v.iter_mut() {
        *x *= 10;
    }
    assert_eq!(v.raw(), &vec![10, 20]);
}

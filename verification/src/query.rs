//! The query engine: answers to HIR, type and scope queries, kept in a
//! cache, with the dependencies between queries recorded.
use vstd::prelude::*;
use crate::text::{decimal, push_decimal, push_str};

verus! {

/// A query.
#[derive(Clone, Copy, Debug, PartialEq, Eq, Structural)]
pub enum QueryKey {
    /// The HIR of a file.
    Hir(u32),
    /// The type of a node.
    TypeOf(u32),
    /// The names of a scope.
    Scope(u32),
}

/// How one query depends on another.
#[derive(Clone, Copy, Debug, PartialEq, Eq, Structural)]
pub enum DependencyType {
    /// The query asks the other one itself.
    Direct,
}

/// A query that another one depends on.
#[derive(Clone, Copy, Debug, PartialEq, Eq, Structural)]
pub struct QueryDependency {
    pub query: QueryKey,
    pub dependency_type: DependencyType,
}

/// A cached answer.
pub enum QueryValue {
    Lines(Vec<String>),
    Text(String),
}

/// The texts of a list of strings.
pub open spec fn texts(s: Seq<String>) -> Seq<Seq<char>> {
    s.map_values(|x: String| x@)
}

/// The HIR lines of a file.
pub open spec fn hir_lines(file_id: u32) -> Seq<Seq<char>> {
    seq!["fn main() for file "@ + decimal(file_id as nat), "return statement for file "@ + decimal(file_id as nat)]
}

/// The type text of a node.
pub open spec fn type_text(node_id: u32) -> Seq<char> {
    "Type of node "@ + decimal(node_id as nat) + " is i32"@
}

/// The names of a scope.
pub open spec fn scope_lines(scope_id: u32) -> Seq<Seq<char>> {
    seq!["variable_a in scope "@ + decimal(scope_id as nat), "variable_b in scope "@ + decimal(scope_id as nat)]
}

/// `v` is the answer to `k`.
pub open spec fn answers(k: QueryKey, v: QueryValue) -> bool {
    match k {
        QueryKey::Hir(id) => v matches QueryValue::Lines(l) && texts(l@) == hir_lines(id),
        QueryKey::TypeOf(id) => v matches QueryValue::Text(s) && s@ == type_text(id),
        QueryKey::Scope(id) => v matches QueryValue::Lines(l) && texts(l@) == scope_lines(id),
    }
}

/// The dependencies recorded for `k`, in the order they were recorded.
pub open spec fn deps_of(ds: Seq<(QueryKey, QueryDependency)>, k: QueryKey) -> Seq<QueryDependency>
    decreases ds.len(),
{
    if ds.len() == 0 {
        Seq::empty()
    } else if ds.last().0 == k {
        deps_of(ds.drop_last(), k).push(ds.last().1)
    } else {
        deps_of(ds.drop_last(), k)
    }
}

/// The query engine.
pub struct QueryEngine {
    cache: Vec<(QueryKey, QueryValue)>,
    dependencies: Vec<(QueryKey, QueryDependency)>,
}

impl QueryEngine {
    /// The queries with a cached answer, in the order they were answered.
    pub closed spec fn cached(&self) -> Seq<QueryKey> {
        self.cache@.map_values(|e: (QueryKey, QueryValue)| e.0)
    }

    /// The recorded dependencies, in order: each a query and one it depends on.
    pub closed spec fn deps(&self) -> Seq<(QueryKey, QueryDependency)> {
        self.dependencies@
    }

    /// Every cached answer is the answer to its query, and no query is
    /// cached twice.
    pub closed spec fn wf(&self) -> bool {
        &&& forall|i: int| 0 <= i < self.cache@.len() ==> answers(#[trigger] self.cache@[i].0, self.cache@[i].1)
        &&& forall|i: int, j: int|
            0 <= i < j < self.cache@.len() ==> #[trigger] self.cache@[i].0 != #[trigger] self.cache@[j].0
    }

    /// An engine with nothing cached or recorded.
    pub fn new() -> (e: QueryEngine)
        ensures
            e.wf(),
            e.cached() == Seq::<QueryKey>::empty(),
            e.deps() == Seq::<(QueryKey, QueryDependency)>::empty(),
    {
        let e = QueryEngine { cache: Vec::new(), dependencies: Vec::new() };
        proof {
            assert(e.cached() =~= Seq::<QueryKey>::empty());
        }
        e
    }

    /// The position of `k` in the cache.
    fn find(&self, k: QueryKey) -> (r: Option<usize>)
        ensures
            match r {
                Some(i) => i < self.cache@.len() && self.cache@[i as int].0 == k,
                None => !self.cached().contains(k),
            },
    {
        let mut i: usize = 0;
        while i < self.cache.len()
            invariant
                i <= self.cache@.len(),
                forall|j: int| 0 <= j < i ==> self.cache@[j].0 != k,
            decreases self.cache@.len() - i,
        {
            if self.cache[i].0 == k {
                return Some(i);
            }
            i += 1;
        }
        proof {
            if self.cached().contains(k) {
                let j = choose|j: int| 0 <= j < self.cached().len() && self.cached()[j] == k;
                assert(self.cache@[j].0 == k);
            }
        }
        None
    }

    /// Adds the answer to a query that is not cached.
    fn remember(&mut self, k: QueryKey, v: QueryValue)
        requires
            old(self).wf(),
            !old(self).cached().contains(k),
            answers(k, v),
        ensures
            final(self).wf(),
            final(self).cached() == old(self).cached().push(k),
            final(self).deps() == old(self).deps(),
    {
        let ghost before = self.cached();
        self.cache.push((k, v));
        proof {
            assert(self.cached() =~= before.push(k));
            assert forall|i: int, j: int| 0 <= i < j < self.cache@.len() implies #[trigger] self.cache@[i].0
                != #[trigger] self.cache@[j].0 by {
                if j == self.cache@.len() - 1 {
                    assert(before[i] == self.cache@[i].0);
                }
            }
        }
    }

    /// A copy of a list of strings.
    fn copy_lines(l: &Vec<String>) -> (r: Vec<String>)
        ensures
            r@ == l@,
    {
        let mut r: Vec<String> = Vec::new();
        let mut i: usize = 0;
        while i < l.len()
            invariant
                i <= l@.len(),
                r@ == l@.subrange(0, i as int),
            decreases l@.len() - i,
        {
            r.push(l[i].clone());
            proof {
                assert(r@ =~= l@.subrange(0, i + 1));
            }
            i += 1;
        }
        proof {
            assert(l@.subrange(0, l@.len() as int) =~= l@);
        }
        r
    }

    /// `prefix`, then a number.
    fn numbered(prefix: &str, n: u32) -> (r: String)
        ensures
            r@ == prefix@ + decimal(n as nat),
    {
        let mut s = String::from_str(prefix);
        push_decimal(&mut s, n as u64);
        s
    }

    /// The two lines of a list answer.
    fn two_lines(a: String, b: String) -> (r: Vec<String>)
        ensures
            texts(r@) == seq![a@, b@],
    {
        let mut v: Vec<String> = Vec::new();
        v.push(a);
        v.push(b);
        proof {
            assert(texts(v@) =~= seq![a@, b@]);
        }
        v
    }

    /// Answers a lines query from the cache, or computes and caches it.
    fn lines_query(&mut self, k: QueryKey, fresh: Vec<String>) -> (r: Vec<String>)
        requires
            old(self).wf(),
            !(k is TypeOf),
            answers(k, QueryValue::Lines(fresh)),
        ensures
            final(self).wf(),
            answers(k, QueryValue::Lines(r)),
            final(self).deps() == old(self).deps(),
            old(self).cached().contains(k) ==> final(self).cached() == old(self).cached(),
            !old(self).cached().contains(k) ==> final(self).cached() == old(self).cached().push(k),
    {
        match self.find(k) {
            Some(i) => {
                proof {
                    assert(answers(self.cache@[i as int].0, self.cache@[i as int].1));
                    assert(self.cached()[i as int] == k);
                }
                match &self.cache[i].1 {
                    QueryValue::Lines(l) => Self::copy_lines(l),
                    QueryValue::Text(_) => vstd::pervasive::unreached(),
                }
            },
            None => {
                let r = Self::copy_lines(&fresh);
                self.remember(k, QueryValue::Lines(fresh));
                r
            },
        }
    }

    /// The HIR of a file.
    pub fn hir(&mut self, file_id: u32) -> (r: Vec<String>)
        requires
            old(self).wf(),
        ensures
            final(self).wf(),
            texts(r@) == hir_lines(file_id),
            final(self).deps() == old(self).deps(),
            old(self).cached().contains(QueryKey::Hir(file_id)) ==> final(self).cached() == old(self).cached(),
            !old(self).cached().contains(QueryKey::Hir(file_id)) ==> final(self).cached() == old(self).cached().push(
                QueryKey::Hir(file_id),
            ),
    {
        let fresh = Self::two_lines(
            Self::numbered("fn main() for file ", file_id),
            Self::numbered("return statement for file ", file_id),
        );
        self.lines_query(QueryKey::Hir(file_id), fresh)
    }

    /// The names of a scope.
    pub fn scope(&mut self, scope_id: u32) -> (r: Vec<String>)
        requires
            old(self).wf(),
        ensures
            final(self).wf(),
            texts(r@) == scope_lines(scope_id),
            final(self).deps() == old(self).deps(),
            old(self).cached().contains(QueryKey::Scope(scope_id)) ==> final(self).cached() == old(self).cached(),
            !old(self).cached().contains(QueryKey::Scope(scope_id)) ==> final(self).cached() == old(self).cached().push(
                QueryKey::Scope(scope_id),
            ),
    {
        let fresh = Self::two_lines(
            Self::numbered("variable_a in scope ", scope_id),
            Self::numbered("variable_b in scope ", scope_id),
        );
        self.lines_query(QueryKey::Scope(scope_id), fresh)
    }

    /// The type of a node.  Answering it the first time asks the HIR of
    /// file 1 and records that dependency.
    pub fn type_of(&mut self, node_id: u32) -> (r: String)
        requires
            old(self).wf(),
        ensures
            final(self).wf(),
            r@ == type_text(node_id),
            old(self).cached().contains(QueryKey::TypeOf(node_id)) ==> final(self).cached() == old(self).cached()
                && final(self).deps() == old(self).deps(),
            !old(self).cached().contains(QueryKey::TypeOf(node_id)) ==> {
                &&& final(self).deps() == old(self).deps().push(
                    (QueryKey::TypeOf(node_id), QueryDependency { query: QueryKey::Hir(1), dependency_type: DependencyType::Direct }),
                )
                &&& final(self).cached() == if old(self).cached().contains(QueryKey::Hir(1)) {
                    old(self).cached().push(QueryKey::TypeOf(node_id))
                } else {
                    old(self).cached().push(QueryKey::Hir(1)).push(QueryKey::TypeOf(node_id))
                }
            },
    {
        let k = QueryKey::TypeOf(node_id);
        match self.find(k) {
            Some(i) => {
                proof {
                    assert(answers(self.cache@[i as int].0, self.cache@[i as int].1));
                    assert(self.cached()[i as int] == k);
                }
                match &self.cache[i].1 {
                    QueryValue::Text(s) => s.clone(),
                    QueryValue::Lines(_) => vstd::pervasive::unreached(),
                }
            },
            None => {
                let ghost c0 = self.cached();
                let _hir = self.hir(1);
                proof {
                    if self.cached().contains(k) {
                        let j = choose|j: int| 0 <= j < self.cached().len() && self.cached()[j] == k;
                        if j < c0.len() {
                            assert(c0[j] == k);
                            assert(c0.contains(k));
                        }
                    }
                }
                let mut t = Self::numbered("Type of node ", node_id);
                push_str(&mut t, " is i32");
                let dep = QueryDependency { query: QueryKey::Hir(1), dependency_type: DependencyType::Direct };
                self.dependencies.push((k, dep));
                let r = t.clone();
                self.remember(k, QueryValue::Text(t));
                r
            },
        }
    }

    /// The dependencies recorded for a query, in order.
    pub fn get_dependency_info(&self, query_key: &QueryKey) -> (r: Vec<QueryDependency>)
        ensures
            r@ == deps_of(self.deps(), *query_key),
    {
        let mut r: Vec<QueryDependency> = Vec::new();
        let mut i: usize = 0;
        while i < self.dependencies.len()
            invariant
                i <= self.dependencies@.len(),
                r@ == deps_of(self.dependencies@.subrange(0, i as int), *query_key),
            decreases self.dependencies@.len() - i,
        {
            proof {
                assert(self.dependencies@.subrange(0, i + 1).drop_last() =~= self.dependencies@.subrange(0, i as int));
            }
            if self.dependencies[i].0 == *query_key {
                r.push(self.dependencies[i].1);
            }
            i += 1;
        }
        proof {
            assert(self.dependencies@.subrange(0, self.dependencies@.len() as int) =~= self.dependencies@);
        }
        r
    }

    /// Forgets every cached answer; the recorded dependencies stay.
    pub fn clear_cache(&mut self)
        ensures
            final(self).wf(),
            final(self).cached() == Seq::<QueryKey>::empty(),
            final(self).deps() == old(self).deps(),
    {
        self.cache = Vec::new();
        proof {
            assert(self.cached() =~= Seq::<QueryKey>::empty());
        }
    }

    /// How many queries have a cached answer.
    pub fn cache_len(&self) -> (r: usize)
        ensures
            r == self.cached().len(),
    {
        self.cache.len()
    }
}

impl Default for QueryEngine {
    fn default() -> (e: QueryEngine)
        ensures
            e.wf(),
            e.cached() == Seq::<QueryKey>::empty(),
            e.deps() == Seq::<(QueryKey, QueryDependency)>::empty(),
    {
        QueryEngine::new()
    }
}

} // verus!

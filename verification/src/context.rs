//! The context builder: merges the data tree's top-level entries and the
//! inline overrides into one flat evaluation context. Data entries go in
//! first and keep their native shape; overrides go in after, as plain
//! text, so an override always wins a key collision.

use vstd::prelude::*;

use crate::args::VarMap;
use crate::data::{clone_value, DataTree};
use crate::pairs::{distinct_keys, map_of_pairs, lemma_map_of_pairs_push,
    lemma_map_of_pairs_update};

verus! {

/// A context value as the contracts see it: a data tree value in its
/// native shape, or override text.
pub enum CtxValView {
    Data(toml::Value),
    Text(Seq<char>),
}

/// A value the evaluation context holds.
pub enum CtxValue {
    /// A value taken from the data tree, kept in its native shape.
    Data(toml::Value),
    /// An inline override, always plain text.
    Text(String),
}

impl View for CtxValue {
    type V = CtxValView;

    open spec fn view(&self) -> CtxValView {
        match self {
            CtxValue::Data(v) => CtxValView::Data(*v),
            CtxValue::Text(s) => CtxValView::Text(s@),
        }
    }
}

/// What the data tree alone contributes to the context.
pub open spec fn data_context(d: Option<Map<Seq<char>, toml::Value>>) -> Map<
    Seq<char>,
    CtxValView,
> {
    match d {
        Some(m) => m.map_values(|v: toml::Value| CtxValView::Data(v)),
        None => Map::empty(),
    }
}

/// What the overrides alone contribute to the context.
pub open spec fn override_context(o: Map<Seq<char>, Seq<char>>) -> Map<Seq<char>, CtxValView> {
    o.map_values(|s: Seq<char>| CtxValView::Text(s))
}

/// The one evaluation context an invocation renders against: data
/// entries first, overrides after, the override winning on a shared key.
pub open spec fn merged_context(
    d: Option<Map<Seq<char>, toml::Value>>,
    o: Map<Seq<char>, Seq<char>>,
) -> Map<Seq<char>, CtxValView> {
    data_context(d).union_prefer_right(override_context(o))
}

/// Mapping the values of a mapping commutes with inserting one.
proof fn lemma_map_values_insert<V, W>(
    m: Map<Seq<char>, V>,
    f: spec_fn(V) -> W,
    k: Seq<char>,
    v: V,
)
    ensures
        m.insert(k, v).map_values(f) == m.map_values(f).insert(k, f(v)),
{
    assert(m.insert(k, v).map_values(f) =~= m.map_values(f).insert(k, f(v)));
}

/// Inserting on the right of a right-preferring union is inserting into
/// the union.
proof fn lemma_union_insert_right<W>(a: Map<Seq<char>, W>, b: Map<Seq<char>, W>, k: Seq<char>, v: W)
    ensures
        a.union_prefer_right(b.insert(k, v)) == a.union_prefer_right(b).insert(k, v),
{
    assert(a.union_prefer_right(b.insert(k, v)) =~= a.union_prefer_right(b).insert(k, v));
}

/// The evaluation context: a flat mapping from variable name to value,
/// held as a list of pairs with pairwise distinct keys.
pub struct EvalContext {
    entries: Vec<(String, CtxValue)>,
}

/// The stored views of the context's entry list.
pub open spec fn ctx_entry_views(s: Seq<(String, CtxValue)>) -> Seq<(Seq<char>, CtxValView)> {
    s.map_values(|p: (String, CtxValue)| (p.0@, p.1@))
}

impl View for EvalContext {
    type V = Map<Seq<char>, CtxValView>;

    closed spec fn view(&self) -> Map<Seq<char>, CtxValView> {
        map_of_pairs(ctx_entry_views(self.entries@))
    }
}

impl EvalContext {
    /// The entries as they are stored, in insertion order.
    pub closed spec fn entries_view(&self) -> Seq<(Seq<char>, CtxValView)> {
        ctx_entry_views(self.entries@)
    }

    /// The stored keys are pairwise distinct.
    pub closed spec fn wf(&self) -> bool {
        distinct_keys(ctx_entry_views(self.entries@))
    }

    /// The mapping is the one the stored entries denote.
    pub proof fn lemma_view_is_entries(&self)
        ensures
            self@ == map_of_pairs(self.entries_view()),
    {
    }

    /// An empty context.
    pub fn new() -> (r: EvalContext)
        ensures
            r@ == Map::<Seq<char>, CtxValView>::empty(),
            r.wf(),
    {
        let r = EvalContext { entries: Vec::new() };
        proof {
            assert(ctx_entry_views(r.entries@) =~= Seq::<(Seq<char>, CtxValView)>::empty());
        }
        r
    }

    /// Sets one variable, overwriting any earlier value under the key.
    pub fn insert(&mut self, key: String, value: CtxValue)
        requires
            old(self).wf(),
        ensures
            final(self).wf(),
            final(self)@ == old(self)@.insert(key@, value@),
    {
        let n = self.entries.len();
        let mut i: usize = 0;
        while i < n
            invariant
                i <= n,
                n == self.entries.len(),
                self.entries@ == old(self).entries@,
                distinct_keys(ctx_entry_views(self.entries@)),
                forall|j: int| 0 <= j < i ==> ctx_entry_views(self.entries@)[j].0 != key@,
            decreases n - i,
        {
            proof {
                assert(ctx_entry_views(self.entries@)[i as int] == (
                    self.entries@[i as int].0@,
                    self.entries@[i as int].1@,
                ));
            }
            if crate::text::str_eq(self.entries[i].0.as_str(), key.as_str()) {
                let ghost s = ctx_entry_views(self.entries@);
                self.entries.set(i, (key, value));
                proof {
                    let t = ctx_entry_views(self.entries@);
                    assert(t =~= s.update(i as int, (s[i as int].0, value@)));
                    lemma_map_of_pairs_update(s, i as int, value@);
                    assert(forall|j: int| 0 <= j < t.len() ==> t[j].0 == s[j].0);
                    assert forall|a: int, b: int| 0 <= a < b < t.len() implies t[a].0
                        != t[b].0 by {
                        assert(s[a].0 != s[b].0);
                    }
                }
                return ;
            }
            i = i + 1;
        }
        let ghost s = ctx_entry_views(self.entries@);
        self.entries.push((key, value));
        proof {
            let t = ctx_entry_views(self.entries@);
            assert(t =~= s.push((key@, value@)));
            lemma_map_of_pairs_push(s, key@, value@);
            assert forall|a: int, b: int| 0 <= a < b < t.len() implies t[a].0 != t[b].0 by {
                if b < s.len() {
                    assert(s[a].0 != s[b].0);
                } else {
                    assert(t[b].0 == key@);
                }
            }
        }
    }

    /// How many variables the context holds.
    pub fn entry_count(&self) -> (n: usize)
        ensures
            n == self.entries_view().len(),
    {
        self.entries.len()
    }

    /// The entry at one position of the stored list.
    pub fn entry_at(&self, i: usize) -> (e: &(String, CtxValue))
        requires
            i < self.entries_view().len(),
        ensures
            (e.0@, e.1@) == self.entries_view()[i as int],
    {
        &self.entries[i]
    }
}

/// Builds the evaluation context of an invocation: every top-level data
/// entry first, in its native shape, then every override as text, so that
/// on a shared key the override's text is what remains.
pub fn build_context(data: Option<&DataTree>, vars: &VarMap) -> (r: EvalContext)
    requires
        data matches Some(t) ==> t.wf(),
        vars.wf(),
    ensures
        r.wf(),
        r@ == merged_context(
            match data {
                Some(t) => Some(t@),
                None => None,
            },
            vars@,
        ),
{
    let ghost dmap: Option<Map<Seq<char>, toml::Value>> = match data {
        Some(t) => Some(t@),
        None => None,
    };
    let mut ctx = EvalContext::new();
    if let Some(tree) = data {
        let n = tree.entry_count();
        let mut i: usize = 0;
        proof {
            assert(tree.entries_view().take(0) =~= Seq::<(Seq<char>, toml::Value)>::empty());
            assert(ctx@ =~= data_context(Some(map_of_pairs(tree.entries_view().take(0)))));
        }
        while i < n
            invariant
                i <= n,
                n == tree.entries_view().len(),
                tree.wf(),
                ctx.wf(),
                ctx@ == data_context(Some(map_of_pairs(tree.entries_view().take(i as int)))),
            decreases n - i,
        {
            let e = tree.entry_at(i);
            let k = e.0.clone();
            let v = clone_value(&e.1);
            let ghost s = tree.entries_view();
            ctx.insert(k, CtxValue::Data(v));
            proof {
                assert(s.take(i as int + 1).drop_last() =~= s.take(i as int));
                assert(s.take(i as int + 1).last() == s[i as int]);
                lemma_map_values_insert(
                    map_of_pairs(s.take(i as int)),
                    |w: toml::Value| CtxValView::Data(w),
                    s[i as int].0,
                    s[i as int].1,
                );
            }
            i = i + 1;
        }
        proof {
            assert(tree.entries_view().take(n as int) =~= tree.entries_view());
            tree.lemma_view_is_entries();
        }
    }
    proof {
        assert(vars.entries_view().take(0) =~= Seq::<(Seq<char>, Seq<char>)>::empty());
        assert(override_context(map_of_pairs(vars.entries_view().take(0)))
            =~= Map::<Seq<char>, CtxValView>::empty());
        assert(ctx@ =~= data_context(dmap).union_prefer_right(
            override_context(map_of_pairs(vars.entries_view().take(0))),
        ));
    }
    let m = vars.entry_count();
    let mut j: usize = 0;
    while j < m
        invariant
            j <= m,
            m == vars.entries_view().len(),
            vars.wf(),
            ctx.wf(),
            ctx@ == data_context(dmap).union_prefer_right(
                override_context(map_of_pairs(vars.entries_view().take(j as int))),
            ),
        decreases m - j,
    {
        let e = vars.entry_at(j);
        let ghost s = vars.entries_view();
        ctx.insert(e.0.clone(), CtxValue::Text(e.1.clone()));
        proof {
            assert(s.take(j as int + 1).drop_last() =~= s.take(j as int));
            assert(s.take(j as int + 1).last() == s[j as int]);
            lemma_map_values_insert(
                map_of_pairs(s.take(j as int)),
                |w: Seq<char>| CtxValView::Text(w),
                s[j as int].0,
                s[j as int].1,
            );
            lemma_union_insert_right(
                data_context(dmap),
                override_context(map_of_pairs(s.take(j as int))),
                s[j as int].0,
                CtxValView::Text(s[j as int].1),
            );
        }
        j = j + 1;
    }
    proof {
        assert(vars.entries_view().take(m as int) =~= vars.entries_view());
        vars.lemma_view_is_entries();
    }
    ctx
}

/// Law: when a key stands in the data tree and among the overrides both,
/// the merged context holds the override's text under it.
pub proof fn lemma_override_wins(
    d: Map<Seq<char>, toml::Value>,
    o: Map<Seq<char>, Seq<char>>,
    k: Seq<char>,
)
    requires
        d.contains_key(k),
        o.contains_key(k),
    ensures
        merged_context(Some(d), o).contains_key(k),
        merged_context(Some(d), o)[k] == CtxValView::Text(o[k]),
{
}

/// Law: when the data tree and the overrides share no key, the merged
/// context is their union, every entry unchanged.
pub proof fn lemma_disjoint_keys_union(
    d: Map<Seq<char>, toml::Value>,
    o: Map<Seq<char>, Seq<char>>,
)
    requires
        d.dom().disjoint(o.dom()),
    ensures
        forall|k: Seq<char>| #[trigger] d.contains_key(k) ==> merged_context(Some(d), o)[k]
            == CtxValView::Data(d[k]),
        forall|k: Seq<char>| #[trigger] o.contains_key(k) ==> merged_context(Some(d), o)[k]
            == CtxValView::Text(o[k]),
        merged_context(Some(d), o).dom() == d.dom() + o.dom(),
{
    assert(merged_context(Some(d), o).dom() =~= d.dom() + o.dom());
}

} // verus!

//! In-memory node and run store: nodes in a `DashMap` keyed by node id, runs
//! in insertion order with upsert by run id.

use dashmap::DashMap;
use vstd::prelude::*;

use crate::ids::{NodeId, RunId};
use crate::node::ValidatorNode;
use crate::ops::{DeploymentRun, RunView};

verus! {

#[verifier::external_type_specification]
#[verifier::external_body]
#[verifier::reject_recursive_types(K)]
#[verifier::reject_recursive_types(V)]
#[verifier::reject_recursive_types(S)]
pub struct ExDashMap<K, V, S>(DashMap<K, V, S>);

/// What a node map holds: node id text to node.
pub uninterp spec fn node_map_contents(m: DashMap<String, ValidatorNode>) -> Map<
    Seq<char>,
    ValidatorNode,
>;

/// `DashMap::new`: an empty map.
#[verifier::external_body]
fn node_map_new() -> (m: DashMap<String, ValidatorNode>)
    ensures
        node_map_contents(m).dom().len() == 0,
        node_map_contents(m).dom().finite(),
{
    DashMap::new()
}

/// `DashMap::insert`: `key` now maps to `value`, every other entry is kept.
#[verifier::external_body]
fn node_map_insert(m: &mut DashMap<String, ValidatorNode>, key: String, value: ValidatorNode)
    ensures
        node_map_contents(*final(m)) == node_map_contents(*old(m)).insert(key@, value),
{
    m.insert(key, value);
}

/// `DashMap::get`, cloning the entry out.
#[verifier::external_body]
fn node_map_get(m: &DashMap<String, ValidatorNode>, key: &String) -> (r: Option<ValidatorNode>)
    ensures
        r == node_map_contents(*m).get(key@),
{
    match m.get(key) {
        Some(entry) => Some(entry.value().clone()),
        None => None,
    }
}

/// `DashMap::len`: the number of entries.
#[verifier::external_body]
fn node_map_len(m: &DashMap<String, ValidatorNode>) -> (n: usize)
    ensures
        n == node_map_contents(*m).dom().len(),
{
    m.len()
}

/// `DashMap::iter`, cloning every entry out once, in the map's own order.
#[verifier::external_body]
fn node_map_entries(m: &DashMap<String, ValidatorNode>) -> (r: Vec<(String, ValidatorNode)>)
    ensures
        r@.len() == node_map_contents(*m).dom().len(),
        forall|i: int|
            0 <= i < r@.len() ==> node_map_contents(*m).get(#[trigger] r@[i].0@) == Some(r@[i].1),
        forall|i: int, j: int|
            0 <= i < j < r@.len() ==> (#[trigger] r@[i]).0@ != (#[trigger] r@[j]).0@,
{
    let mut out = Vec::new();
    for entry in m.iter() {
        out.push((entry.key().clone(), entry.value().clone()));
    }
    out
}

/// The views of a sequence of runs.
pub open spec fn run_views(s: Seq<DeploymentRun>) -> Seq<RunView> {
    Seq::new(s.len(), |i: int| s[i]@)
}

/// The index of the first run with id `id`, if any.
pub open spec fn find_run(runs: Seq<RunView>, id: RunId) -> Option<nat>
    decreases runs.len(),
{
    if runs.len() == 0 {
        None
    } else if runs[0].id == id {
        Some(0)
    } else {
        match find_run(runs.drop_first(), id) {
            Some(k) => Some(k + 1),
            None => None,
        }
    }
}

/// The runs after saving `run`: it replaces the first run with its id, or is
/// appended when there is none.
pub open spec fn runs_after_save(runs: Seq<RunView>, run: RunView) -> Seq<RunView> {
    match find_run(runs, run.id) {
        Some(k) => runs.update(k as int, run),
        None => runs.push(run),
    }
}

/// Where `x` goes among `sorted` (newest first) so that runs that started no
/// later than `x`'s peers stay ahead of it: after every leading run that
/// started at or after `x`.
pub open spec fn insert_pos(sorted: Seq<RunView>, x: RunView) -> nat
    decreases sorted.len(),
{
    if sorted.len() == 0 {
        0
    } else if sorted[0].started_at.nanos() >= x.started_at.nanos() {
        1 + insert_pos(sorted.drop_first(), x)
    } else {
        0
    }
}

/// Runs ordered newest first by start time; runs that started at the same
/// time keep their relative order (a stable sort).
pub open spec fn newest_first(s: Seq<RunView>) -> Seq<RunView>
    decreases s.len(),
{
    if s.len() == 0 {
        s
    } else {
        let t = newest_first(s.drop_last());
        t.insert(insert_pos(t, s.last()) as int, s.last())
    }
}

/// Start times never increase along `s`.
pub open spec fn is_newest_first(s: Seq<RunView>) -> bool {
    forall|i: int, j: int|
        0 <= i <= j < s.len() ==> (#[trigger] s[i]).started_at.nanos() >= (
        #[trigger] s[j]).started_at.nanos()
}

/// A process-local node + run store.
pub struct InMemoryNodeRepository {
    nodes: DashMap<String, ValidatorNode>,
    runs: Vec<DeploymentRun>,
}

impl InMemoryNodeRepository {
    /// The stored nodes, by id.
    pub closed spec fn spec_nodes(&self) -> Map<Seq<char>, ValidatorNode> {
        node_map_contents(self.nodes)
    }

    /// The stored runs, in the order first saved.
    pub closed spec fn spec_runs(&self) -> Seq<RunView> {
        run_views(self.runs@)
    }

    /// Every node is stored under its own id, and the store is finite.
    pub closed spec fn wf(&self) -> bool {
        &&& node_map_contents(self.nodes).dom().finite()
        &&& forall|k: Seq<char>| #[trigger]
            node_map_contents(self.nodes).contains_key(k) ==> node_map_contents(
                self.nodes,
            )[k]@.id == k
    }

    /// Create an empty repository.
    pub fn new() -> (r: InMemoryNodeRepository)
        ensures
            r.wf(),
            r.spec_nodes().dom().len() == 0,
            r.spec_runs().len() == 0,
    {
        InMemoryNodeRepository { nodes: node_map_new(), runs: Vec::new() }
    }

    /// Number of stored nodes.
    pub fn node_count(&self) -> (n: usize)
        ensures
            n == self.spec_nodes().dom().len(),
    {
        node_map_len(&self.nodes)
    }

    /// Upsert a node under its id.
    pub fn save_node(&mut self, node: &ValidatorNode)
        requires
            old(self).wf(),
        ensures
            final(self).wf(),
            final(self).spec_nodes() == old(self).spec_nodes().insert(node@.id, *node),
            final(self).spec_runs() == old(self).spec_runs(),
    {
        let key = node.id().to_string();
        let value = node.clone();
        node_map_insert(&mut self.nodes, key, value);
        proof {
            assert forall|k: Seq<char>| #[trigger]
                node_map_contents(self.nodes).contains_key(k) implies node_map_contents(
                self.nodes,
            )[k]@.id == k by {
                if k != node@.id {
                    assert(old(self).spec_nodes().contains_key(k));
                }
            }
        }
    }

    /// Fetch a node by id.
    pub fn get_node(&self, id: &NodeId) -> (r: Option<ValidatorNode>)
        ensures
            r == self.spec_nodes().get(id@),
    {
        let key = id.to_string();
        node_map_get(&self.nodes, &key)
    }

    /// List all nodes, each once, in the map's iteration order.
    pub fn list_nodes(&self) -> (r: Vec<ValidatorNode>)
        requires
            self.wf(),
        ensures
            r@.len() == self.spec_nodes().dom().len(),
            forall|i: int|
                0 <= i < r@.len() ==> self.spec_nodes().get((#[trigger] r@[i])@.id) == Some(
                    r@[i],
                ),
            forall|i: int, j: int|
                0 <= i < j < r@.len() ==> (#[trigger] r@[i])@.id != (#[trigger] r@[j])@.id,
    {
        let entries = node_map_entries(&self.nodes);
        let mut out: Vec<ValidatorNode> = Vec::new();
        let mut i: usize = 0;
        while i < entries.len()
            invariant
                self.wf(),
                i <= entries@.len(),
                out@.len() == i,
                entries@.len() == self.spec_nodes().dom().len(),
                forall|t: int|
                    0 <= t < entries@.len() ==> self.spec_nodes().get(#[trigger] entries@[t].0@)
                        == Some(entries@[t].1),
                forall|t: int, u: int|
                    0 <= t < u < entries@.len() ==> (#[trigger] entries@[t]).0@ != (
                    #[trigger] entries@[u]).0@,
                forall|t: int| 0 <= t < i ==> #[trigger] out@[t] == entries@[t].1,
            decreases entries@.len() - i,
        {
            out.push(entries[i].1.clone());
            i = i + 1;
        }
        proof {
            assert forall|t: int| 0 <= t < out@.len() implies self.spec_nodes().get(
                (#[trigger] out@[t])@.id,
            ) == Some(out@[t]) by {
                let k = entries@[t].0@;
                assert(self.spec_nodes().contains_key(k));
                assert(self.spec_nodes()[k]@.id == k);
            }
            assert forall|t: int, u: int| 0 <= t < u < out@.len() implies (#[trigger] out@[t])@.id
                != (#[trigger] out@[u])@.id by {
                let kt = entries@[t].0@;
                let ku = entries@[u].0@;
                assert(self.spec_nodes().contains_key(kt));
                assert(self.spec_nodes().contains_key(ku));
            }
        }
        out
    }

    fn find_run_index(&self, id: RunId) -> (r: Option<usize>)
        ensures
            r matches Some(k) ==> find_run(self.spec_runs(), id) == Some(k as nat),
            r is None ==> find_run(self.spec_runs(), id) is None,
            r matches Some(k) ==> k < self.spec_runs().len() && self.spec_runs()[k as int].id == id,
    {
        proof {
            lemma_find_run_facts(self.spec_runs(), id);
            assert(self.spec_runs().skip(0) =~= self.spec_runs());
        }
        let mut i: usize = 0;
        while i < self.runs.len()
            invariant
                i <= self.runs@.len(),
                find_run(self.spec_runs(), id) matches Some(k) ==> k < self.spec_runs().len()
                    && self.spec_runs()[k as int].id == id,
                find_run(self.spec_runs(), id) == match find_run(self.spec_runs().skip(i as int), id) {
                    Some(k) => Some((k + i) as nat),
                    None => None::<nat>,
                },
            decreases self.runs@.len() - i,
        {
            proof {
                let rest = self.spec_runs().skip(i as int);
                assert(rest[0] == self.runs@[i as int]@);
                assert(rest.drop_first() =~= self.spec_runs().skip(i + 1));
            }
            if self.runs[i].id() == id {
                return Some(i);
            }
            i = i + 1;
        }
        proof {
            assert(self.spec_runs().skip(i as int).len() == 0);
        }
        None
    }

    /// Upsert a run: it replaces the stored run with its id, or is appended.
    pub fn save_run(&mut self, run: &DeploymentRun)
        requires
            old(self).wf(),
        ensures
            final(self).wf(),
            final(self).spec_runs() == runs_after_save(old(self).spec_runs(), run@),
            final(self).spec_nodes() == old(self).spec_nodes(),
    {
        match self.find_run_index(run.id()) {
            Some(k) => {
                let copy = run.clone();
                let ghost copy_view = copy@;
                self.runs.set(k, copy);
                proof {
                    let expected = runs_after_save(old(self).spec_runs(), run@);
                    assert(find_run(old(self).spec_runs(), run@.id) == Some(k as nat));
                    assert(expected == old(self).spec_runs().update(k as int, run@));
                    assert forall|t: int| 0 <= t < self.spec_runs().len() implies self.spec_runs()[t]
                        == expected[t] by {
                        assert(self.spec_runs()[t] == self.runs@[t]@);
                        if t != k {
                            assert(self.runs@[t] == old(self).runs@[t]);
                            assert(old(self).spec_runs()[t] == old(self).runs@[t]@);
                        } else {
                            assert(self.runs@[t] == copy);
                        }
                    }
                    assert(self.spec_runs() =~= expected);
                }
            },
            None => {
                self.runs.push(run.clone());
                proof {
                    assert(self.spec_runs() =~= runs_after_save(old(self).spec_runs(), run@));
                }
            },
        }
    }

    /// Fetch a run by id.
    pub fn get_run(&self, id: RunId) -> (r: Option<DeploymentRun>)
        ensures
            match find_run(self.spec_runs(), id) {
                Some(k) => r matches Some(found) && found@ == self.spec_runs()[k as int],
                None => r is None,
            },
    {
        match self.find_run_index(id) {
            Some(k) => {
                let found = self.runs[k].clone();
                proof {
                    assert(found@ == self.runs@[k as int]@);
                    assert(self.spec_runs()[k as int] == self.runs@[k as int]@);
                    assert(find_run(self.spec_runs(), id) == Some(k as nat));
                }
                Some(found)
            },
            None => None,
        }
    }

    /// List up to `limit` runs, newest first (runs that started together in
    /// the order they were first saved).
    pub fn list_runs(&self, limit: usize) -> (r: Vec<DeploymentRun>)
        ensures
            run_views(r@) == newest_first(self.spec_runs()).take(
                if limit <= self.spec_runs().len() {
                    limit as int
                } else {
                    self.spec_runs().len() as int
                },
            ),
            is_newest_first(run_views(r@)),
    {
        let mut out: Vec<DeploymentRun> = Vec::new();
        let mut i: usize = 0;
        while i < self.runs.len()
            invariant
                i <= self.runs@.len(),
                run_views(out@) == newest_first(self.spec_runs().take(i as int)),
            decreases self.runs@.len() - i,
        {
            let x = self.runs[i].clone();
            let mut pos: usize = 0;
            proof {
                assert(self.spec_runs().take(i + 1).drop_last() =~= self.spec_runs().take(i as int));
                assert(self.spec_runs().take(i + 1).last() == x@);
                assert(run_views(out@).skip(0) =~= run_views(out@));
            }
            while pos < out.len() && out[pos].started_at().unix_nanos() >= x.started_at().unix_nanos()
                invariant
                    pos <= out@.len(),
                    insert_pos(run_views(out@), x@) == pos + insert_pos(run_views(out@).skip(pos as int), x@),
                decreases out@.len() - pos,
            {
                proof {
                    let rest = run_views(out@).skip(pos as int);
                    assert(rest[0] == out@[pos as int]@);
                    assert(rest.drop_first() =~= run_views(out@).skip(pos + 1));
                }
                pos = pos + 1;
            }
            proof {
                if pos < out@.len() {
                    let rest = run_views(out@).skip(pos as int);
                    assert(rest[0] == out@[pos as int]@);
                }
            }
            let ghost before = out@;
            out.insert(pos, x);
            proof {
                assert(run_views(out@) =~= run_views(before).insert(pos as int, x@));
            }
            i = i + 1;
        }
        proof {
            assert(self.spec_runs().take(self.runs@.len() as int) =~= self.spec_runs());
            lemma_newest_first_sorted(self.spec_runs());
        }
        let keep: usize = if limit <= out.len() {
            limit
        } else {
            out.len()
        };
        out.truncate(keep);
        proof {
            assert(run_views(out@) =~= newest_first(self.spec_runs()).take(keep as int));
        }
        out
    }
}

/// Inserting at [`insert_pos`] keeps a newest-first sequence newest first.
proof fn lemma_insert_keeps_order(t: Seq<RunView>, x: RunView)
    requires
        is_newest_first(t),
    ensures
        insert_pos(t, x) <= t.len(),
        is_newest_first(t.insert(insert_pos(t, x) as int, x)),
        forall|k: int| 0 <= k < insert_pos(t, x) ==> t[k].started_at.nanos() >= x.started_at.nanos(),
        insert_pos(t, x) < t.len() ==> t[insert_pos(t, x) as int].started_at.nanos()
            < x.started_at.nanos(),
    decreases t.len(),
{
    if t.len() > 0 && t[0].started_at.nanos() >= x.started_at.nanos() {
        let rest = t.drop_first();
        assert(is_newest_first(rest)) by {
            assert forall|i: int, j: int| 0 <= i <= j < rest.len() implies (#[trigger] rest[i]).started_at.nanos()
                >= (#[trigger] rest[j]).started_at.nanos() by {
                assert(rest[i] == t[i + 1] && rest[j] == t[j + 1]);
            }
        }
        lemma_insert_keeps_order(rest, x);
        assert forall|k: int| 0 <= k < insert_pos(t, x) implies t[k].started_at.nanos()
            >= x.started_at.nanos() by {
            if k > 0 {
                assert(t[k] == rest[k - 1]);
            }
        }
        if insert_pos(t, x) < t.len() {
            assert(t[insert_pos(t, x) as int] == rest[insert_pos(rest, x) as int]);
        }
    }
    let p = insert_pos(t, x) as int;
    let u = t.insert(p, x);
    assert forall|i: int, j: int| 0 <= i <= j < u.len() implies (#[trigger] u[i]).started_at.nanos()
        >= (#[trigger] u[j]).started_at.nanos() by {
        if i < p && j < p {
            assert(u[i] == t[i] && u[j] == t[j]);
        } else if i < p && j == p {
            assert(u[i] == t[i]);
        } else if i < p && j > p {
            assert(u[i] == t[i] && u[j] == t[j - 1]);
        } else if i == p && j > p {
            assert(u[j] == t[j - 1]);
            assert(t[p].started_at.nanos() < x.started_at.nanos());
            assert(t[p].started_at.nanos() >= t[j - 1].started_at.nanos());
        } else if i > p {
            assert(u[i] == t[i - 1] && u[j] == t[j - 1]);
        }
    }
}

/// Runs listed by [`newest_first`] are ordered by non-increasing start time.
pub proof fn lemma_newest_first_sorted(s: Seq<RunView>)
    ensures
        is_newest_first(newest_first(s)),
        newest_first(s).len() == s.len(),
    decreases s.len(),
{
    if s.len() > 0 {
        lemma_newest_first_sorted(s.drop_last());
        lemma_insert_keeps_order(newest_first(s.drop_last()), s.last());
    }
}

/// [`newest_first`] only reorders: it holds every run exactly as often as
/// the input does.
pub proof fn lemma_newest_first_permutes(s: Seq<RunView>)
    ensures
        newest_first(s).to_multiset() == s.to_multiset(),
    decreases s.len(),
{
    if s.len() > 0 {
        let t = newest_first(s.drop_last());
        lemma_newest_first_permutes(s.drop_last());
        lemma_newest_first_sorted(s.drop_last());
        lemma_insert_keeps_order(t, s.last());
        vstd::seq_lib::to_multiset_insert(t, insert_pos(t, s.last()) as int, s.last());
        vstd::seq_lib::to_multiset_build(s.drop_last(), s.last());
        assert(s.drop_last().push(s.last()) =~= s);
    }
}

/// What [`InMemoryNodeRepository::list_runs`] returns when it keeps `keep`
/// runs is taken from the stored runs: each listed run is a stored one, the
/// listed and the omitted runs together are exactly the stored runs, and no
/// omitted run started later than any listed run.
pub proof fn lemma_listed_runs(runs: Seq<RunView>, keep: int)
    requires
        0 <= keep <= runs.len(),
    ensures
        newest_first(runs).take(keep).len() == keep,
        forall|i: int| 0 <= i < keep ==> runs.contains(#[trigger] newest_first(runs).take(keep)[i]),
        newest_first(runs).take(keep).to_multiset().add(newest_first(runs).skip(keep).to_multiset())
            == runs.to_multiset(),
        forall|i: int, j: int|
            0 <= i < keep && 0 <= j < runs.len() - keep ==> (#[trigger] newest_first(runs).skip(
                keep,
            )[j]).started_at.nanos() <= (#[trigger] newest_first(runs).take(keep)[i]).started_at.nanos(),
{
    let sorted = newest_first(runs);
    lemma_newest_first_sorted(runs);
    lemma_newest_first_permutes(runs);
    let listed = sorted.take(keep);
    let omitted = sorted.skip(keep);
    assert(listed + omitted =~= sorted);
    vstd::seq_lib::lemma_multiset_commutative(listed, omitted);
    assert forall|i: int| 0 <= i < keep implies runs.contains(#[trigger] listed[i]) by {
        assert(sorted[i] == listed[i]);
        vstd::seq_lib::to_multiset_contains(sorted, listed[i]);
        vstd::seq_lib::to_multiset_contains(runs, listed[i]);
    }
    assert forall|i: int, j: int| 0 <= i < keep && 0 <= j < runs.len() - keep implies (
    #[trigger] omitted[j]).started_at.nanos() <= (#[trigger] listed[i]).started_at.nanos() by {
        assert(listed[i] == sorted[i]);
        assert(omitted[j] == sorted[keep + j]);
    }
}

/// A saved node is what a later lookup of its id returns, and every other
/// stored node is left as it was.
pub proof fn lemma_save_node_then_get(
    nodes: Map<Seq<char>, ValidatorNode>,
    node: ValidatorNode,
    other: Seq<char>,
)
    requires
        other != node@.id,
    ensures
        nodes.insert(node@.id, node).get(node@.id) == Some(node),
        nodes.insert(node@.id, node).get(other) == nodes.get(other),
{
}

/// Saving a run never loses another: the stored runs keep their ids in
/// order, and the saved run is what a lookup of its id then finds.
pub proof fn lemma_save_run_then_find(runs: Seq<RunView>, run: RunView)
    ensures
        find_run(runs_after_save(runs, run), run.id) matches Some(k) && runs_after_save(
            runs,
            run,
        )[k as int] == run,
        runs_after_save(runs, run).len() == runs.len() + if find_run(runs, run.id) is Some {
            0int
        } else {
            1int
        },
{
    lemma_find_run_facts(runs, run.id);
    match find_run(runs, run.id) {
        Some(k) => {
            lemma_find_run_update(runs, run.id, k, run);
        },
        None => {
            lemma_find_run_push(runs, run);
        },
    }
}

proof fn lemma_find_run_facts(runs: Seq<RunView>, id: RunId)
    ensures
        find_run(runs, id) matches Some(k) ==> k < runs.len() && runs[k as int].id == id && forall|
            t: int,
        | 0 <= t < k ==> #[trigger] runs[t].id != id,
        find_run(runs, id) is None ==> forall|t: int| 0 <= t < runs.len() ==> #[trigger] runs[t].id
            != id,
    decreases runs.len(),
{
    if runs.len() > 0 {
        lemma_find_run_facts(runs.drop_first(), id);
        assert forall|t: int| 1 <= t < runs.len() implies #[trigger] runs[t] == runs.drop_first()[t
            - 1] by {}
    }
}

proof fn lemma_find_run_update(runs: Seq<RunView>, id: RunId, k: nat, run: RunView)
    requires
        find_run(runs, id) == Some(k),
        run.id == id,
    ensures
        find_run(runs.update(k as int, run), id) == Some(k),
    decreases runs.len(),
{
    lemma_find_run_facts(runs, id);
    if k > 0 {
        let u = runs.update(k as int, run);
        assert(u.drop_first() =~= runs.drop_first().update(k - 1, run));
        lemma_find_run_update(runs.drop_first(), id, (k - 1) as nat, run);
    }
}

proof fn lemma_find_run_push(runs: Seq<RunView>, run: RunView)
    requires
        find_run(runs, run.id) is None,
    ensures
        find_run(runs.push(run), run.id) == Some(runs.len()),
    decreases runs.len(),
{
    if runs.len() > 0 {
        assert(runs.push(run).drop_first() =~= runs.drop_first().push(run));
        lemma_find_run_push(runs.drop_first(), run);
    }
}

} // verus!

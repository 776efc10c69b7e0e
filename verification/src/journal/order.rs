use vstd::prelude::*;

use crate::contracts::events::{AggregateKind, EventError, EventType};
use crate::journal::replay::{source_types_valid, sources_ok};
use crate::journal::streams::{cover_by_count, streams_ok, validate_streams};
use crate::contracts::envelope::{header_error, validate_event_header, EventHeader};
use crate::text::{concat2, lex_lt, lex_lt_irreflexive, lex_lt_transitive, str_eq, str_lt};

verus! {

/// What replay reads of one journal event: its identity, its kind, its stream,
/// its time and the events it depends on.
pub struct ReplayNode {
    pub event_id: String,
    pub event_type: EventType,
    pub aggregate_kind: AggregateKind,
    pub aggregate_id: String,
    pub created_at_ms: u64,
    pub predecessor_event_id: Option<String>,
    pub source_event_ids: Vec<String>,
}

/// Why a set of journal events cannot be replayed.
#[derive(Clone, Debug, PartialEq, Eq)]
pub enum ReplayError {
    Invalid(String),
    Duplicate(String),
    Missing(String),
    Cycle,
    Predecessor(String),
    Source(String),
    Transition(String),
}

// ---------------------------------------------------------------- the model

pub open spec fn source_ids(n: ReplayNode) -> Seq<Seq<char>> {
    n.source_event_ids@.map_values(|s: String| s@)
}

/// No two events share an id.
pub open spec fn ids_distinct(nodes: Seq<ReplayNode>) -> bool {
    forall|i: int, j: int|
        0 <= i < nodes.len() && 0 <= j < nodes.len() && i != j ==> nodes[i].event_id@
            != nodes[j].event_id@
}

/// Some event carries the id `d`.
pub open spec fn present(nodes: Seq<ReplayNode>, d: Seq<char>) -> bool {
    exists|j: int| 0 <= j < nodes.len() && #[trigger] nodes[j].event_id@ == d
}

/// `d` is a dependency of event `i` (its predecessor or one of its sources).
pub open spec fn depends_on(nodes: Seq<ReplayNode>, i: int, d: Seq<char>) -> bool {
    ||| (nodes[i].predecessor_event_id matches Some(p) && p@ == d)
    ||| source_ids(nodes[i]).contains(d)
}

/// Every dependency of event `i` names an event of the set.
pub open spec fn deps_present(nodes: Seq<ReplayNode>, i: int) -> bool {
    &&& (nodes[i].predecessor_event_id matches Some(p) ==> present(nodes, p@))
    &&& forall|k: int|
        0 <= k < source_ids(nodes[i]).len() ==> present(nodes, #[trigger] source_ids(nodes[i])[k])
}

pub open spec fn all_deps_present(nodes: Seq<ReplayNode>) -> bool {
    forall|i: int| 0 <= i < nodes.len() ==> #[trigger] deps_present(nodes, i)
}

/// `d` is the dependency reported missing: the lexicographically least missing
/// dependency of the first event that has one.
pub open spec fn first_missing(nodes: Seq<ReplayNode>, d: Seq<char>) -> bool {
    exists|i: int|
        #![trigger deps_present(nodes, i)]
        0 <= i < nodes.len() && !deps_present(nodes, i) && depends_on(nodes, i, d) && !present(
            nodes,
            d,
        ) && (forall|i2: int| 0 <= i2 < i ==> #[trigger] deps_present(nodes, i2)) && (forall|
            e: Seq<char>,
        | depends_on(nodes, i, e) && !present(nodes, e) ==> !lex_lt(e, d))
}

/// The event that carries id `d` (meaningful where exactly one does).
pub open spec fn index_of(nodes: Seq<ReplayNode>, d: Seq<char>) -> int {
    choose|j: int| 0 <= j < nodes.len() && #[trigger] nodes[j].event_id@ == d
}

/// The kinds of the sources of event `i`, in the order the event lists them.
pub open spec fn source_kinds(nodes: Seq<ReplayNode>, i: int) -> Seq<EventType> {
    Seq::new(
        source_ids(nodes[i]).len(),
        |k: int| nodes[index_of(nodes, source_ids(nodes[i])[k])].event_type,
    )
}

/// Event `i` cites sources of the kinds its own kind calls for.
pub open spec fn sources_pass(nodes: Seq<ReplayNode>, i: int) -> bool {
    sources_ok(nodes[i].event_type, source_kinds(nodes, i))
}

/// Replay order between ready events: earlier creation time first, then the
/// lexicographically smaller id.
pub open spec fn key_lt(a: ReplayNode, b: ReplayNode) -> bool {
    ||| a.created_at_ms < b.created_at_ms
    ||| (a.created_at_ms == b.created_at_ms && lex_lt(a.event_id@, b.event_id@))
}

/// Some event already placed in `p` carries id `d`.
pub open spec fn in_prefix(nodes: Seq<ReplayNode>, p: Seq<usize>, d: Seq<char>) -> bool {
    exists|m: int| 0 <= m < p.len() && #[trigger] nodes[p[m] as int].event_id@ == d
}

/// Event `i` is not yet placed and everything it depends on is.
pub open spec fn ready(nodes: Seq<ReplayNode>, p: Seq<usize>, i: int) -> bool {
    &&& !p.contains(i as usize)
    &&& (nodes[i].predecessor_event_id matches Some(d) ==> in_prefix(nodes, p, d@))
    &&& forall|k: int|
        0 <= k < source_ids(nodes[i]).len() ==> in_prefix(
            nodes,
            p,
            #[trigger] source_ids(nodes[i])[k],
        )
}

/// Event `i` is the one replay takes after the prefix `p`: ready, and no ready
/// event comes before it.
pub open spec fn next_choice(nodes: Seq<ReplayNode>, p: Seq<usize>, i: int) -> bool {
    &&& 0 <= i < nodes.len()
    &&& ready(nodes, p, i)
    &&& forall|j: int|
        0 <= j < nodes.len() && #[trigger] ready(nodes, p, j) ==> !key_lt(nodes[j], nodes[i])
}

/// `p` is the order replay follows, step by step, as far as it goes.
pub open spec fn greedy(nodes: Seq<ReplayNode>, p: Seq<usize>) -> bool {
    forall|k: int| 0 <= k < p.len() ==> #[trigger] next_choice(nodes, p.take(k), p[k] as int)
}

/// Every event placed in `p` cites sources of the right kinds.
pub open spec fn prefix_passes(nodes: Seq<ReplayNode>, p: Seq<usize>) -> bool {
    forall|k: int| 0 <= k < p.len() ==> #[trigger] sources_pass(nodes, p[k] as int)
}

// ---------------------------------------------------------------- lookups

/// The position of the event with id `d`, if any.
pub(crate) fn find_id(nodes: &Vec<ReplayNode>, d: &str) -> (r: Option<usize>)
    ensures
        r matches Some(j) ==> j < nodes@.len() && nodes@[j as int].event_id@ == d@,
        r is None ==> !present(nodes@, d@),
{
    let mut j: usize = 0;
    while j < nodes.len()
        invariant
            j <= nodes@.len(),
            forall|m: int| 0 <= m < j ==> nodes@[m].event_id@ != d@,
        decreases nodes.len() - j,
    {
        if str_eq(nodes[j].event_id.as_str(), d) {
            return Some(j);
        }
        j += 1;
    }
    None
}

/// Where each event's dependencies sit in the set.
struct DepIndex {
    pred: Vec<Option<usize>>,
    sources: Vec<Vec<usize>>,
}

spec fn pred_resolved(nodes: Seq<ReplayNode>, i: int, r: Option<usize>) -> bool {
    match (nodes[i].predecessor_event_id, r) {
        (Some(d), Some(j)) => j < nodes.len() && nodes[j as int].event_id@ == d@,
        (None, None) => true,
        _ => false,
    }
}

spec fn sources_resolved(nodes: Seq<ReplayNode>, i: int, r: Seq<usize>) -> bool {
    &&& r.len() == source_ids(nodes[i]).len()
    &&& forall|k: int|
        0 <= k < r.len() ==> (#[trigger] r[k]) < nodes.len() && nodes[r[k] as int].event_id@
            == source_ids(nodes[i])[k]
}

spec fn resolved(nodes: Seq<ReplayNode>, x: DepIndex) -> bool {
    &&& x.pred@.len() == nodes.len()
    &&& x.sources@.len() == nodes.len()
    &&& forall|i: int| 0 <= i < nodes.len() ==> #[trigger] pred_resolved(nodes, i, x.pred@[i])
    &&& forall|i: int|
        0 <= i < nodes.len() ==> #[trigger] sources_resolved(nodes, i, x.sources@[i]@)
}

/// Keeps the least of the missing dependencies seen so far.
fn keep_least(least: Option<String>, d: &String) -> (r: Option<String>)
    ensures
        r matches Some(m) && (m@ == d@ || (least matches Some(l) && m@ == l@)),
        !lex_lt(d@, r->0@),
        least matches Some(l) ==> !lex_lt(l@, r->0@),
        forall|e: Seq<char>|
            (least matches Some(l) && !lex_lt(e, l@)) ==> !lex_lt(e, r->0@),
{
    proof {
        lex_lt_irreflexive(d@);
    }
    match least {
        None => Some(d.clone()),
        Some(l) => {
            proof {
                lex_lt_irreflexive(l@);
            }
            if str_lt(d.as_str(), l.as_str()) {
                proof {
                    assert forall|e: Seq<char>| !lex_lt(e, l@) implies !lex_lt(e, d@) by {
                        if lex_lt(e, d@) {
                            lex_lt_transitive(e, d@, l@);
                        }
                    }
                    assert(!lex_lt(l@, d@)) by {
                        if lex_lt(l@, d@) {
                            lex_lt_transitive(l@, d@, l@);
                        }
                    }
                }
                Some(d.clone())
            } else {
                Some(l)
            }
        },
    }
}

/// `e` is among the dependencies of event `i` looked at so far: its
/// predecessor and its first `k` sources.
spec fn dep_scanned(nodes: Seq<ReplayNode>, i: int, k: int, e: Seq<char>) -> bool {
    ||| (nodes[i].predecessor_event_id matches Some(p) && p@ == e)
    ||| source_ids(nodes[i]).take(k).contains(e)
}

/// Finds each event's dependencies, or reports the first missing one.
fn resolve_deps(nodes: &Vec<ReplayNode>) -> (r: Result<DepIndex, ReplayError>)
    ensures
        match r {
            Ok(x) => resolved(nodes@, x) && all_deps_present(nodes@),
            Err(ReplayError::Missing(d)) => first_missing(nodes@, d@),
            Err(_) => false,
        },
{
    let mut pred: Vec<Option<usize>> = Vec::new();
    let mut sources: Vec<Vec<usize>> = Vec::new();
    let mut i: usize = 0;
    while i < nodes.len()
        invariant
            i <= nodes@.len(),
            pred@.len() == i,
            sources@.len() == i,
            forall|a: int| 0 <= a < i ==> #[trigger] pred_resolved(nodes@, a, pred@[a]),
            forall|a: int| 0 <= a < i ==> #[trigger] sources_resolved(nodes@, a, sources@[a]@),
            forall|a: int| 0 <= a < i ==> #[trigger] deps_present(nodes@, a),
        decreases nodes.len() - i,
    {
        let node = &nodes[i];
        let ghost ii = i as int;
        let mut least: Option<String> = None;
        let mut p: Option<usize> = None;
        match &node.predecessor_event_id {
            Some(d) => match find_id(nodes, d.as_str()) {
                Some(j) => {
                    p = Some(j);
                },
                None => {
                    least = Some(d.clone());
                    proof {
                        lex_lt_irreflexive(d@);
                    }
                },
            },
            None => {},
        }
        let ghost srcs_all = source_ids(nodes@[ii]);
        assert(srcs_all.take(0) =~= Seq::<Seq<char>>::empty());
        let mut srcs: Vec<usize> = Vec::new();
        let n_src = node.source_event_ids.len();
        let mut k: usize = 0;
        while k < n_src
            invariant
                i < nodes@.len(),
                ii == i as int,
                *node == nodes@[ii],
                srcs_all == source_ids(nodes@[ii]),
                n_src == srcs_all.len(),
                k <= n_src,
                least is None ==> pred_resolved(nodes@, ii, p),
                least is None ==> srcs@.len() == k,
                least is None ==> forall|a: int|
                    0 <= a < k ==> (#[trigger] srcs@[a]) < nodes@.len() && nodes@[srcs@[a] as int].event_id@
                        == srcs_all[a],
                least matches Some(m) ==> !present(nodes@, m@) && depends_on(nodes@, ii, m@),
                forall|e: Seq<char>|
                    #[trigger] dep_scanned(nodes@, ii, k as int, e) && !present(nodes@, e) ==> (
                    least matches Some(m) && !lex_lt(e, m@)),
            decreases n_src - k,
        {
            let d = &node.source_event_ids[k];
            let ghost old_least = least;
            assert(d@ == srcs_all[k as int]);
            assert(srcs_all.take(k as int + 1) =~= srcs_all.take(k as int).push(d@));
            match find_id(nodes, d.as_str()) {
                Some(j) => {
                    if least.is_none() {
                        srcs.push(j);
                    }
                },
                None => {
                    proof {
                        assert(srcs_all.contains(d@)) by {
                            assert(srcs_all[k as int] == d@);
                        }
                    }
                    least = keep_least(least, d);
                },
            }
            proof {
                assert forall|e: Seq<char>|
                    #[trigger] dep_scanned(nodes@, ii, k as int + 1, e) && !present(
                        nodes@,
                        e,
                    ) implies (least matches Some(m) && !lex_lt(e, m@)) by {
                    if e != d@ {
                        if srcs_all.take(k as int + 1).contains(e) {
                            let t = srcs_all.take(k as int + 1);
                            let x = choose|x: int| 0 <= x < t.len() && #[trigger] t[x] == e;
                            assert(srcs_all.take(k as int)[x] == e);
                        }
                        assert(dep_scanned(nodes@, ii, k as int, e));
                    }
                }
            }
            k += 1;
        }
        assert(srcs_all.take(n_src as int) =~= srcs_all);
        match least {
            Some(m) => {
                proof {
                    assert(!deps_present(nodes@, ii)) by {
                        if nodes@[ii].predecessor_event_id matches Some(pp) && pp@ == m@ {
                        } else {
                            let k0 = choose|k0: int| 0 <= k0 < srcs_all.len() && srcs_all[k0] == m@;
                            assert(srcs_all[k0] == m@);
                        }
                    }
                    assert forall|e: Seq<char>|
                        depends_on(nodes@, ii, e) && !present(nodes@, e) implies !lex_lt(e, m@) by {
                        assert(dep_scanned(nodes@, ii, n_src as int, e));
                    }
                }
                return Err(ReplayError::Missing(m));
            },
            None => {
                proof {
                    if let Some(pp) = nodes@[ii].predecessor_event_id {
                        let j = p->0;
                        assert(nodes@[j as int].event_id@ == pp@);
                    }
                    assert forall|a: int| 0 <= a < srcs_all.len() implies present(
                        nodes@,
                        #[trigger] srcs_all[a],
                    ) by {
                        assert(nodes@[srcs@[a] as int].event_id@ == srcs_all[a]);
                    }
                    assert(deps_present(nodes@, ii));
                }
                pred.push(p);
                sources.push(srcs);
            },
        }
        i += 1;
    }
    Ok(DepIndex { pred, sources })
}

// ---------------------------------------------------------------- ordering

proof fn key_lt_irreflexive(a: ReplayNode)
    ensures
        !key_lt(a, a),
{
    lex_lt_irreflexive(a.event_id@);
}

proof fn key_lt_transitive(a: ReplayNode, b: ReplayNode, c: ReplayNode)
    requires
        key_lt(a, b),
        key_lt(b, c),
    ensures
        key_lt(a, c),
{
    if a.created_at_ms == b.created_at_ms && b.created_at_ms == c.created_at_ms {
        lex_lt_transitive(a.event_id@, b.event_id@, c.event_id@);
    }
}

/// Whether event `a` is replayed before event `b` when both are ready.
fn key_before(a: &ReplayNode, b: &ReplayNode) -> (r: bool)
    ensures
        r == key_lt(*a, *b),
{
    a.created_at_ms < b.created_at_ms || (a.created_at_ms == b.created_at_ms && str_lt(
        a.event_id.as_str(),
        b.event_id.as_str(),
    ))
}

/// With distinct ids, the event with id `d` is placed exactly when event `j`,
/// which carries that id, is.
proof fn in_prefix_at(nodes: Seq<ReplayNode>, p: Seq<usize>, j: int, d: Seq<char>)
    requires
        ids_distinct(nodes),
        0 <= j < nodes.len(),
        nodes.len() <= usize::MAX,
        nodes[j].event_id@ == d,
        forall|m: int| 0 <= m < p.len() ==> (#[trigger] p[m]) < nodes.len(),
    ensures
        in_prefix(nodes, p, d) <==> p.contains(j as usize),
{
    if in_prefix(nodes, p, d) {
        let m = choose|m: int| 0 <= m < p.len() && #[trigger] nodes[p[m] as int].event_id@ == d;
        assert(p[m] as int == j);
    }
    if p.contains(j as usize) {
        let m = choose|m: int| 0 <= m < p.len() && p[m] == j as usize;
        assert(p[m] < nodes.len());
        assert(p[m] as int == j);
        assert(nodes[p[m] as int].event_id@ == d);
    }
}

spec fn placed_matches(nodes: Seq<ReplayNode>, placed: Seq<bool>, p: Seq<usize>) -> bool {
    &&& placed.len() == nodes.len()
    &&& forall|j: int| 0 <= j < nodes.len() ==> #[trigger] placed[j] == p.contains(j as usize)
    &&& forall|m: int| 0 <= m < p.len() ==> (#[trigger] p[m]) < nodes.len()
}

/// Whether event `i` is ready after the events marked in `placed`.
fn is_ready(
    nodes: &Vec<ReplayNode>,
    deps: &DepIndex,
    placed: &Vec<bool>,
    Ghost(p): Ghost<Seq<usize>>,
    i: usize,
) -> (r: bool)
    requires
        ids_distinct(nodes@),
        resolved(nodes@, *deps),
        placed_matches(nodes@, placed@, p),
        i < nodes@.len(),
    ensures
        r == ready(nodes@, p, i as int),
{
    if placed[i] {
        return false;
    }
    assert(nodes@.len() == nodes.len());
    proof {
        assert(pred_resolved(nodes@, i as int, deps.pred@[i as int]));
        assert(sources_resolved(nodes@, i as int, deps.sources@[i as int]@));
    }
    let pred_ok = match deps.pred[i] {
        Some(j) => {
            proof {
                let d = nodes@[i as int].predecessor_event_id->0@;
                in_prefix_at(nodes@, p, j as int, d);
            }
            placed[j]
        },
        None => true,
    };
    if !pred_ok {
        return false;
    }
    let srcs = &deps.sources[i];
    let ghost ids = source_ids(nodes@[i as int]);
    let mut k: usize = 0;
    while k < srcs.len()
        invariant
            ids_distinct(nodes@),
            placed_matches(nodes@, placed@, p),
            sources_resolved(nodes@, i as int, srcs@),
            i < nodes@.len(),
            nodes@.len() <= usize::MAX,
            ids == source_ids(nodes@[i as int]),
            k <= srcs@.len(),
            forall|a: int| 0 <= a < k ==> in_prefix(nodes@, p, #[trigger] ids[a]),
        decreases srcs.len() - k,
    {
        let j = srcs[k];
        proof {
            assert(srcs@[k as int] == j);
            in_prefix_at(nodes@, p, j as int, ids[k as int]);
        }
        if !placed[j] {
            return false;
        }
        k += 1;
    }
    true
}

/// The event replay takes next after the prefix `p`, if any is ready.
fn pick_next(
    nodes: &Vec<ReplayNode>,
    deps: &DepIndex,
    placed: &Vec<bool>,
    Ghost(p): Ghost<Seq<usize>>,
) -> (r: Option<usize>)
    requires
        ids_distinct(nodes@),
        resolved(nodes@, *deps),
        placed_matches(nodes@, placed@, p),
    ensures
        r matches Some(b) ==> next_choice(nodes@, p, b as int),
        r is None ==> forall|j: int| 0 <= j < nodes@.len() ==> !#[trigger] ready(nodes@, p, j),
{
    let mut best: Option<usize> = None;
    let mut i: usize = 0;
    while i < nodes.len()
        invariant
            ids_distinct(nodes@),
            resolved(nodes@, *deps),
            placed_matches(nodes@, placed@, p),
            i <= nodes@.len(),
            best matches Some(b) ==> b < nodes@.len() && ready(nodes@, p, b as int) && forall|j: int|
                0 <= j < i && #[trigger] ready(nodes@, p, j) ==> !key_lt(nodes@[j], nodes@[b as int]),
            best is None ==> forall|j: int| 0 <= j < i ==> !#[trigger] ready(nodes@, p, j),
        decreases nodes.len() - i,
    {
        if is_ready(nodes, deps, placed, Ghost(p), i) {
            match best {
                None => {
                    proof {
                        key_lt_irreflexive(nodes@[i as int]);
                    }
                    best = Some(i);
                },
                Some(b) => {
                    if key_before(&nodes[i], &nodes[b]) {
                        proof {
                            key_lt_irreflexive(nodes@[i as int]);
                            assert forall|j: int|
                                0 <= j < i && #[trigger] ready(nodes@, p, j) implies !key_lt(
                                nodes@[j],
                                nodes@[i as int],
                            ) by {
                                if key_lt(nodes@[j], nodes@[i as int]) {
                                    key_lt_transitive(nodes@[j], nodes@[i as int], nodes@[b as int]);
                                }
                            }
                        }
                        best = Some(i);
                    }
                },
            }
        }
        i += 1;
    }
    best
}

/// The kinds of the sources of event `b`, looked up through `deps`.
fn kinds_of_sources(nodes: &Vec<ReplayNode>, deps: &DepIndex, b: usize) -> (v: Vec<EventType>)
    requires
        ids_distinct(nodes@),
        resolved(nodes@, *deps),
        b < nodes@.len(),
    ensures
        v@ == source_kinds(nodes@, b as int),
{
    proof {
        assert(sources_resolved(nodes@, b as int, deps.sources@[b as int]@));
    }
    let srcs = &deps.sources[b];
    let ghost ids = source_ids(nodes@[b as int]);
    let mut v: Vec<EventType> = Vec::new();
    let mut k: usize = 0;
    while k < srcs.len()
        invariant
            ids_distinct(nodes@),
            sources_resolved(nodes@, b as int, srcs@),
            ids == source_ids(nodes@[b as int]),
            b < nodes@.len(),
            k <= srcs@.len(),
            v@.len() == k,
            forall|a: int| 0 <= a < k ==> #[trigger] v@[a] == source_kinds(nodes@, b as int)[a],
        decreases srcs.len() - k,
    {
        let j = srcs[k];
        proof {
            assert(srcs@[k as int] == j);
            let d = ids[k as int];
            assert(nodes@[j as int].event_id@ == d);
            let c = index_of(nodes@, d);
            assert(0 <= c < nodes@.len() && nodes@[c].event_id@ == d);
            assert(c == j as int);
        }
        v.push(nodes[j].event_type);
        k += 1;
    }
    assert(v@ =~= source_kinds(nodes@, b as int));
    v
}

/// What ordering a set of events with distinct ids gives: the replay order,
/// or the first missing dependency, or the first event whose source kinds are
/// wrong, or a cycle among what is left.
pub open spec fn order_result(nodes: Seq<ReplayNode>, r: Result<Vec<usize>, ReplayError>) -> bool {
    match r {
        Ok(order) => {
            &&& all_deps_present(nodes)
            &&& order@.len() == nodes.len()
            &&& greedy(nodes, order@)
            &&& prefix_passes(nodes, order@)
        },
        Err(ReplayError::Missing(d)) => first_missing(nodes, d@),
        Err(ReplayError::Source(id)) => {
            &&& all_deps_present(nodes)
            &&& exists|p: Seq<usize>, q: int|
                #![trigger greedy(nodes, p), next_choice(nodes, p, q)]
                greedy(nodes, p) && prefix_passes(nodes, p) && next_choice(nodes, p, q)
                    && !sources_pass(nodes, q) && nodes[q].event_id@ == id@
        },
        Err(ReplayError::Cycle) => {
            &&& all_deps_present(nodes)
            &&& exists|p: Seq<usize>|
                #[trigger] greedy(nodes, p) && prefix_passes(nodes, p) && p.len()
                    < nodes.len() && forall|j: int|
                    0 <= j < nodes.len() ==> !#[trigger] ready(nodes, p, j)
        },
        Err(_) => false,
    }
}

/// Orders events so that each comes after everything it depends on, taking at
/// each step the ready event created first (the smaller id on a tie), and
/// checks each event's source kinds as it is placed. The result lists
/// positions in `nodes`.
pub fn dependency_order(nodes: &Vec<ReplayNode>) -> (r: Result<Vec<usize>, ReplayError>)
    requires
        ids_distinct(nodes@),
    ensures
        order_result(nodes@, r),
{
    let deps = match resolve_deps(nodes) {
        Ok(x) => x,
        Err(e) => return Err(e),
    };
    let n = nodes.len();
    let mut placed: Vec<bool> = Vec::new();
    let mut j: usize = 0;
    while j < n
        invariant
            n == nodes@.len(),
            j <= n,
            placed@.len() == j,
            forall|a: int| 0 <= a < j ==> !#[trigger] placed@[a],
        decreases n - j,
    {
        placed.push(false);
        j += 1;
    }
    let mut order: Vec<usize> = Vec::new();
    assert(placed_matches(nodes@, placed@, order@));
    while order.len() < n
        invariant
            n == nodes@.len(),
            ids_distinct(nodes@),
            resolved(nodes@, deps),
            all_deps_present(nodes@),
            placed_matches(nodes@, placed@, order@),
            order@.len() <= n,
            greedy(nodes@, order@),
            prefix_passes(nodes@, order@),
        decreases n - order@.len(),
    {
        let next = pick_next(nodes, &deps, &placed, Ghost(order@));
        let b = match next {
            None => {
                assert(greedy(nodes@, order@));
                return Err(ReplayError::Cycle);
            },
            Some(b) => b,
        };
        let kinds = kinds_of_sources(nodes, &deps, b);
        if !source_types_valid(nodes[b].event_type, kinds.as_slice()) {
            proof {
                assert(greedy(nodes@, order@) && next_choice(nodes@, order@, b as int));
            }
            return Err(ReplayError::Source(nodes[b].event_id.clone()));
        }
        let ghost old_order = order@;
        placed.set(b, true);
        order.push(b);
        proof {
            assert forall|k: int| 0 <= k < order@.len() implies #[trigger] next_choice(
                nodes@,
                order@.take(k),
                order@[k] as int,
            ) by {
                if k < old_order.len() {
                    assert(order@.take(k) =~= old_order.take(k));
                    assert(next_choice(nodes@, old_order.take(k), old_order[k] as int));
                } else {
                    assert(order@.take(k) =~= old_order);
                }
            }
            assert forall|k: int| 0 <= k < order@.len() implies #[trigger] sources_pass(
                nodes@,
                order@[k] as int,
            ) by {
                if k < old_order.len() {
                    assert(sources_pass(nodes@, old_order[k] as int));
                }
            }
            assert forall|a: int| 0 <= a < n implies #[trigger] placed@[a] == order@.contains(
                a as usize,
            ) by {
                if order@.contains(a as usize) && a != b as int {
                    let m = choose|m: int| 0 <= m < order@.len() && order@[m] == a as usize;
                    assert(old_order[m] == a as usize);
                }
                if old_order.contains(a as usize) {
                    let m = choose|m: int| 0 <= m < old_order.len() && old_order[m] == a as usize;
                    assert(order@[m] == a as usize);
                }
                if a == b as int {
                    assert(order@[old_order.len() as int] == b);
                }
            }
        }
    }
    Ok(order)
}

/// Whether two events of the set share an id.
fn has_duplicate_id(nodes: &Vec<ReplayNode>) -> (r: bool)
    ensures
        r == !ids_distinct(nodes@),
{
    let mut i: usize = 0;
    while i < nodes.len()
        invariant
            i <= nodes@.len(),
            forall|a: int, b: int|
                0 <= a < i && 0 <= b < nodes@.len() && a != b ==> nodes@[a].event_id@
                    != nodes@[b].event_id@,
        decreases nodes.len() - i,
    {
        let mut j: usize = 0;
        while j < nodes.len()
            invariant
                i < nodes@.len(),
                j <= nodes@.len(),
                forall|a: int, b: int|
                    0 <= a < i && 0 <= b < nodes@.len() && a != b ==> nodes@[a].event_id@
                        != nodes@[b].event_id@,
                forall|b: int| 0 <= b < j && b != i ==> nodes@[i as int].event_id@ != nodes@[b].event_id@,
            decreases nodes.len() - j,
        {
            if j != i && str_eq(nodes[i].event_id.as_str(), nodes[j].event_id.as_str()) {
                return true;
            }
            j += 1;
        }
        i += 1;
    }
    false
}

/// What replay gives for a set of events: a duplicate id is refused first,
/// then a stream that is not one well-formed chain, and otherwise the events
/// are ordered as `dependency_order` orders them.
pub open spec fn replay_result(nodes: Seq<ReplayNode>, r: Result<Vec<usize>, ReplayError>) -> bool {
    match r {
        Err(ReplayError::Duplicate(what)) => !ids_distinct(nodes) && what@ == "eventId"@,
        _ => {
            &&& ids_distinct(nodes)
            &&& streams_ok(nodes) ==> order_result(nodes, r)
            &&& !streams_ok(nodes) ==> (r matches Err(e) && (e is Missing || e is Predecessor
                || e is Transition))
        },
    }
}

/// The replay order of a set of journal events, as positions in `nodes`.
pub fn topological(nodes: &Vec<ReplayNode>) -> (r: Result<Vec<usize>, ReplayError>)
    ensures
        replay_result(nodes@, r),
{
    if has_duplicate_id(nodes) {
        return Err(ReplayError::Duplicate("eventId".to_string()));
    }
    match validate_streams(nodes) {
        Ok(_) => {},
        Err(e) => return Err(e),
    }
    dependency_order(nodes)
}

/// A replay order lists every event exactly once, and puts each event after
/// every event it depends on.
pub proof fn replay_respects_dependencies(nodes: Seq<ReplayNode>, order: Seq<usize>)
    requires
        nodes.len() <= usize::MAX,
        order.len() == nodes.len(),
        greedy(nodes, order),
    ensures
        order.no_duplicates(),
        forall|k: int| 0 <= k < order.len() ==> (#[trigger] order[k]) < nodes.len(),
        forall|j: usize| j < nodes.len() ==> #[trigger] order.contains(j),
        forall|k: int, d: Seq<char>|
            0 <= k < order.len() && #[trigger] depends_on(nodes, order[k] as int, d) ==> exists|
                m: int,
            | 0 <= m < k && #[trigger] nodes[order[m] as int].event_id@ == d,
{
    assert forall|k: int| 0 <= k < order.len() implies (#[trigger] order[k]) < nodes.len() by {
        assert(next_choice(nodes, order.take(k), order[k] as int));
    }
    assert forall|a: int, b: int| 0 <= a < order.len() && 0 <= b < order.len() && a != b implies order[a]
        != order[b] by {
        let (x, y) = if a < b { (a, b) } else { (b, a) };
        assert(next_choice(nodes, order.take(y), order[y] as int));
        assert(order.take(y)[x] == order[x]);
        assert(order.take(y).contains(order[x]));
    }
    let all = Seq::new(nodes.len(), |i: int| i as usize);
    assert forall|x: int| 0 <= x < order.len() implies all.contains(#[trigger] order[x]) by {
        assert(next_choice(nodes, order.take(x), order[x] as int));
        assert(all[order[x] as int] == order[x]);
    }
    assert forall|a: int, b: int| 0 <= a < all.len() && 0 <= b < all.len() && a != b implies all[a]
        != all[b] by {
        assert(all[a] == a as usize && all[b] == b as usize);
    }
    cover_by_count(order, all);
    assert forall|j: usize| j < nodes.len() implies #[trigger] order.contains(j) by {
        assert(all[j as int] == j);
        assert(all.contains(j));
    }
    assert forall|k: int, d: Seq<char>|
        0 <= k < order.len() && #[trigger] depends_on(nodes, order[k] as int, d) implies exists|m: int|
        0 <= m < k && #[trigger] nodes[order[m] as int].event_id@ == d by {
        let p = order.take(k);
        let i = order[k] as int;
        assert(next_choice(nodes, p, i));
        assert(in_prefix(nodes, p, d)) by {
            if !(nodes[i].predecessor_event_id matches Some(pp) && pp@ == d) {
                let x = choose|x: int| 0 <= x < source_ids(nodes[i]).len() && source_ids(nodes[i])[x] == d;
                assert(in_prefix(nodes, p, source_ids(nodes[i])[x]));
            }
        }
        let m = choose|m: int| 0 <= m < p.len() && #[trigger] nodes[p[m] as int].event_id@ == d;
        assert(p[m] == order[m]);
    }
}

// ---------------------------------------------------------------- from envelopes

/// The part of an event that replay orders by.
pub open spec fn node_of(h: EventHeader) -> ReplayNode {
    ReplayNode {
        event_id: h.event_id,
        event_type: h.event_type,
        aggregate_kind: h.aggregate.kind,
        aggregate_id: h.aggregate.id,
        created_at_ms: h.created_at_ms,
        predecessor_event_id: h.predecessor_event_id,
        source_event_ids: h.source_event_ids,
    }
}

pub open spec fn nodes_of(hs: Seq<EventHeader>) -> Seq<ReplayNode> {
    hs.map_values(|h: EventHeader| node_of(h))
}

/// The first event whose envelope checks fail, with the field refused.
pub open spec fn first_invalid(hs: Seq<EventHeader>, i: int, field: &'static str) -> bool {
    &&& 0 <= i < hs.len()
    &&& header_error(hs[i]) == Some(field)
    &&& forall|j: int| 0 <= j < i ==> #[trigger] header_error(hs[j]) is None
}

fn node_from(h: EventHeader) -> (n: ReplayNode)
    ensures
        n == node_of(h),
{
    ReplayNode {
        event_id: h.event_id,
        event_type: h.event_type,
        aggregate_kind: h.aggregate.kind,
        aggregate_id: h.aggregate.id,
        created_at_ms: h.created_at_ms,
        predecessor_event_id: h.predecessor_event_id,
        source_event_ids: h.source_event_ids,
    }
}

/// The first event whose envelope is refused, with the field refused.
fn first_refused(events: &Vec<EventHeader>) -> (r: Option<&'static str>)
    ensures
        match r {
            Some(f) => exists|i: int| #[trigger] first_invalid(events@, i, f),
            None => forall|j: int| 0 <= j < events@.len() ==> #[trigger] header_error(events@[j]) is None,
        },
{
    let mut i: usize = 0;
    while i < events.len()
        invariant
            i <= events@.len(),
            forall|j: int| 0 <= j < i ==> #[trigger] header_error(events@[j]) is None,
        decreases events.len() - i,
    {
        match validate_event_header(&events[i]) {
            Ok(_) => {},
            Err(EventError::Invalid(f)) => {
                assert(first_invalid(events@, i as int, f));
                return Some(f);
            },
            Err(EventError::Serialize(_)) => {
                assert(false);
            },
        }
        i += 1;
    }
    None
}

/// The replay order of a set of journal events: each event's envelope is
/// checked first (the first refused one is reported as invalid), and then
/// the events are ordered as `topological` orders them.
pub fn replay_events(events: Vec<EventHeader>) -> (r: Result<Vec<usize>, ReplayError>)
    ensures
        match r {
            Err(ReplayError::Invalid(m)) => exists|i: int, f: &'static str|
                #![trigger first_invalid(events@, i, f)]
                first_invalid(events@, i, f) && m@ == "invalid event field: "@ + f@,
            _ => (forall|j: int| 0 <= j < events@.len() ==> #[trigger] header_error(events@[j]) is None)
                && replay_result(nodes_of(events@), r),
        },
{
    match first_refused(&events) {
        Some(f) => return Err(ReplayError::Invalid(concat2("invalid event field: ", f))),
        None => {},
    }
    let ghost all = events@;
    let n = events.len();
    let mut rest = events;
    let mut reversed: Vec<EventHeader> = Vec::new();
    while rest.len() > 0
        invariant
            n == all.len(),
            rest@.len() <= n,
            rest@ == all.take(rest@.len() as int),
            reversed@ =~= Seq::new((n - rest@.len()) as nat, |j: int| all[n - 1 - j]),
        decreases rest@.len(),
    {
        let ghost before = rest@;
        let h = rest.pop().unwrap();
        assert(h == all[before.len() - 1]);
        assert(rest@ =~= all.take(rest@.len() as int));
        reversed.push(h);
    }
    let mut nodes: Vec<ReplayNode> = Vec::new();
    while reversed.len() > 0
        invariant
            n == all.len(),
            reversed@ =~= Seq::new(reversed@.len(), |j: int| all[n - 1 - j]),
            reversed@.len() <= n,
            nodes@ =~= nodes_of(all.take(n - reversed@.len())),
        decreases reversed@.len(),
    {
        let ghost m = reversed@.len();
        let h = reversed.pop().unwrap();
        assert(h == all[n - m]);
        nodes.push(node_from(h));
        assert(all.take(n - m + 1) =~= all.take(n - m).push(all[n - m]));
    }
    assert(all.take(n as int) =~= all);
    topological(&nodes)
}

} // verus!

use vstd::prelude::*;

use crate::contracts::events::AggregateKind;
use crate::journal::order::{find_id, ids_distinct, present, ReplayError, ReplayNode};
use crate::journal::replay::{predecessor_allowed, predecessor_ok};
use crate::text::str_eq;

verus! {

// ---------------------------------------------------------------- the model

/// Two events belong to one stream when they name the same aggregate.
pub open spec fn same_stream(a: ReplayNode, b: ReplayNode) -> bool {
    a.aggregate_kind == b.aggregate_kind && a.aggregate_id@ == b.aggregate_id@
}

/// Event `j` is in the stream of event `s`.
pub open spec fn in_stream(nodes: Seq<ReplayNode>, s: int, j: int) -> bool {
    0 <= j < nodes.len() && same_stream(nodes[j], nodes[s])
}

/// Event `b` follows event `a` in a stream: it names `a` as its predecessor and
/// its kind may follow the kind of `a`.
pub open spec fn link(nodes: Seq<ReplayNode>, a: int, b: int) -> bool {
    &&& nodes[b].predecessor_event_id matches Some(p) && p@ == nodes[a].event_id@
    &&& predecessor_ok(nodes[b].event_type, Some(nodes[a].event_type))
}

pub open spec fn link_at(nodes: Seq<ReplayNode>, q: Seq<usize>, k: int) -> bool {
    link(nodes, q[k] as int, q[k + 1] as int)
}

/// `q` lists the whole stream of event `s` as one chain: it opens with an event
/// that has no predecessor and may open a stream, and each later event follows
/// the one before it.
pub open spec fn is_chain(nodes: Seq<ReplayNode>, s: int, q: Seq<usize>) -> bool {
    &&& q.len() >= 1
    &&& q.no_duplicates()
    &&& forall|k: int| 0 <= k < q.len() ==> in_stream(nodes, s, #[trigger] q[k] as int)
    &&& forall|j: int| #[trigger] in_stream(nodes, s, j) ==> q.contains(j as usize)
    &&& nodes[q[0] as int].predecessor_event_id is None
    &&& predecessor_ok(nodes[q[0] as int].event_type, None)
    &&& forall|k: int| 0 <= k < q.len() - 1 ==> #[trigger] link_at(nodes, q, k)
}

/// The stream of event `s` is one well-formed chain.
pub open spec fn stream_ok(nodes: Seq<ReplayNode>, s: int) -> bool {
    exists|q: Seq<usize>| #[trigger] is_chain(nodes, s, q)
}

/// Every stream of the set is one well-formed chain.
pub open spec fn streams_ok(nodes: Seq<ReplayNode>) -> bool {
    forall|s: int| 0 <= s < nodes.len() ==> #[trigger] stream_ok(nodes, s)
}

// ---------------------------------------------------------------- members

spec fn members_of(nodes: Seq<ReplayNode>, s: int, m: Seq<usize>) -> bool {
    &&& forall|a: int, b: int| 0 <= a < b < m.len() ==> m[a] < m[b]
    &&& forall|a: int| 0 <= a < m.len() ==> in_stream(nodes, s, #[trigger] m[a] as int)
    &&& forall|j: int| #[trigger] in_stream(nodes, s, j) ==> m.contains(j as usize)
}

fn same_stream_exec(a: &ReplayNode, b: &ReplayNode) -> (r: bool)
    ensures
        r == same_stream(*a, *b),
{
    a.aggregate_kind == b.aggregate_kind && str_eq(a.aggregate_id.as_str(), b.aggregate_id.as_str())
}

/// The events of the stream of event `s`, in the order of the set.
fn stream_members(nodes: &Vec<ReplayNode>, s: usize) -> (m: Vec<usize>)
    requires
        s < nodes@.len(),
    ensures
        members_of(nodes@, s as int, m@),
        m@.len() >= 1,
{
    let mut m: Vec<usize> = Vec::new();
    let mut j: usize = 0;
    while j < nodes.len()
        invariant
            s < nodes@.len(),
            j <= nodes@.len(),
            forall|a: int, b: int| 0 <= a < b < m@.len() ==> m@[a] < m@[b],
            forall|a: int| 0 <= a < m@.len() ==> (#[trigger] m@[a]) < j,
            forall|a: int| 0 <= a < m@.len() ==> in_stream(nodes@, s as int, #[trigger] m@[a] as int),
            forall|x: int| 0 <= x < j && #[trigger] in_stream(nodes@, s as int, x) ==> m@.contains(
                x as usize,
            ),
        decreases nodes.len() - j,
    {
        if same_stream_exec(&nodes[j], &nodes[s]) {
            let ghost old_m = m@;
            m.push(j);
            proof {
                assert forall|x: int|
                    0 <= x < j + 1 && #[trigger] in_stream(nodes@, s as int, x) implies m@.contains(
                    x as usize,
                ) by {
                    if x < j {
                        let a = choose|a: int| 0 <= a < old_m.len() && old_m[a] == x as usize;
                        assert(m@[a] == x as usize);
                    } else {
                        assert(m@[old_m.len() as int] == x as usize);
                    }
                }
            }
        }
        j += 1;
    }
    assert(in_stream(nodes@, s as int, s as int));
    m
}

// ---------------------------------------------------------------- facts about chains

spec fn unique_root(nodes: Seq<ReplayNode>, s: int, r: int) -> bool {
    &&& in_stream(nodes, s, r)
    &&& nodes[r].predecessor_event_id is None
    &&& forall|j: int|
        #[trigger] in_stream(nodes, s, j) && nodes[j].predecessor_event_id is None ==> j == r
}

spec fn unique_children(nodes: Seq<ReplayNode>, s: int) -> bool {
    forall|a: int, b: int|
        #[trigger] in_stream(nodes, s, a) && #[trigger] in_stream(nodes, s, b) && a != b
            && nodes[a].predecessor_event_id is Some && nodes[b].predecessor_event_id is Some
            ==> nodes[a].predecessor_event_id->0@ != nodes[b].predecessor_event_id->0@
}

/// Where an event of the stream stands in a chain of that stream.
proof fn chain_position(nodes: Seq<ReplayNode>, s: int, q: Seq<usize>, j: int) -> (k: int)
    requires
        is_chain(nodes, s, q),
        in_stream(nodes, s, j),
        nodes.len() <= usize::MAX,
    ensures
        0 <= k < q.len(),
        q[k] as int == j,
        k == 0 ==> nodes[j].predecessor_event_id is None,
        k > 0 ==> (nodes[j].predecessor_event_id matches Some(p) && p@ == nodes[q[k - 1] as int].event_id@),
{
    assert(q.contains(j as usize));
    let k = choose|k: int| 0 <= k < q.len() && q[k] == j as usize;
    if k > 0 {
        assert(link_at(nodes, q, k - 1));
    }
    k
}

/// A sequence without repeats whose items all occur in `b` is no longer than `b`.
proof fn no_dup_len_le(a: Seq<usize>, b: Seq<usize>)
    requires
        a.no_duplicates(),
        forall|x: int| 0 <= x < a.len() ==> b.contains(#[trigger] a[x]),
    ensures
        a.len() <= b.len(),
{
    a.unique_seq_to_set();
    b.lemma_cardinality_of_set();
    assert(a.to_set().subset_of(b.to_set())) by {
        assert forall|v: usize| a.to_set().contains(v) implies b.to_set().contains(v) by {
            let x = choose|x: int| 0 <= x < a.len() && a[x] == v;
            assert(b.contains(a[x]));
        }
    }
    vstd::set_lib::lemma_len_subset(a.to_set(), b.to_set());
}

spec fn walk_ok(nodes: Seq<ReplayNode>, s: int, r: int, w: Seq<usize>) -> bool {
    &&& w.len() >= 1
    &&& w[0] as int == r
    &&& w.no_duplicates()
    &&& forall|k: int| 0 <= k < w.len() ==> in_stream(nodes, s, #[trigger] w[k] as int)
    &&& forall|k: int| 0 <= k < w.len() - 1 ==> #[trigger] link_at(nodes, w, k)
}

/// A walk from the unique root along unique children is a prefix of any chain.
proof fn walk_follows(nodes: Seq<ReplayNode>, s: int, r: int, q: Seq<usize>, w: Seq<usize>)
    requires
        ids_distinct(nodes),
        nodes.len() <= usize::MAX,
        is_chain(nodes, s, q),
        unique_root(nodes, s, r),
        unique_children(nodes, s),
        walk_ok(nodes, s, r, w),
        w.len() <= q.len(),
    ensures
        w =~= q.take(w.len() as int),
    decreases w.len(),
{
    if w.len() == 1 {
        assert(in_stream(nodes, s, q[0] as int));
    } else {
        let v = w.drop_last();
        assert forall|k: int| 0 <= k < v.len() - 1 implies #[trigger] link_at(nodes, v, k) by {
            assert(link_at(nodes, w, k));
        }
        assert forall|k: int| 0 <= k < v.len() implies in_stream(nodes, s, #[trigger] v[k] as int) by {
            assert(in_stream(nodes, s, w[k] as int));
        }
        walk_follows(nodes, s, r, q, v);
        let n = w.len() - 1;
        assert(link_at(nodes, w, n - 1));
        assert(link_at(nodes, q, n - 1));
        let a = w[n] as int;
        let b = q[n] as int;
        assert(in_stream(nodes, s, a));
        assert(in_stream(nodes, s, b));
        assert(v[n - 1] == w[n - 1]);
        assert(q.take(n)[n - 1] == q[n - 1]);
        assert(w[n - 1] == q[n - 1]);
        assert(a == b);
    }
}

// ---------------------------------------------------------------- checks

/// The member of the stream whose predecessor is event `cur`, if any.
fn find_child(nodes: &Vec<ReplayNode>, m: &Vec<usize>, Ghost(s): Ghost<int>, cur: usize) -> (r:
    Option<usize>)
    requires
        members_of(nodes@, s, m@),
        cur < nodes@.len(),
    ensures
        r matches Some(c) ==> in_stream(nodes@, s, c as int) && (nodes@[c as int].predecessor_event_id matches Some(p)
            && p@ == nodes@[cur as int].event_id@),
        r is None ==> forall|j: int|
            #[trigger] in_stream(nodes@, s, j) ==> !(nodes@[j].predecessor_event_id matches Some(p) && p@
                == nodes@[cur as int].event_id@),
{
    let mut a: usize = 0;
    while a < m.len()
        invariant
            members_of(nodes@, s, m@),
            cur < nodes@.len(),
            a <= m@.len(),
            forall|x: int|
                0 <= x < a ==> !(nodes@[#[trigger] m@[x] as int].predecessor_event_id matches Some(p)
                    && p@ == nodes@[cur as int].event_id@),
        decreases m.len() - a,
    {
        let c = m[a];
        assert(in_stream(nodes@, s, m@[a as int] as int));
        match &nodes[c].predecessor_event_id {
            Some(p) => {
                if str_eq(p.as_str(), nodes[cur].event_id.as_str()) {
                    return Some(c);
                }
            },
            None => {},
        }
        a += 1;
    }
    assert(nodes@.len() == nodes.len());
    proof {
        assert forall|j: int| #[trigger] in_stream(nodes@, s, j) implies !(
        nodes@[j].predecessor_event_id matches Some(p) && p@ == nodes@[cur as int].event_id@) by {
            assert(m@.contains(j as usize));
            let x = choose|x: int| 0 <= x < m@.len() && m@[x] == j as usize;
            assert(m@[x] as int == j);
        }
    }
    None
}

/// The stream's one event without a predecessor.
fn find_root(nodes: &Vec<ReplayNode>, m: &Vec<usize>, Ghost(s): Ghost<int>) -> (r: Result<
    usize,
    ReplayError,
>)
    requires
        members_of(nodes@, s, m@),
        m@.len() >= 1,
    ensures
        match r {
            Ok(x) => unique_root(nodes@, s, x as int),
            Err(e) => (e matches ReplayError::Predecessor(id) && id@ == nodes@[m@[0] as int].event_id@)
                && !stream_ok(nodes@, s),
        },
{
    assert(nodes@.len() == nodes.len());
    let mut root: Option<usize> = None;
    let mut a: usize = 0;
    while a < m.len()
        invariant
            members_of(nodes@, s, m@),
            nodes@.len() <= usize::MAX,
            a <= m@.len(),
            root matches Some(x) ==> exists|y: int|
                0 <= y < a && #[trigger] m@[y] == x && nodes@[x as int].predecessor_event_id is None,
            forall|y: int|
                0 <= y < a && nodes@[#[trigger] m@[y] as int].predecessor_event_id is None ==> root
                    == Some(m@[y]),
        decreases m.len() - a,
    {
        let c = m[a];
        if nodes[c].predecessor_event_id.is_none() {
            match root {
                None => {
                    root = Some(c);
                },
                Some(x) => {
                    proof {
                        let y = choose|y: int|
                            0 <= y < a && #[trigger] m@[y] == x && nodes@[x as int].predecessor_event_id is None;
                        assert(m@[y] < m@[a as int]);
                        assert(in_stream(nodes@, s, x as int));
                        assert(in_stream(nodes@, s, c as int));
                        if stream_ok(nodes@, s) {
                            let q = choose|q: Seq<usize>| #[trigger] is_chain(nodes@, s, q);
                            let k1 = chain_position(nodes@, s, q, x as int);
                            let k2 = chain_position(nodes@, s, q, c as int);
                        }
                    }
                    return Err(ReplayError::Predecessor(nodes[m[0]].event_id.clone()));
                },
            }
        }
        a += 1;
    }
    match root {
        Some(x) => {
            proof {
                assert forall|j: int|
                    #[trigger] in_stream(nodes@, s, j) && nodes@[j].predecessor_event_id is None implies j
                    == x as int by {
                    assert(m@.contains(j as usize));
                    let y = choose|y: int| 0 <= y < m@.len() && m@[y] == j as usize;
                    assert(nodes@[m@[y] as int].predecessor_event_id is None);
                }
                let y = choose|y: int|
                    0 <= y < m@.len() && #[trigger] m@[y] == x && nodes@[x as int].predecessor_event_id is None;
                assert(in_stream(nodes@, s, m@[y] as int));
            }
            Ok(x)
        },
        None => {
            proof {
                if stream_ok(nodes@, s) {
                    let q = choose|q: Seq<usize>| #[trigger] is_chain(nodes@, s, q);
                    let r0 = q[0] as int;
                    assert(in_stream(nodes@, s, r0));
                    assert(m@.contains(r0 as usize));
                    let y = choose|y: int| 0 <= y < m@.len() && m@[y] == r0 as usize;
                    assert(nodes@[m@[y] as int].predecessor_event_id is None);
                }
            }
            Err(ReplayError::Predecessor(nodes[m[0]].event_id.clone()))
        },
    }
}

/// Every predecessor a stream event names exists in the stream, and no two
/// events of the stream name the same one.
fn check_children(nodes: &Vec<ReplayNode>, m: &Vec<usize>, Ghost(s): Ghost<int>) -> (r: Result<
    (),
    ReplayError,
>)
    requires
        ids_distinct(nodes@),
        members_of(nodes@, s, m@),
    ensures
        match r {
            Ok(_) => unique_children(nodes@, s),
            Err(e) => (e is Missing || e is Predecessor) && !stream_ok(nodes@, s),
        },
{
    assert(nodes@.len() == nodes.len());
    let mut a: usize = 0;
    while a < m.len()
        invariant
            ids_distinct(nodes@),
            members_of(nodes@, s, m@),
            nodes@.len() <= usize::MAX,
            a <= m@.len(),
            forall|x: int, y: int|
                0 <= x < y < a && nodes@[#[trigger] m@[x] as int].predecessor_event_id is Some
                    && nodes@[#[trigger] m@[y] as int].predecessor_event_id is Some
                    ==> nodes@[m@[x] as int].predecessor_event_id->0@ != nodes@[m@[y] as int].predecessor_event_id->0@,
        decreases m.len() - a,
    {
        let e = m[a];
        assert(in_stream(nodes@, s, e as int));
        match &nodes[e].predecessor_event_id {
            None => {},
            Some(p) => {
                match find_id(nodes, p.as_str()) {
                    None => {
                        proof {
                            if stream_ok(nodes@, s) {
                                let q = choose|q: Seq<usize>| #[trigger] is_chain(nodes@, s, q);
                                let k = chain_position(nodes@, s, q, e as int);
                                assert(in_stream(nodes@, s, q[k - 1] as int));
                                assert(nodes@[q[k - 1] as int].event_id@ == p@);
                            }
                        }
                        return Err(ReplayError::Missing(p.clone()));
                    },
                    Some(j) => {
                        if !same_stream_exec(&nodes[j], &nodes[e]) {
                            proof {
                                if stream_ok(nodes@, s) {
                                    let q = choose|q: Seq<usize>| #[trigger] is_chain(nodes@, s, q);
                                    let k = chain_position(nodes@, s, q, e as int);
                                    assert(in_stream(nodes@, s, q[k - 1] as int));
                                    assert(q[k - 1] as int == j as int);
                                }
                            }
                            return Err(ReplayError::Predecessor(nodes[e].event_id.clone()));
                        }
                    },
                }
                let mut b: usize = 0;
                while b < a
                    invariant
                        ids_distinct(nodes@),
                        members_of(nodes@, s, m@),
                        nodes@.len() <= usize::MAX,
                        a < m@.len(),
                        e == m@[a as int],
                        nodes@[e as int].predecessor_event_id == Some(*p),
                        b <= a,
                        forall|x: int|
                            0 <= x < b && nodes@[#[trigger] m@[x] as int].predecessor_event_id is Some
                                ==> nodes@[m@[x] as int].predecessor_event_id->0@ != p@,
                    decreases a - b,
                {
                    let f = m[b];
                    match &nodes[f].predecessor_event_id {
                        Some(p2) => {
                            if str_eq(p2.as_str(), p.as_str()) {
                                proof {
                                    assert(m@[b as int] < m@[a as int]);
                                    assert(in_stream(nodes@, s, f as int));
                                    if stream_ok(nodes@, s) {
                                        let q = choose|q: Seq<usize>| #[trigger] is_chain(nodes@, s, q);
                                        let k = chain_position(nodes@, s, q, e as int);
                                        let k2 = chain_position(nodes@, s, q, f as int);
                                        assert(in_stream(nodes@, s, q[k - 1] as int));
                                        assert(in_stream(nodes@, s, q[k2 - 1] as int));
                                        assert(q[k - 1] == q[k2 - 1]);
                                    }
                                }
                                return Err(ReplayError::Predecessor(nodes[e].event_id.clone()));
                            }
                        },
                        None => {},
                    }
                    b += 1;
                }
            },
        }
        a += 1;
    }
    proof {
        assert forall|x: int, y: int|
            #[trigger] in_stream(nodes@, s, x) && #[trigger] in_stream(nodes@, s, y) && x != y
                && nodes@[x].predecessor_event_id is Some && nodes@[y].predecessor_event_id is Some
                implies nodes@[x].predecessor_event_id->0@ != nodes@[y].predecessor_event_id->0@ by {
            assert(m@.contains(x as usize));
            assert(m@.contains(y as usize));
            let px = choose|px: int| 0 <= px < m@.len() && m@[px] == x as usize;
            let py = choose|py: int| 0 <= py < m@.len() && m@[py] == y as usize;
            assert(m@[px] as int == x);
            assert(m@[py] as int == y);
            if px > py {
                assert(nodes@[m@[py] as int].predecessor_event_id is Some);
            }
        }
    }
    Ok(())
}

/// A sequence without repeats, as long as another without repeats and drawn
/// from it, holds all of it.
pub(crate) proof fn cover_by_count(w: Seq<usize>, m: Seq<usize>)
    requires
        w.no_duplicates(),
        m.no_duplicates(),
        w.len() == m.len(),
        forall|x: int| 0 <= x < w.len() ==> m.contains(#[trigger] w[x]),
    ensures
        forall|v: usize| m.contains(v) ==> w.contains(v),
{
    w.unique_seq_to_set();
    m.unique_seq_to_set();
    assert(w.to_set().subset_of(m.to_set())) by {
        assert forall|v: usize| w.to_set().contains(v) implies m.to_set().contains(v) by {
            let x = choose|x: int| 0 <= x < w.len() && w[x] == v;
            assert(m.contains(w[x]));
        }
    }
    vstd::set_lib::lemma_subset_equality(w.to_set(), m.to_set());
    assert forall|v: usize| m.contains(v) implies w.contains(v) by {
        assert(m.to_set().contains(v));
        assert(w.to_set().contains(v));
    }
}

proof fn members_no_dup(m: Seq<usize>)
    requires
        forall|a: int, b: int| 0 <= a < b < m.len() ==> m[a] < m[b],
    ensures
        m.no_duplicates(),
{
    assert forall|a: int, b: int| 0 <= a < m.len() && 0 <= b < m.len() && a != b implies m[a] != m[b] by {
        if a < b {
            assert(m[a] < m[b]);
        } else {
            assert(m[b] < m[a]);
        }
    }
}

/// Any chain of the stream is exactly as long as its member list.
proof fn chain_len(nodes: Seq<ReplayNode>, s: int, q: Seq<usize>, m: Seq<usize>)
    requires
        is_chain(nodes, s, q),
        members_of(nodes, s, m),
        nodes.len() <= usize::MAX,
    ensures
        q.len() == m.len(),
{
    members_no_dup(m);
    assert forall|x: int| 0 <= x < m.len() implies q.contains(#[trigger] m[x]) by {
        assert(in_stream(nodes, s, m[x] as int));
    }
    assert forall|x: int| 0 <= x < q.len() implies m.contains(#[trigger] q[x]) by {
        assert(in_stream(nodes, s, q[x] as int));
    }
    no_dup_len_le(m, q);
    no_dup_len_le(q, m);
}

/// Checks the stream of event `s`: one event opens it, every other event
/// names a predecessor of the same stream that no other event names, each
/// step is an allowed transition, and one chain runs through all of it.
pub fn check_stream(nodes: &Vec<ReplayNode>, s: usize) -> (r: Result<(), ReplayError>)
    requires
        ids_distinct(nodes@),
        s < nodes@.len(),
    ensures
        r is Ok <==> stream_ok(nodes@, s as int),
        r matches Err(e) ==> (e is Missing || e is Predecessor || e is Transition),
{
    let ghost g = s as int;
    assert(nodes@.len() == nodes.len());
    let m = stream_members(nodes, s);
    let root = match find_root(nodes, &m, Ghost(g)) {
        Ok(x) => x,
        Err(e) => return Err(e),
    };
    match check_children(nodes, &m, Ghost(g)) {
        Ok(_) => {},
        Err(e) => return Err(e),
    }
    if !predecessor_allowed(nodes[root].event_type, None) {
        proof {
            if stream_ok(nodes@, g) {
                let q = choose|q: Seq<usize>| #[trigger] is_chain(nodes@, g, q);
                assert(in_stream(nodes@, g, q[0] as int));
            }
        }
        return Err(ReplayError::Transition(nodes[root].event_id.clone()));
    }
    let mut walk: Vec<usize> = Vec::new();
    walk.push(root);
    let mut cur = root;
    let mut stuck = false;
    while walk.len() < m.len() && !stuck
        invariant
            ids_distinct(nodes@),
            members_of(nodes@, g, m@),
            unique_root(nodes@, g, root as int),
            unique_children(nodes@, g),
            nodes@.len() <= usize::MAX,
            walk_ok(nodes@, g, root as int, walk@),
            cur == walk@.last(),
            walk@.len() <= m@.len(),
            g == s as int,
            predecessor_ok(nodes@[root as int].event_type, None),
            stuck ==> forall|j: int|
                #[trigger] in_stream(nodes@, g, j) ==> !(nodes@[j].predecessor_event_id matches Some(p)
                    && p@ == nodes@[cur as int].event_id@),
        decreases m@.len() - walk@.len(), if stuck { 0int } else { 1int },
    {
        match find_child(nodes, &m, Ghost(g), cur) {
            None => {
                stuck = true;
            },
            Some(c) => {
                if !predecessor_allowed(nodes[c].event_type, Some(nodes[cur].event_type)) {
                    proof {
                        if stream_ok(nodes@, g) {
                            let q = choose|q: Seq<usize>| #[trigger] is_chain(nodes@, g, q);
                            chain_len(nodes@, g, q, m@);
                            walk_follows(nodes@, g, root as int, q, walk@);
                            let v = walk@.len() as int;
                            assert(walk@[v - 1] == q.take(v)[v - 1]);
                            assert(link_at(nodes@, q, v - 1));
                            assert(q.take(v)[v - 1] == q[v - 1]);
                            assert(q[v - 1] == cur);
                            assert(in_stream(nodes@, g, q[v] as int));
                            assert(in_stream(nodes@, g, c as int));
                            assert(q[v] == c);
                            assert(predecessor_ok(nodes@[c as int].event_type, Some(nodes@[cur as int].event_type)));
                        }
                    }
                    return Err(ReplayError::Transition(nodes[c].event_id.clone()));
                }
                proof {
                    if walk@.contains(c) {
                        let x = choose|x: int| 0 <= x < walk@.len() && walk@[x] == c;
                        if x > 0 {
                            assert(link_at(nodes@, walk@, x - 1));
                            let l = walk@.len() - 1;
                            assert(in_stream(nodes@, g, walk@[x - 1] as int));
                            assert(in_stream(nodes@, g, walk@[l] as int));
                            assert(walk@[x - 1] == walk@[l]);
                        }
                    }
                }
                let ghost old_walk = walk@;
                walk.push(c);
                cur = c;
                proof {
                    assert forall|k: int| 0 <= k < walk@.len() - 1 implies #[trigger] link_at(
                        nodes@,
                        walk@,
                        k,
                    ) by {
                        if k < old_walk.len() - 1 {
                            assert(link_at(nodes@, old_walk, k));
                        }
                    }
                    assert forall|k: int| 0 <= k < walk@.len() implies in_stream(
                        nodes@,
                        g,
                        #[trigger] walk@[k] as int,
                    ) by {
                        if k < old_walk.len() {
                            assert(in_stream(nodes@, g, old_walk[k] as int));
                        }
                    }
                    assert forall|a: int, b: int|
                        0 <= a < walk@.len() && 0 <= b < walk@.len() && a != b implies walk@[a]
                        != walk@[b] by {
                        if a < old_walk.len() && b < old_walk.len() {
                            assert(old_walk[a] != old_walk[b]);
                        } else if a < old_walk.len() {
                            assert(old_walk.contains(old_walk[a]));
                        } else {
                            assert(old_walk.contains(old_walk[b]));
                        }
                    }
                }
            },
        }
    }
    if walk.len() != m.len() {
        proof {
            if stream_ok(nodes@, g) {
                let q = choose|q: Seq<usize>| #[trigger] is_chain(nodes@, g, q);
                chain_len(nodes@, g, q, m@);
                walk_follows(nodes@, g, root as int, q, walk@);
                let v = walk@.len() as int;
                assert(walk@[v - 1] == q.take(v)[v - 1]);
                assert(link_at(nodes@, q, v - 1));
                assert(in_stream(nodes@, g, q[v] as int));
            }
        }
        return Err(ReplayError::Predecessor(nodes[cur].event_id.clone()));
    }
    proof {
        members_no_dup(m@);
        assert forall|x: int| 0 <= x < walk@.len() implies m@.contains(#[trigger] walk@[x]) by {
            assert(in_stream(nodes@, g, walk@[x] as int));
        }
        cover_by_count(walk@, m@);
        assert forall|j: int| #[trigger] in_stream(nodes@, g, j) implies walk@.contains(j as usize) by {
            assert(m@.contains(j as usize));
        }
        assert(is_chain(nodes@, g, walk@));
    }
    Ok(())
}

/// Events of one stream have the same chains.
proof fn chain_transfer(nodes: Seq<ReplayNode>, a: int, b: int, q: Seq<usize>)
    requires
        same_stream(nodes[a], nodes[b]),
        is_chain(nodes, a, q),
    ensures
        is_chain(nodes, b, q),
{
    assert forall|k: int| 0 <= k < q.len() implies in_stream(nodes, b, #[trigger] q[k] as int) by {
        assert(in_stream(nodes, a, q[k] as int));
    }
    assert forall|j: int| #[trigger] in_stream(nodes, b, j) implies q.contains(j as usize) by {
        assert(in_stream(nodes, a, j));
    }
}

/// Checks every stream of the set, each once, in the order in which the
/// streams first appear.
pub fn validate_streams(nodes: &Vec<ReplayNode>) -> (r: Result<(), ReplayError>)
    requires
        ids_distinct(nodes@),
    ensures
        r is Ok <==> streams_ok(nodes@),
        r matches Err(e) ==> (e is Missing || e is Predecessor || e is Transition),
{
    let mut s: usize = 0;
    while s < nodes.len()
        invariant
            ids_distinct(nodes@),
            s <= nodes@.len(),
            forall|x: int| 0 <= x < s ==> #[trigger] stream_ok(nodes@, x),
        decreases nodes.len() - s,
    {
        let mut earlier: Option<usize> = None;
        let mut j: usize = 0;
        while j < s && earlier.is_none()
            invariant
                s < nodes@.len(),
                j <= s,
                earlier matches Some(x) ==> x < s && same_stream(nodes@[x as int], nodes@[s as int]),
            decreases s - j,
        {
            if same_stream_exec(&nodes[j], &nodes[s]) {
                earlier = Some(j);
            }
            j += 1;
        }
        match earlier {
            Some(x) => {
                proof {
                    assert(stream_ok(nodes@, x as int));
                    let q = choose|q: Seq<usize>| #[trigger] is_chain(nodes@, x as int, q);
                    chain_transfer(nodes@, x as int, s as int, q);
                    assert(stream_ok(nodes@, s as int));
                }
            },
            None => {
                match check_stream(nodes, s) {
                    Ok(_) => {},
                    Err(e) => {
                        proof {
                            assert(!stream_ok(nodes@, s as int));
                        }
                        return Err(e);
                    },
                }
            },
        }
        s += 1;
    }
    Ok(())
}

} // verus!

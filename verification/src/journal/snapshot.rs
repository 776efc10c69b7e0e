use vstd::prelude::*;

use crate::contracts::ids::{
    h256, is_h256, is_prefixed_hex, is_timestamp_ms, sha256_hex_of, validate_event_id,
    validate_h256, validate_timestamp_ms,
};
use crate::contracts::projection::ProjectionState;
use crate::text::{copy_opt_string, opt_str_eq, str_eq};

use super::head::{opt_h256_ok, Head};

verus! {

pub const SNAPSHOT_SCHEMA: &'static str = "pr72.snapshot.r13.v1";

/// A projection published at an event, chained to the previous snapshot.
#[derive(Clone, Debug)]
pub struct Snapshot {
    pub schema_version: String,
    pub last_event_id: String,
    pub last_event_created_at_ms: u64,
    pub projection: ProjectionState,
    pub projection_digest: String,
    pub previous_snapshot_digest: Option<String>,
    pub snapshot_created_at_ms: u64,
}

#[derive(Clone, Debug, PartialEq, Eq)]
pub enum SnapshotError {
    Invalid(&'static str),
}

/// The parts of a snapshot fit together: its schema, a valid last event
/// and times (taken no earlier than its last event), valid digests, and a
/// projection that ends at the same event with the same digest.
pub open spec fn parts_ok(
    schema: Seq<char>,
    last_event_id: Seq<char>,
    last_event_created_at_ms: u64,
    snapshot_created_at_ms: u64,
    projection_digest: Seq<char>,
    previous: Option<String>,
    projection: ProjectionState,
) -> bool {
    &&& schema == SNAPSHOT_SCHEMA@
    &&& is_prefixed_hex(last_event_id, "evt_"@, 64)
    &&& is_timestamp_ms(last_event_created_at_ms)
    &&& is_timestamp_ms(snapshot_created_at_ms)
    &&& snapshot_created_at_ms >= last_event_created_at_ms
    &&& is_h256(projection_digest)
    &&& opt_h256_ok(previous)
    &&& projection.last_event_id matches Some(id) && id@ == last_event_id
    &&& projection.last_event_created_at_ms == last_event_created_at_ms
    &&& projection.projection_digest@ == projection_digest
}

pub open spec fn snapshot_ok(s: Snapshot) -> bool {
    parts_ok(
        s.schema_version@,
        s.last_event_id@,
        s.last_event_created_at_ms,
        s.snapshot_created_at_ms,
        s.projection_digest@,
        s.previous_snapshot_digest,
        s.projection,
    )
}

impl Snapshot {
    pub fn validate_shape(&self) -> (r: Result<(), SnapshotError>)
        ensures
            r is Ok <==> snapshot_ok(*self),
            r is Err ==> r == Err::<(), SnapshotError>(SnapshotError::Invalid("fields")),
    {
        let previous_ok = match &self.previous_snapshot_digest {
            Some(d) => validate_h256(d.as_str()).is_ok(),
            None => true,
        };
        let bad = !str_eq(self.schema_version.as_str(), SNAPSHOT_SCHEMA) || validate_event_id(
            self.last_event_id.as_str(),
        ).is_err() || validate_timestamp_ms(self.last_event_created_at_ms).is_err()
            || validate_timestamp_ms(self.snapshot_created_at_ms).is_err()
            || self.snapshot_created_at_ms < self.last_event_created_at_ms || validate_h256(
            self.projection_digest.as_str(),
        ).is_err() || !previous_ok || !opt_str_eq(
            &self.projection.last_event_id,
            Some(self.last_event_id.as_str()),
        ) || self.projection.last_event_created_at_ms != self.last_event_created_at_ms || !str_eq(
            self.projection.projection_digest.as_str(),
            self.projection_digest.as_str(),
        );
        if bad {
            return Err(SnapshotError::Invalid("fields"));
        }
        Ok(())
    }

    /// The snapshot of `projection` at its last event.
    pub fn new(
        projection: ProjectionState,
        previous_snapshot_digest: Option<String>,
        snapshot_created_at_ms: u64,
    ) -> (r: Result<Snapshot, SnapshotError>)
        ensures
            projection.last_event_id is None ==> r == Err::<Snapshot, SnapshotError>(
                SnapshotError::Invalid("empty projection"),
            ),
            r matches Ok(s) ==> {
                &&& snapshot_ok(s)
                &&& s.projection == projection
                &&& s.previous_snapshot_digest == previous_snapshot_digest
                &&& s.snapshot_created_at_ms == snapshot_created_at_ms
                &&& s.last_event_id@ == projection.last_event_id->0@
                &&& s.last_event_created_at_ms == projection.last_event_created_at_ms
                &&& s.projection_digest@ == projection.projection_digest@
            },
            projection.last_event_id is Some && parts_ok(
                SNAPSHOT_SCHEMA@,
                projection.last_event_id->0@,
                projection.last_event_created_at_ms,
                snapshot_created_at_ms,
                projection.projection_digest@,
                previous_snapshot_digest,
                projection,
            ) ==> r is Ok,
            projection.last_event_id is Some && r is Err ==> r == Err::<Snapshot, SnapshotError>(
                SnapshotError::Invalid("fields"),
            ) && !parts_ok(
                SNAPSHOT_SCHEMA@,
                projection.last_event_id->0@,
                projection.last_event_created_at_ms,
                snapshot_created_at_ms,
                projection.projection_digest@,
                previous_snapshot_digest,
                projection,
            ),
    {
        let last_event_id = match &projection.last_event_id {
            Some(id) => id.clone(),
            None => {
                return Err(SnapshotError::Invalid("empty projection"));
            },
        };
        let snapshot = Snapshot {
            schema_version: SNAPSHOT_SCHEMA.to_string(),
            last_event_id,
            last_event_created_at_ms: projection.last_event_created_at_ms,
            projection_digest: projection.projection_digest.clone(),
            projection,
            previous_snapshot_digest,
            snapshot_created_at_ms,
        };
        match snapshot.validate_shape() {
            Ok(()) => Ok(snapshot),
            Err(e) => Err(e),
        }
    }
}


// ---------------------------------------------------------------- the snapshot HEAD names

/// How HEAD's snapshot was judged.
#[derive(Clone, Debug, PartialEq, Eq)]
pub enum SnapshotInspection {
    Absent,
    Trusted,
    Ignored(String),
}

impl SnapshotError {
    /// The error's message.
    pub fn message(&self) -> (r: String)
        ensures
            match *self {
                SnapshotError::Invalid(what) => r@ == "snapshot invalid: "@ + what@,
            },
    {
        match self {
            SnapshotError::Invalid(what) => crate::text::concat2("snapshot invalid: ", what),
        }
    }
}

/// The digest of a snapshot file: `sha256:` and the SHA-256 of its bytes.
pub open spec fn file_digest(bytes: Seq<u8>) -> Seq<char> {
    "sha256:"@ + sha256_hex_of(bytes)
}

/// The position of the last candidate whose bytes have the digest `d`.
pub open spec fn last_with_digest(c: Seq<(Vec<u8>, Snapshot)>, d: Seq<char>) -> Option<int>
    decreases c.len(),
{
    if c.len() == 0 {
        None
    } else if file_digest(c.last().0@) == d {
        Some(c.len() - 1)
    } else {
        last_with_digest(c.drop_last(), d)
    }
}

/// The snapshot HEAD names, among the candidates read with their bytes: none
/// where HEAD names none; else the last candidate whose bytes have HEAD's
/// digest, which must be taken at HEAD's snapshot event and be well formed.
pub open spec fn head_snapshot_result(h: Head, c: Seq<(Vec<u8>, Snapshot)>) -> Result<
    Option<Snapshot>,
    SnapshotError,
> {
    if h.snapshot_event_id is None || h.snapshot_sha256 is None {
        Ok(None)
    } else {
        match last_with_digest(c, h.snapshot_sha256->0@) {
            None => Err(SnapshotError::Invalid("snapshotSha256")),
            Some(i) => if c[i].1.last_event_id@ != h.snapshot_event_id->0@ {
                Err(SnapshotError::Invalid("snapshotEventId"))
            } else if !snapshot_ok(c[i].1) {
                Err(SnapshotError::Invalid("fields"))
            } else {
                Ok(Some(c[i].1))
            },
        }
    }
}

/// The snapshot HEAD names is one of the candidates, read from bytes whose
/// digest is HEAD's, taken at HEAD's snapshot event, and well formed; where
/// HEAD names a snapshot, no candidate with its digest means an error.
pub proof fn head_snapshot_is_the_named_one(h: Head, c: Seq<(Vec<u8>, Snapshot)>)
    ensures
        head_snapshot_result(h, c) matches Ok(Some(s)) ==> exists|i: int|
            0 <= i < c.len() && #[trigger] c[i].1 == s && "sha256:"@ + sha256_hex_of(c[i].0@)
                == h.snapshot_sha256->0@ && s.last_event_id@ == h.snapshot_event_id->0@
                && snapshot_ok(s),
        h.snapshot_event_id is Some && h.snapshot_sha256 is Some && (forall|i: int|
            0 <= i < c.len() ==> "sha256:"@ + sha256_hex_of(#[trigger] c[i].0@) != h.snapshot_sha256->0@)
            ==> head_snapshot_result(h, c) == Err::<Option<Snapshot>, SnapshotError>(
            SnapshotError::Invalid("snapshotSha256"),
        ),
{
    lemma_last_with_digest(c, h.snapshot_sha256->0@);
}

proof fn lemma_last_with_digest(c: Seq<(Vec<u8>, Snapshot)>, d: Seq<char>)
    ensures
        last_with_digest(c, d) matches Some(i) ==> 0 <= i < c.len() && file_digest(c[i].0@) == d,
        (forall|i: int| 0 <= i < c.len() ==> file_digest(#[trigger] c[i].0@) != d) ==> last_with_digest(
            c,
            d,
        ) is None,
    decreases c.len(),
{
    if c.len() > 0 {
        lemma_last_with_digest(c.drop_last(), d);
        assert forall|i: int| 0 <= i < c.drop_last().len() implies c.drop_last()[i] == c[i] by {}
    }
}

/// Picks the snapshot HEAD names out of the snapshot files read, each given
/// with its bytes (see `head_snapshot_result`). The replay of the snapshot
/// chain against the journal comes after this and is not part of it.
pub fn head_snapshot(head: &Head, candidates: Vec<(Vec<u8>, Snapshot)>) -> (r: Result<
    Option<Snapshot>,
    SnapshotError,
>)
    ensures
        r == head_snapshot_result(*head, candidates@),
{
    let event_id = match &head.snapshot_event_id {
        Some(e) => e,
        None => return Ok(None),
    };
    let expected = match &head.snapshot_sha256 {
        Some(x) => x,
        None => return Ok(None),
    };
    let ghost c = candidates@;
    let mut pool = candidates;
    let mut j: usize = pool.len();
    assert(c.take(j as int) =~= c);
    while j > 0
        invariant
            pool@ == c,
            c == candidates@,
            head.snapshot_event_id == Some(*event_id),
            head.snapshot_sha256 == Some(*expected),
            j <= c.len(),
            last_with_digest(c, expected@) == last_with_digest(c.take(j as int), expected@),
        decreases j,
    {
        assert(c.take(j as int).drop_last() =~= c.take(j - 1));
        assert(c.take(j as int).last() == c[j - 1]);
        let digest = h256(pool[j - 1].0.as_slice());
        if crate::text::str_eq(digest.as_str(), expected.as_str()) {
            assert(last_with_digest(c.take(j as int), expected@) == Some(j - 1));
            let found = pool.remove(j - 1);
            let snapshot = found.1;
            if !crate::text::str_eq(snapshot.last_event_id.as_str(), event_id.as_str()) {
                return Err(SnapshotError::Invalid("snapshotEventId"));
            }
            if snapshot.validate_shape().is_err() {
                return Err(SnapshotError::Invalid("fields"));
            }
            return Ok(Some(snapshot));
        }
        j -= 1;
    }
    assert(c.take(0) =~= Seq::<(Vec<u8>, Snapshot)>::empty());
    Err(SnapshotError::Invalid("snapshotSha256"))
}

/// Judges HEAD's snapshot from the outcome of checking it: absent where HEAD
/// names none, else trusted, absent or ignored with the error's message as
/// the check came out.
pub fn inspect_head_snapshot(head: &Head, checked: Result<Option<Snapshot>, SnapshotError>) -> (r:
    SnapshotInspection)
    ensures
        head.snapshot_event_id is None && head.snapshot_sha256 is None ==> r
            == SnapshotInspection::Absent,
        !(head.snapshot_event_id is None && head.snapshot_sha256 is None) ==> match checked {
            Ok(Some(_)) => r == SnapshotInspection::Trusted,
            Ok(None) => r == SnapshotInspection::Absent,
            Err(SnapshotError::Invalid(what)) => r matches SnapshotInspection::Ignored(m) && m@
                == "snapshot invalid: "@ + what@,
        },
{
    if head.snapshot_event_id.is_none() && head.snapshot_sha256.is_none() {
        return SnapshotInspection::Absent;
    }
    match checked {
        Ok(Some(_)) => SnapshotInspection::Trusted,
        Ok(None) => SnapshotInspection::Absent,
        Err(e) => SnapshotInspection::Ignored(e.message()),
    }
}

} // verus!

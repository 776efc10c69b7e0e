use vstd::prelude::*;

use crate::journal::head::{Head, HeadError, HEAD_SCHEMA};
use crate::text::{bytes_eq, copy_opt_string, opt_str_eq, str_eq};

verus! {

/// A journal event as a commit compares it: its id and its canonical bytes,
/// which are what its journal file holds.
pub struct StoredEvent {
    pub event_id: String,
    pub bytes: Vec<u8>,
}

/// Why a transaction is not admitted to the journal.
#[derive(Clone, Debug, PartialEq, Eq)]
pub enum CommitError {
    /// The mutation guard belongs to another state root.
    WrongMutationGuard,
    /// The transaction holds no event.
    EmptyTransaction,
    /// The event at this position of the transaction failed its own check.
    EventInvalid(usize),
    /// An event reuses the id of a journaled event with other content.
    ImmutableCollision(String),
}

/// The bytes of the first journaled event, from index `i` on, whose id is
/// `id`.
pub open spec fn stored_bytes_from(existing: Seq<StoredEvent>, id: Seq<char>, i: int) -> Option<
    Seq<u8>,
>
    decreases existing.len() - i,
{
    if i < 0 || i >= existing.len() {
        None
    } else if existing[i].event_id@ == id {
        Some(existing[i].bytes@)
    } else {
        stored_bytes_from(existing, id, i + 1)
    }
}

/// The bytes journaled under `id`, if any.
pub open spec fn stored_bytes(existing: Seq<StoredEvent>, id: Seq<char>) -> Option<Seq<u8>> {
    stored_bytes_from(existing, id, 0)
}

/// The first refusal among the transaction's events from index `k` on: an
/// event that failed its check, or one whose id is journaled with other
/// bytes. Events are taken in order, each checked before it is compared.
pub open spec fn admission_error_from(
    existing: Seq<StoredEvent>,
    tx: Seq<StoredEvent>,
    valid: Seq<bool>,
    k: int,
) -> Option<CommitError>
    decreases tx.len() - k,
{
    if k < 0 || k >= tx.len() {
        None
    } else if !valid[k] {
        Some(CommitError::EventInvalid(k as usize))
    } else {
        match stored_bytes(existing, tx[k].event_id@) {
            Some(b) => if b != tx[k].bytes@ {
                Some(CommitError::ImmutableCollision(tx[k].event_id))
            } else {
                admission_error_from(existing, tx, valid, k + 1)
            },
            None => admission_error_from(existing, tx, valid, k + 1),
        }
    }
}

/// Whether the transaction's event at `k` is new to the journal.
pub open spec fn is_new_event(existing: Seq<StoredEvent>, tx: Seq<StoredEvent>, k: int) -> bool {
    stored_bytes(existing, tx[k].event_id@) is None
}

fn find_stored(existing: &Vec<StoredEvent>, id: &str) -> (r: Option<usize>)
    ensures
        match r {
            Some(i) => i < existing@.len() && stored_bytes(existing@, id@) == Some(
                existing@[i as int].bytes@,
            ),
            None => stored_bytes(existing@, id@) is None,
        },
{
    let mut i: usize = 0;
    while i < existing.len()
        invariant
            i <= existing@.len(),
            stored_bytes(existing@, id@) == stored_bytes_from(existing@, id@, i as int),
        decreases existing.len() - i,
    {
        if str_eq(existing[i].event_id.as_str(), id) {
            return Some(i);
        }
        i += 1;
    }
    None
}

/// Admits a transaction to the journal. Each event, in order, must have
/// passed its own check (`valid`), and an event whose id is journaled
/// already must carry the same bytes; such an event is a repeat and is not
/// written again. On success, the result marks which events are new.
pub fn admit_transaction(
    authorized: bool,
    existing: &Vec<StoredEvent>,
    transaction: &Vec<StoredEvent>,
    valid: &Vec<bool>,
) -> (r: Result<Vec<bool>, CommitError>)
    requires
        valid@.len() == transaction@.len(),
    ensures
        !authorized ==> r == Err::<Vec<bool>, CommitError>(CommitError::WrongMutationGuard),
        authorized && transaction@.len() == 0 ==> r == Err::<Vec<bool>, CommitError>(
            CommitError::EmptyTransaction,
        ),
        authorized && transaction@.len() > 0 ==> match admission_error_from(
            existing@,
            transaction@,
            valid@,
            0,
        ) {
            Some(e) => r == Err::<Vec<bool>, CommitError>(e),
            None => r matches Ok(new) && new@.len() == transaction@.len() && forall|k: int|
                0 <= k < new@.len() ==> #[trigger] new@[k] == is_new_event(
                    existing@,
                    transaction@,
                    k,
                ),
        },
{
    if !authorized {
        return Err(CommitError::WrongMutationGuard);
    }
    if transaction.len() == 0 {
        return Err(CommitError::EmptyTransaction);
    }
    let mut new: Vec<bool> = Vec::new();
    let mut k: usize = 0;
    while k < transaction.len()
        invariant
            authorized,
            transaction@.len() > 0,
            valid@.len() == transaction@.len(),
            k <= transaction@.len(),
            new@.len() == k,
            forall|j: int| 0 <= j < k ==> #[trigger] new@[j] == is_new_event(existing@, transaction@, j),
            admission_error_from(existing@, transaction@, valid@, 0) == admission_error_from(
                existing@,
                transaction@,
                valid@,
                k as int,
            ),
        decreases transaction.len() - k,
    {
        if !valid[k] {
            return Err(CommitError::EventInvalid(k));
        }
        let event = &transaction[k];
        match find_stored(existing, event.event_id.as_str()) {
            Some(i) => {
                if !bytes_eq(existing[i].bytes.as_slice(), event.bytes.as_slice()) {
                    return Err(CommitError::ImmutableCollision(event.event_id.clone()));
                }
                new.push(false);
            },
            None => {
                new.push(true);
            },
        }
        k += 1;
    }
    Ok(new)
}

/// The positions, in replay order, of the events that a commit writes: the
/// journal replays its events followed by the transaction's new ones, so
/// those are the positions from `existing_len` on.
pub open spec fn appended_positions(order: Seq<usize>, existing_len: usize) -> Seq<usize>
    decreases order.len(),
{
    if order.len() == 0 {
        Seq::empty()
    } else {
        let rest = appended_positions(order.drop_last(), existing_len);
        if order.last() >= existing_len {
            rest.push(order.last())
        } else {
            rest
        }
    }
}

/// The events to write, in the order replay gives them.
pub fn events_to_append(order: &Vec<usize>, existing_len: usize) -> (r: Vec<usize>)
    ensures
        r@ == appended_positions(order@, existing_len),
{
    let mut r: Vec<usize> = Vec::new();
    let mut i: usize = 0;
    while i < order.len()
        invariant
            i <= order@.len(),
            r@ == appended_positions(order@.take(i as int), existing_len),
        decreases order.len() - i,
    {
        assert(order@.take(i as int + 1).drop_last() =~= order@.take(i as int));
        if order[i] >= existing_len {
            r.push(order[i]);
        }
        i += 1;
    }
    assert(order@.take(order@.len() as int) =~= order@);
    r
}

/// Two optional texts hold the same characters.
pub open spec fn same_opt_text(a: Option<String>, b: Option<String>) -> bool {
    match (a, b) {
        (Some(x), Some(y)) => x@ == y@,
        (None, None) => true,
        _ => false,
    }
}

/// Two HEADs that read the same, field by field.
pub open spec fn same_head(a: Head, b: Head) -> bool {
    &&& a.head_generation == b.head_generation
    &&& same_opt_text(a.last_event_id, b.last_event_id)
    &&& a.projection_digest@ == b.projection_digest@
    &&& a.schema_version@ == b.schema_version@
    &&& same_opt_text(a.snapshot_event_id, b.snapshot_event_id)
    &&& same_opt_text(a.snapshot_sha256, b.snapshot_sha256)
    &&& a.updated_at_ms == b.updated_at_ms
}

fn opt_text_eq(a: &Option<String>, b: &Option<String>) -> (r: bool)
    ensures
        r == same_opt_text(*a, *b),
{
    match b {
        Some(y) => opt_str_eq(a, Some(y.as_str())),
        None => a.is_none(),
    }
}

/// Whether two HEADs read the same.
pub fn heads_match(a: &Head, b: &Head) -> (r: bool)
    ensures
        r == same_head(*a, *b),
{
    a.head_generation == b.head_generation && opt_text_eq(&a.last_event_id, &b.last_event_id)
        && str_eq(a.projection_digest.as_str(), b.projection_digest.as_str()) && str_eq(
        a.schema_version.as_str(),
        b.schema_version.as_str(),
    ) && opt_text_eq(&a.snapshot_event_id, &b.snapshot_event_id) && opt_text_eq(
        &a.snapshot_sha256,
        &b.snapshot_sha256,
    ) && a.updated_at_ms == b.updated_at_ms
}

/// Whether a commit that added no event finds the journal already published:
/// HEAD reads back, the projection files equal the replayed ones, and HEAD
/// names the replayed last event and projection digest. Such a commit
/// returns the current HEAD and publishes nothing.
pub open spec fn already_published(
    current: Option<Head>,
    projections_match: bool,
    last_event_id: Option<String>,
    projection_digest: Seq<char>,
) -> bool {
    match current {
        Some(h) => projections_match && same_opt_text(h.last_event_id, last_event_id)
            && h.projection_digest@ == projection_digest,
        None => false,
    }
}

pub fn is_already_published(
    current: &Option<Head>,
    projections_match: bool,
    last_event_id: &Option<String>,
    projection_digest: &str,
) -> (r: bool)
    ensures
        r == already_published(*current, projections_match, *last_event_id, projection_digest@),
{
    match current {
        Some(h) => projections_match && opt_text_eq(&h.last_event_id, last_event_id) && str_eq(
            h.projection_digest.as_str(),
            projection_digest,
        ),
        None => false,
    }
}

/// How a commit publishes its HEAD: over the generation it read, with
/// retries, or, where no HEAD could be read, by replacing it after replay.
#[derive(Clone, Debug, PartialEq, Eq)]
pub enum HeadPublish {
    Retry { expected: u64 },
    ReplaceAfterReplay,
}

/// The HEAD a commit proposes and how it publishes it. `current` is the HEAD
/// read before the commit (`None` where none was there or it could not be
/// read); `snapshot_trusted` says whether the snapshot it names still holds.
pub open spec fn planned_head(
    current: Option<Head>,
    snapshot_trusted: bool,
    last_event_id: Option<String>,
    projection_digest: String,
    updated_at_ms: u64,
    candidate: Head,
    publish: HeadPublish,
) -> bool {
    let expected: u64 = match current {
        Some(h) => h.head_generation,
        None => 0,
    };
    &&& candidate.head_generation == (if expected == u64::MAX {
        expected
    } else {
        (expected + 1) as u64
    })
    &&& candidate.last_event_id == last_event_id
    &&& candidate.projection_digest == projection_digest
    &&& candidate.schema_version@ == HEAD_SCHEMA@
    &&& candidate.updated_at_ms == updated_at_ms
    &&& match current {
        Some(h) => {
            &&& candidate.snapshot_event_id == (if snapshot_trusted {
                h.snapshot_event_id
            } else {
                None
            })
            &&& candidate.snapshot_sha256 == (if snapshot_trusted {
                h.snapshot_sha256
            } else {
                None
            })
            &&& publish == HeadPublish::Retry { expected }
        },
        None => {
            &&& candidate.snapshot_event_id is None
            &&& candidate.snapshot_sha256 is None
            &&& publish == HeadPublish::ReplaceAfterReplay
        },
    }
}

pub fn plan_head(
    current: &Option<Head>,
    snapshot_trusted: bool,
    last_event_id: Option<String>,
    projection_digest: String,
    updated_at_ms: u64,
) -> (r: (Head, HeadPublish))
    ensures
        planned_head(
            *current,
            snapshot_trusted,
            last_event_id,
            projection_digest,
            updated_at_ms,
            r.0,
            r.1,
        ),
{
    let (expected, snapshot_event_id, snapshot_sha256, publish) = match current {
        Some(h) => {
            let (id, sha) = if snapshot_trusted {
                (copy_opt_string(&h.snapshot_event_id), copy_opt_string(&h.snapshot_sha256))
            } else {
                (None, None)
            };
            (h.head_generation, id, sha, HeadPublish::Retry { expected: h.head_generation })
        },
        None => (0u64, None, None, HeadPublish::ReplaceAfterReplay),
    };
    let generation = if expected == u64::MAX {
        expected
    } else {
        expected + 1
    };
    let candidate = Head {
        head_generation: generation,
        last_event_id,
        projection_digest,
        schema_version: HEAD_SCHEMA.to_owned(),
        snapshot_event_id,
        snapshot_sha256,
        updated_at_ms,
    };
    (candidate, publish)
}

/// After the projection is published, HEAD must still read as the one that
/// was published.
pub fn check_reopened(reopened: &Option<Head>, published: &Head) -> (r: Result<(), HeadError>)
    ensures
        match reopened {
            None => r == Err::<(), HeadError>(HeadError::Invalid("HEAD missing after publish")),
            Some(h) => if same_head(*h, *published) {
                r is Ok
            } else {
                r == Err::<(), HeadError>(HeadError::Invalid("HEAD changed after projection publish"))
            },
        },
{
    match reopened {
        None => Err(HeadError::Invalid("HEAD missing after publish")),
        Some(h) => if heads_match(h, published) {
            Ok(())
        } else {
            Err(HeadError::Invalid("HEAD changed after projection publish"))
        },
    }
}

/// A transaction whose every event is already journaled with the same bytes
/// is admitted and adds nothing: committing it again is a repeat.
pub proof fn repeated_transaction_adds_nothing(
    existing: Seq<StoredEvent>,
    tx: Seq<StoredEvent>,
    valid: Seq<bool>,
)
    requires
        valid.len() == tx.len(),
        forall|k: int| 0 <= k < tx.len() ==> #[trigger] valid[k],
        forall|k: int|
            0 <= k < tx.len() ==> stored_bytes(existing, #[trigger] tx[k].event_id@) == Some(
                tx[k].bytes@,
            ),
    ensures
        admission_error_from(existing, tx, valid, 0) is None,
        forall|k: int| 0 <= k < tx.len() ==> !is_new_event(existing, tx, k),
{
    repeated_from(existing, tx, valid, 0);
}

proof fn repeated_from(existing: Seq<StoredEvent>, tx: Seq<StoredEvent>, valid: Seq<bool>, k: int)
    requires
        0 <= k <= tx.len(),
        valid.len() == tx.len(),
        forall|j: int| 0 <= j < tx.len() ==> #[trigger] valid[j],
        forall|j: int|
            0 <= j < tx.len() ==> stored_bytes(existing, #[trigger] tx[j].event_id@) == Some(
                tx[j].bytes@,
            ),
    ensures
        admission_error_from(existing, tx, valid, k) is None,
    decreases tx.len() - k,
{
    if k < tx.len() {
        assert(valid[k]);
        assert(stored_bytes(existing, tx[k].event_id@) == Some(tx[k].bytes@));
        repeated_from(existing, tx, valid, k + 1);
    }
}

} // verus!

use gpt_webai_lifecycle::journal::commit::{
    admit_transaction, check_reopened, events_to_append, heads_match, is_already_published,
    plan_head, CommitError, HeadPublish, StoredEvent,
};
use gpt_webai_lifecycle::journal::head::{Head, HeadError, HEAD_SCHEMA};

fn evt(c: char) -> String {
    format!("evt_{}", std::iter::repeat(c).take(64).collect::<String>())
}

fn h256(c: char) -> String {
    format!("sha256:{}", std::iter::repeat(c).take(64).collect::<String>())
}

fn stored(c: char, body: &str) -> StoredEvent {
    StoredEvent { event_id: evt(c), bytes: body.as_bytes().to_vec() }
}

fn head(generation: u64) -> Head {
    Head {
        head_generation: generation,
        last_event_id: Some(evt('a')),
        projection_digest: h256('b'),
        schema_version: HEAD_SCHEMA.to_string(),
        snapshot_event_id: Some(evt('c')),
        snapshot_sha256: Some(h256('d')),
        updated_at_ms: 1_000,
    }
}

#[test]
fn transactions_need_the_guard_and_an_event() {
    let existing = vec![stored('a', "{\"a\":1}")];
    let tx = vec![stored('b', "{\"b\":1}")];
    assert_eq!(
        admit_transaction(false, &existing, &tx, &vec![true]),
        Err(CommitError::WrongMutationGuard)
    );
    assert_eq!(
        admit_transaction(true, &existing, &vec![], &vec![]),
        Err(CommitError::EmptyTransaction)
    );
}

#[test]
fn journaled_events_are_repeats_or_collisions() {
    let existing = vec![stored('a', "{\"a\":1}"), stored('b', "{\"b\":1}")];
    let tx = vec![stored('a', "{\"a\":1}"), stored('c', "{\"c\":1}")];
    assert_eq!(admit_transaction(true, &existing, &tx, &vec![true, true]), Ok(vec![false, true]));
    let repeat = vec![stored('b', "{\"b\":1}"), stored('a', "{\"a\":1}")];
    assert_eq!(admit_transaction(true, &existing, &repeat, &vec![true, true]), Ok(vec![false, false]));
    let clash = vec![stored('c', "{\"c\":1}"), stored('b', "{\"b\":2}")];
    assert_eq!(
        admit_transaction(true, &existing, &clash, &vec![true, true]),
        Err(CommitError::ImmutableCollision(evt('b')))
    );
    // Events are checked in order: an invalid event before a collision wins.
    assert_eq!(
        admit_transaction(true, &existing, &clash, &vec![false, true]),
        Err(CommitError::EventInvalid(0))
    );
    assert_eq!(
        admit_transaction(true, &existing, &clash, &vec![true, false]),
        Err(CommitError::EventInvalid(1))
    );
}

#[test]
fn new_events_are_written_in_replay_order() {
    assert_eq!(events_to_append(&vec![0, 3, 1, 2, 4], 2), vec![3, 2, 4]);
    assert_eq!(events_to_append(&vec![1, 0], 2), Vec::<usize>::new());
}

#[test]
fn a_repeat_commit_returns_the_published_head() {
    let current = Some(head(4));
    let last = Some(evt('a'));
    assert!(is_already_published(&current, true, &last, &h256('b')));
    assert!(!is_already_published(&current, false, &last, &h256('b')));
    assert!(!is_already_published(&current, true, &Some(evt('e')), &h256('b')));
    assert!(!is_already_published(&current, true, &last, &h256('f')));
    assert!(!is_already_published(&None, true, &last, &h256('b')));
}

#[test]
fn the_next_head_follows_the_current_generation() {
    let (candidate, publish) = plan_head(&Some(head(4)), true, Some(evt('e')), h256('f'), 2_000);
    assert_eq!(publish, HeadPublish::Retry { expected: 4 });
    assert_eq!(candidate.head_generation, 5);
    assert_eq!(candidate.last_event_id, Some(evt('e')));
    assert_eq!(candidate.projection_digest, h256('f'));
    assert_eq!(candidate.schema_version, HEAD_SCHEMA);
    assert_eq!(candidate.snapshot_event_id, Some(evt('c')));
    assert_eq!(candidate.snapshot_sha256, Some(h256('d')));
    assert_eq!(candidate.updated_at_ms, 2_000);

    let (untrusted, _) = plan_head(&Some(head(4)), false, Some(evt('e')), h256('f'), 2_000);
    assert_eq!(untrusted.snapshot_event_id, None);
    assert_eq!(untrusted.snapshot_sha256, None);

    let (saturated, _) = plan_head(&Some(head(u64::MAX)), false, None, h256('f'), 2_000);
    assert_eq!(saturated.head_generation, u64::MAX);

    let (recovered, publish) = plan_head(&None, true, None, h256('f'), 2_000);
    assert_eq!(publish, HeadPublish::ReplaceAfterReplay);
    assert_eq!(recovered.head_generation, 1);
    assert_eq!(recovered.snapshot_event_id, None);
}

#[test]
fn head_must_read_back_after_projection_publish() {
    assert!(heads_match(&head(3), &head(3)));
    assert_eq!(check_reopened(&Some(head(3)), &head(3)), Ok(()));
    assert_eq!(
        check_reopened(&None, &head(3)),
        Err(HeadError::Invalid("HEAD missing after publish"))
    );
    assert_eq!(
        check_reopened(&Some(head(4)), &head(3)),
        Err(HeadError::Invalid("HEAD changed after projection publish"))
    );
}

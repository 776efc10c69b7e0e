use gpt_webai_lifecycle::failpoint::{hit, is_known, propagate_provider_exit, validate_requested, NAMES};

#[test]
fn canonical_failpoint_set_is_closed_and_unique() {
    assert_eq!(NAMES.len(), 18);
    let unique = NAMES.into_iter().collect::<std::collections::BTreeSet<_>>();
    assert_eq!(unique.len(), 18);
    assert!(NAMES.into_iter().all(is_known));
    assert!(!is_known("after-unknown-effect"));
}

#[test]
fn requested_failpoint_must_be_known() {
    assert_eq!(validate_requested(None), Ok(()));
    assert_eq!(validate_requested(Some("after-uploadcleared")), Ok(()));
    assert_eq!(
        validate_requested(Some("nope")),
        Err("unrecognised GPT_WEBAI_FAILPOINT: nope".to_string())
    );
}

#[test]
fn an_empty_failpoint_value_requests_none() {
    assert_eq!(validate_requested(Some("")), Ok(()));
    assert!(!propagate_provider_exit(99, b"", b"failpoint:\n", Some("")));
}

#[test]
fn hit_only_the_requested_failpoint() {
    assert!(hit("after-uploadcleared", Some("after-uploadcleared")));
    assert!(!hit("after-uploadcleared", Some("after-sendclickarmed")));
    assert!(!hit("after-uploadcleared", None));
}

#[test]
fn provider_failpoint_exit_is_propagated() {
    let name = "after-artifact-click";
    assert!(propagate_provider_exit(99, b"", b"failpoint:after-artifact-click\n", Some(name)));
    assert!(!propagate_provider_exit(98, b"", b"failpoint:after-artifact-click\n", Some(name)));
    assert!(!propagate_provider_exit(99, b"x", b"failpoint:after-artifact-click\n", Some(name)));
    assert!(!propagate_provider_exit(99, b"", b"failpoint:after-artifact-click", Some(name)));
    assert!(!propagate_provider_exit(99, b"", b"failpoint:after-artifact-click\n", None));
    assert!(!propagate_provider_exit(99, b"", b"failpoint:bogus\n", Some("bogus")));
}

use vstd::prelude::*;

use crate::text::{push_decimal, push_str, decimal};

verus! {

#[derive(Clone, Copy, Debug, PartialEq, Eq, Structural)]
pub enum CleanupMode {
    DryRun,
    Apply,
}

/// What a cleanup found and did.
#[derive(Clone, Debug, PartialEq, Eq)]
pub struct CleanupOutput {
    pub schema: String,
    pub ok: bool,
    pub mode: String,
    pub stale_holders: usize,
    pub stale_locks: usize,
    pub removed_holders: usize,
    pub removed_locks: usize,
    pub skipped: usize,
    pub message: String,
}

pub open spec fn mode_label(mode: CleanupMode) -> Seq<char> {
    match mode {
        CleanupMode::DryRun => "dry-run"@,
        CleanupMode::Apply => "apply"@,
    }
}

pub fn mode_name(mode: CleanupMode) -> (r: &'static str)
    ensures
        r@ == mode_label(mode),
{
    match mode {
        CleanupMode::DryRun => "dry-run",
        CleanupMode::Apply => "apply",
    }
}

/// A holder record is stale unless its slot lock exists and its lease is
/// active.
pub fn holder_is_stale(lock_file_present: bool, lease_active: bool) -> (r: bool)
    ensures
        r == !(lock_file_present && lease_active),
{
    !(lock_file_present && lease_active)
}

/// The number of `true` entries.
pub open spec fn count_true(s: Seq<bool>) -> nat
    decreases s.len(),
{
    if s.len() == 0 {
        0
    } else {
        count_true(s.drop_last()) + if s.last() {
            1nat
        } else {
            0nat
        }
    }
}

proof fn lemma_count_true_le(s: Seq<bool>)
    ensures
        count_true(s) <= s.len(),
    decreases s.len(),
{
    if s.len() > 0 {
        lemma_count_true_le(s.drop_last());
    }
}

fn count(outcomes: &[bool]) -> (r: usize)
    ensures
        r == count_true(outcomes@),
{
    let mut n: usize = 0;
    let mut i: usize = 0;
    while i < outcomes.len()
        invariant
            i <= outcomes@.len(),
            n == count_true(outcomes@.take(i as int)),
            n <= i,
        decreases outcomes.len() - i,
    {
        assert(outcomes@.take(i as int + 1).drop_last() =~= outcomes@.take(i as int));
        if outcomes[i] {
            n += 1;
        }
        i += 1;
    }
    assert(outcomes@.take(outcomes@.len() as int) =~= outcomes@);
    n
}

/// The outcome of a cleanup over `lock_removed.len()` stale locks and
/// `holder_removed.len()` stale holders; under `Apply`, entry `i` of each
/// list says whether item `i` was removed. A dry run removes nothing.
pub fn summarize_cleanup(mode: CleanupMode, lock_removed: &[bool], holder_removed: &[bool]) -> (r:
    CleanupOutput)
    requires
        lock_removed@.len() + holder_removed@.len() <= usize::MAX,
    ensures
        r.schema@ == "gpt-webai.lifecycle.cleanup.v2"@,
        r.ok,
        r.mode@ == mode_label(mode),
        r.stale_locks == lock_removed@.len(),
        r.stale_holders == holder_removed@.len(),
        mode == CleanupMode::DryRun ==> r.removed_locks == 0 && r.removed_holders == 0 && r.skipped
            == 0,
        mode == CleanupMode::Apply ==> {
            &&& r.removed_locks == count_true(lock_removed@)
            &&& r.removed_holders == count_true(holder_removed@)
            &&& r.skipped == (lock_removed@.len() - count_true(lock_removed@)) + (
            holder_removed@.len() - count_true(holder_removed@))
        },
        r.message@ == "cleanup inspected Rust lifecycle holders and slot locks"@,
{
    let mut removed_locks: usize = 0;
    let mut removed_holders: usize = 0;
    let mut skipped: usize = 0;
    if mode == CleanupMode::Apply {
        removed_locks = count(lock_removed);
        removed_holders = count(holder_removed);
        proof {
            lemma_count_true_le(lock_removed@);
            lemma_count_true_le(holder_removed@);
        }
        let skipped_locks = lock_removed.len() - removed_locks;
        let skipped_holders = holder_removed.len() - removed_holders;
        skipped = skipped_locks + skipped_holders;
    }
    CleanupOutput {
        schema: "gpt-webai.lifecycle.cleanup.v2".to_string(),
        ok: true,
        mode: mode_name(mode).to_string(),
        stale_holders: holder_removed.len(),
        stale_locks: lock_removed.len(),
        removed_holders,
        removed_locks,
        skipped,
        message: "cleanup inspected Rust lifecycle holders and slot locks".to_string(),
    }
}

} // verus!

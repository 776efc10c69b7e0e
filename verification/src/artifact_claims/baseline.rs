use vstd::prelude::*;

use crate::contracts::ids::{
    is_h256, is_safe_rel_path, is_timestamp_ms, validate_byte_count, validate_h256,
    validate_safe_rel_path, validate_timestamp_ms, MAX_BYTE_COUNT,
};
use crate::text::{lex_lt, str_lt};

use super::{outcome, valid, ArtifactClaimError};

verus! {

#[derive(Clone, Debug, PartialEq, Eq)]
pub struct ArtifactBaselineEntry {
    pub rel_path: String,
    pub size_bytes: u64,
    pub sha256: String,
}

/// The files present in a download directory before a download.
#[derive(Clone, Debug, PartialEq, Eq)]
pub struct ArtifactBaseline {
    pub directory: String,
    pub entries: Vec<ArtifactBaselineEntry>,
    pub captured_at_ms: u64,
    pub baseline_sha256: String,
}

pub open spec fn entry_error(e: ArtifactBaselineEntry) -> Option<&'static str> {
    if !is_safe_rel_path(e.rel_path@) {
        Some("relPath")
    } else if e.size_bytes > MAX_BYTE_COUNT {
        Some("sizeBytes")
    } else if !is_h256(e.sha256@) {
        Some("sha256")
    } else {
        None
    }
}

/// The first problem among the entries from index `i` on: an invalid entry,
/// or a path that does not sort strictly after the previous one.
pub open spec fn entries_error_from(entries: Seq<ArtifactBaselineEntry>, i: int) -> Option<&'static str>
    decreases entries.len() - i,
{
    if i < 0 || i >= entries.len() {
        None
    } else if entry_error(entries[i]) is Some {
        entry_error(entries[i])
    } else if i > 0 && !lex_lt(entries[i - 1].rel_path@, entries[i].rel_path@) {
        Some("baseline ordering")
    } else {
        entries_error_from(entries, i + 1)
    }
}

pub open spec fn baseline_error(b: ArtifactBaseline) -> Option<&'static str> {
    if !is_safe_rel_path(b.directory@) {
        Some("directory")
    } else if !is_timestamp_ms(b.captured_at_ms) {
        Some("capturedAtMs")
    } else if !is_h256(b.baseline_sha256@) {
        Some("baselineSha256")
    } else if b.entries@.len() > 128 {
        Some("baseline entries")
    } else {
        entries_error_from(b.entries@, 0)
    }
}

impl ArtifactBaselineEntry {
    fn validate(&self) -> (r: Result<(), ArtifactClaimError>)
        ensures
            r == outcome(entry_error(*self)),
    {
        valid(validate_safe_rel_path(self.rel_path.as_str()), "relPath")?;
        valid(validate_byte_count(self.size_bytes), "sizeBytes")?;
        valid(validate_h256(self.sha256.as_str()), "sha256")
    }
}

impl ArtifactBaseline {
    pub fn validate(&self) -> (r: Result<(), ArtifactClaimError>)
        ensures
            r == outcome(baseline_error(*self)),
    {
        valid(validate_safe_rel_path(self.directory.as_str()), "directory")?;
        valid(validate_timestamp_ms(self.captured_at_ms), "capturedAtMs")?;
        valid(validate_h256(self.baseline_sha256.as_str()), "baselineSha256")?;
        if self.entries.len() > 128 {
            return Err(ArtifactClaimError::Invalid("baseline entries"));
        }
        let mut i: usize = 0;
        while i < self.entries.len()
            invariant
                i <= self.entries@.len(),
                self.entries@.len() <= 128,
                baseline_error(*self) == entries_error_from(self.entries@, 0),
                entries_error_from(self.entries@, 0) == entries_error_from(self.entries@, i as int),
            decreases self.entries.len() - i,
        {
            let entry = &self.entries[i];
            assert(entries_error_from(self.entries@, i as int) == if entry_error(self.entries@[i as int]) is Some {
                entry_error(self.entries@[i as int])
            } else if i > 0 && !lex_lt(self.entries@[i - 1].rel_path@, self.entries@[i as int].rel_path@) {
                Some("baseline ordering")
            } else {
                entries_error_from(self.entries@, i + 1)
            });
            match entry.validate() {
                Ok(()) => {},
                Err(e) => {
                    return Err(e);
                },
            }
            if i > 0 && !str_lt(self.entries[i - 1].rel_path.as_str(), entry.rel_path.as_str()) {
                return Err(ArtifactClaimError::Invalid("baseline ordering"));
            }
            i += 1;
        }
        Ok(())
    }
}

} // verus!

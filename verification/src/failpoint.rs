use vstd::prelude::*;

use crate::text::{bytes_eq, concat3, str_eq};

verus! {

pub const ENV_NAME: &'static str = "GPT_WEBAI_FAILPOINT";

/// The canonical failpoint names.
pub const NAMES: [&'static str; 18] = [
    "after-immutable-temp-write",
    "after-immutable-promote-before-directory-fsync",
    "after-event-append-before-head",
    "after-head-before-projection-publish",
    "after-uploadcleared",
    "after-sendclickarmed",
    "after-physical-send-click-before-provider-stdout",
    "after-turnstartconfirmed",
    "after-session-claim-lease-owner-renewal",
    "after-answerterminal",
    "after-artifact-listener-arm",
    "after-artifact-click",
    "after-playwright-host-save-before-receipt",
    "after-receipt-before-event",
    "after-terminalpersisted",
    "after-evidence-preservation",
    "after-runtime-stop-before-resource-release",
    "after-each-exactly-once-release-event",
];

/// `name` is one of the canonical failpoint names.
pub open spec fn known(name: Seq<char>) -> bool {
    exists|i: int| 0 <= i < 18 && (#[trigger] NAMES[i])@ == name
}

pub fn is_known(name: &str) -> (r: bool)
    ensures
        r == known(name@),
{
    let names = NAMES;
    let mut i: usize = 0;
    while i < 18
        invariant
            names == NAMES,
            i <= 18,
            forall|j: int| 0 <= j < i ==> (#[trigger] NAMES[j])@ != name@,
        decreases 18 - i,
    {
        if str_eq(names[i], name) {
            assert(NAMES[i as int]@ == name@);
            return true;
        }
        i += 1;
    }
    false
}

fn is_empty_str(s: &str) -> (r: bool)
    ensures
        r == (s@.len() == 0),
{
    proof {
        reveal_strlit("");
        if s@.len() == 0 {
            assert(s@ =~= ""@);
        }
    }
    str_eq(s, "")
}

/// Accepts no request, an empty value or a known name; otherwise reports the
/// unknown name.
pub fn validate_requested(requested: Option<&str>) -> (r: Result<(), String>)
    ensures
        match requested {
            None => r is Ok,
            Some(name) => if name@.len() == 0 || known(name@) {
                r is Ok
            } else {
                r matches Err(m) && m@ == "unrecognised GPT_WEBAI_FAILPOINT: "@ + name@
            },
        },
{
    match requested {
        None => Ok(()),
        Some(name) => {
            if is_empty_str(name) || is_known(name) {
                Ok(())
            } else {
                let m = crate::text::concat2("unrecognised GPT_WEBAI_FAILPOINT: ", name);
                Err(m)
            }
        },
    }
}

/// Whether the process must stop at failpoint `name`: exactly when it is the
/// requested one.
pub fn hit(name: &'static str, requested: Option<&str>) -> (r: bool)
    requires
        known(name@),
    ensures
        r == (requested matches Some(q) && q@ == name@),
{
    match requested {
        Some(q) => str_eq(q, name),
        None => false,
    }
}

/// The stderr a provider writes when it stopped at failpoint `name`.
pub open spec fn failpoint_line(name: Seq<char>) -> Seq<u8> {
    vstd::utf8::encode_utf8("failpoint:"@ + name + "\n"@)
}


/// Whether a provider that exited with `code`, `stdout` and `stderr` stopped at
/// the requested failpoint, so that this process must stop there too.
pub fn propagate_provider_exit(code: i32, stdout: &[u8], stderr: &[u8], requested: Option<&str>) -> (r:
    bool)
    ensures
        r == (code == 99 && stdout@.len() == 0 && (requested matches Some(name) && known(name@)
            && stderr@ == failpoint_line(name@))),
{
    if code != 99 || stdout.len() != 0 {
        return false;
    }
    let name = match requested {
        Some(name) => name,
        None => {
            return false;
        },
    };
    let expected = concat3("failpoint:", name, "\n");
    let t = expected.as_str();
    is_known(name) && bytes_eq(stderr, t.as_bytes())
}

} // verus!

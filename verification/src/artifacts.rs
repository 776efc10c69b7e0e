use vstd::prelude::*;

use crate::config::{join_path, path_join};
use crate::text::{is_alnum, push_char, str_chars};

verus! {

/// A character kept in a path key; every other character becomes `_`.
pub open spec fn key_char(c: char) -> char {
    if is_alnum(c) || c == '-' || c == '_' || c == '.' {
        c
    } else {
        '_'
    }
}

pub open spec fn sanitized(s: Seq<char>) -> Seq<char> {
    Seq::new(s.len(), |i: int| key_char(s[i]))
}

pub open spec fn trim_start(s: Seq<char>) -> Seq<char>
    decreases s.len(),
{
    if s.len() > 0 && s[0] == '_' {
        trim_start(s.skip(1))
    } else {
        s
    }
}

pub open spec fn trim_end(s: Seq<char>) -> Seq<char>
    decreases s.len(),
{
    if s.len() > 0 && s.last() == '_' {
        trim_end(s.drop_last())
    } else {
        s
    }
}

/// A value made safe as one path component: characters other than ASCII
/// letters, digits, `-`, `_` and `.` become `_`, leading and trailing `_`
/// are dropped, at most 120 characters are kept, and nothing left gives
/// `unknown`.
pub open spec fn safe_key_of(value: Seq<char>) -> Seq<char> {
    let t = trim_end(trim_start(sanitized(value)));
    if t.len() == 0 {
        "unknown"@
    } else if t.len() > 120 {
        t.take(120)
    } else {
        t
    }
}

pub fn safe_key(value: &str) -> (r: String)
    ensures
        r@ == safe_key_of(value@),
{
    let cs = str_chars(value);
    let ghost s = sanitized(value@);
    let mut v: Vec<char> = Vec::new();
    let mut i: usize = 0;
    while i < cs.len()
        invariant
            i <= cs@.len(),
            cs@ == value@,
            s == sanitized(value@),
            v@ == s.take(i as int),
        decreases cs.len() - i,
    {
        let c = cs[i];
        let k = if ('a' <= c && c <= 'z') || ('A' <= c && c <= 'Z') || ('0' <= c && c <= '9') || c
            == '-' || c == '_' || c == '.' {
            c
        } else {
            '_'
        };
        v.push(k);
        assert(s.take(i as int + 1) =~= s.take(i as int).push(k));
        i += 1;
    }
    assert(s.take(cs@.len() as int) =~= s);
    let n = v.len();
    let mut lo: usize = 0;
    while lo < n && v[lo] == '_'
        invariant
            lo <= n,
            n == s.len(),
            v@ == s,
            trim_start(s) == trim_start(s.skip(lo as int)),
        decreases n - lo,
    {
        assert(s.skip(lo as int).skip(1) =~= s.skip(lo as int + 1));
        lo += 1;
    }
    let ghost front = s.skip(lo as int);
    assert(trim_start(front) == front);
    let mut hi: usize = n;
    while hi > lo && v[hi - 1] == '_'
        invariant
            lo <= hi <= n,
            n == s.len(),
            v@ == s,
            front == s.skip(lo as int),
            trim_end(front) == trim_end(s.subrange(lo as int, hi as int)),
        decreases hi - lo,
    {
        assert(s.subrange(lo as int, hi as int).drop_last() =~= s.subrange(lo as int, hi as int - 1));
        hi -= 1;
    }
    assert(s.skip(lo as int) =~= s.subrange(lo as int, n as int));
    let ghost t = s.subrange(lo as int, hi as int);
    assert(trim_end(t) == t);
    assert(trim_end(trim_start(s)) == t);
    if hi == lo {
        return "unknown".to_string();
    }
    let end = if hi - lo > 120 {
        lo + 120
    } else {
        hi
    };
    let mut r = String::new();
    let mut j: usize = lo;
    while j < end
        invariant
            lo <= j <= end <= hi <= n,
            n == s.len(),
            v@ == s,
            r@ == s.subrange(lo as int, j as int),
        decreases end - j,
    {
        push_char(&mut r, v[j]);
        assert(s.subrange(lo as int, j as int + 1) =~= s.subrange(lo as int, j as int).push(v@[j as int]));
        j += 1;
    }
    assert(r@ =~= if t.len() > 120 {
        t.take(120)
    } else {
        t
    });
    r
}

/// Where a run's artifacts go on the host when the provider runs there:
/// `requests/<safe run id>/artifacts` under the state root.
pub open spec fn host_artifact_dir(state_root: Seq<char>, run_id: Seq<char>) -> Seq<char> {
    path_join(path_join(path_join(state_root, "requests"@), safe_key_of(run_id)), "artifacts"@)
}

pub fn answer_artifact_dir(state_root: &str, run_id: &str) -> (r: String)
    ensures
        r@ == host_artifact_dir(state_root@, run_id@),
{
    let requests = join_path(state_root, "requests");
    let key = safe_key(run_id);
    let run = join_path(requests.as_str(), key.as_str());
    join_path(run.as_str(), "artifacts")
}

} // verus!

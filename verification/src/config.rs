use vstd::prelude::*;

use crate::text::{concat2, push_char, push_str, str_eq, str_from_utf8};

verus! {

/// The supervisor's settings, as read from the environment.
#[derive(Clone, Debug)]
pub struct SupervisorConfig {
    pub state_root: String,
    pub slot_count: u8,
    pub slot_container_prefix: String,
    pub slot_mode: String,
    pub status_provider_check: bool,
    pub provider_status_timeout_ms: u64,
}

/// The slot pool is on unless the mode is `0`, `off` or `false`.
pub open spec fn pool_enabled(mode: Seq<char>) -> bool {
    !(mode == "0"@ || mode == "off"@ || mode == "false"@)
}

impl SupervisorConfig {
    pub fn slot_pool_enabled(&self) -> (r: bool)
        ensures
            r == pool_enabled(self.slot_mode@),
    {
        let mode = self.slot_mode.as_str();
        if str_eq(mode, "0") || str_eq(mode, "off") || str_eq(mode, "false") {
            false
        } else {
            true
        }
    }
}

/// A boolean setting: `0`, `off`, `false` and `no` turn it off; `1`, `on`,
/// `true` and `yes` turn it on; anything else, or nothing, leaves `fallback`.
pub open spec fn flag_value(value: Option<Seq<char>>, fallback: bool) -> bool {
    match value {
        Some(v) => if v == "0"@ || v == "off"@ || v == "false"@ || v == "no"@ {
            false
        } else if v == "1"@ || v == "on"@ || v == "true"@ || v == "yes"@ {
            true
        } else {
            fallback
        },
        None => fallback,
    }
}

pub fn env_flag(value: Option<&str>, fallback: bool) -> (r: bool)
    ensures
        r == flag_value(crate::text::opt_view(value), fallback),
{
    match value {
        Some(v) => {
            if str_eq(v, "0") || str_eq(v, "off") || str_eq(v, "false") || str_eq(v, "no") {
                false
            } else if str_eq(v, "1") || str_eq(v, "on") || str_eq(v, "true") || str_eq(v, "yes") {
                true
            } else {
                fallback
            }
        },
        None => fallback,
    }
}

/// `base` joined with the relative path `component`, as `Path::join` joins:
/// with a `/` between them unless `base` is empty or already ends in `/`.
pub open spec fn path_join(base: Seq<char>, component: Seq<char>) -> Seq<char> {
    if base.len() == 0 || base.last() == '/' {
        base + component
    } else {
        base + "/"@ + component
    }
}

pub fn join_path(base: &str, component: &str) -> (r: String)
    ensures
        r@ == path_join(base@, component@),
{
    let n = base.unicode_len();
    if n == 0 || base.get_char(n - 1) == '/' {
        concat2(base, component)
    } else {
        let mut r = concat2(base, "/");
        push_str(&mut r, component);
        r
    }
}

pub open spec fn non_empty(value: Option<Seq<char>>) -> Option<Seq<char>> {
    match value {
        Some(v) => if v.len() > 0 {
            Some(v)
        } else {
            None
        },
        None => None,
    }
}

/// Where the lifecycle keeps state by default: `$XDG_STATE_HOME`, or
/// `$HOME/.local/state`.
pub open spec fn state_base_of(xdg_state_home: Option<Seq<char>>, home: Option<Seq<char>>) -> Option<
    Seq<char>,
> {
    match non_empty(xdg_state_home) {
        Some(x) => Some(x),
        None => match non_empty(home) {
            Some(h) => Some(path_join(h, ".local/state"@)),
            None => None,
        },
    }
}

pub fn state_base(xdg_state_home: Option<&str>, home: Option<&str>) -> (r: Option<String>)
    ensures
        match state_base_of(crate::text::opt_view(xdg_state_home), crate::text::opt_view(home)) {
            Some(p) => r matches Some(s) && s@ == p,
            None => r is None,
        },
{
    match xdg_state_home {
        Some(x) => {
            if x.unicode_len() > 0 {
                return Some(x.to_string());
            }
        },
        None => {},
    }
    match home {
        Some(h) => {
            if h.unicode_len() > 0 {
                Some(join_path(h, ".local/state"))
            } else {
                None
            }
        },
        None => None,
    }
}

/// The state root: `$GPT_WEBAI_STATE_ROOT`, or `gpt-webai-lifecycle/r13`
/// under the state base.
pub open spec fn state_root_of(
    configured: Option<Seq<char>>,
    xdg_state_home: Option<Seq<char>>,
    home: Option<Seq<char>>,
) -> Option<Seq<char>> {
    match non_empty(configured) {
        Some(c) => Some(c),
        None => match state_base_of(xdg_state_home, home) {
            Some(b) => Some(path_join(path_join(b, "gpt-webai-lifecycle"@), "r13"@)),
            None => None,
        },
    }
}

pub fn resolve_state_root(configured: Option<&str>, xdg_state_home: Option<&str>, home: Option<&str>) -> (r:
    Option<String>)
    ensures
        match state_root_of(
            crate::text::opt_view(configured),
            crate::text::opt_view(xdg_state_home),
            crate::text::opt_view(home),
        ) {
            Some(p) => r matches Some(s) && s@ == p,
            None => r is None,
        },
{
    match configured {
        Some(c) => {
            if c.unicode_len() > 0 {
                return Some(c.to_string());
            }
        },
        None => {},
    }
    match state_base(xdg_state_home, home) {
        Some(b) => {
            let dir = join_path(b.as_str(), "gpt-webai-lifecycle");
            Some(join_path(dir.as_str(), "r13"))
        },
        None => None,
    }
}

/// Where the host-id seed is kept: `gpt-webai-lifecycle/host-id` under the
/// state base.
pub fn resolve_host_id_seed_path(xdg_state_home: Option<&str>, home: Option<&str>) -> (r: Option<
    String,
>)
    ensures
        match state_base_of(crate::text::opt_view(xdg_state_home), crate::text::opt_view(home)) {
            Some(b) => r matches Some(s) && s@ == path_join(b, "gpt-webai-lifecycle/host-id"@),
            None => r is None,
        },
{
    match state_base(xdg_state_home, home) {
        Some(b) => Some(join_path(b.as_str(), "gpt-webai-lifecycle/host-id")),
        None => None,
    }
}

// ---------------------------------------------------------------- the host-id seed

/// Why a stored host-id seed is refused.
#[derive(Clone, Copy, Debug, PartialEq, Eq, Structural)]
pub enum HostIdSeedError {
    /// Not 32 characters and a newline.
    Length,
    /// The 32 characters are not UTF-8.
    NotUtf8,
    /// The 32 characters are not lowercase hexadecimal digits.
    Invalid,
}

impl HostIdSeedError {
    pub fn message(self) -> (r: &'static str)
        ensures
            r@ == match self {
                HostIdSeedError::Length => "invalid host id seed length"@,
                HostIdSeedError::NotUtf8 => "host id seed is not UTF-8"@,
                HostIdSeedError::Invalid => "invalid host id seed"@,
            },
    {
        match self {
            HostIdSeedError::Length => "invalid host id seed length",
            HostIdSeedError::NotUtf8 => "host id seed is not UTF-8",
            HostIdSeedError::Invalid => "invalid host id seed",
        }
    }
}

pub open spec fn lower_hex_byte(b: u8) -> bool {
    (48 <= b <= 57) || (97 <= b <= 102)
}

/// The characters of bytes that are all ASCII.
pub open spec fn ascii_text(bytes: Seq<u8>) -> Seq<char> {
    Seq::new(bytes.len(), |i: int| bytes[i] as char)
}

/// The host id a stored seed names: the seed file holds 32 lowercase
/// hexadecimal digits and a newline, and the id is `host_` and the digits.
pub fn host_id_from_seed(bytes: &[u8]) -> (r: Result<String, HostIdSeedError>)
    ensures
        !(bytes@.len() == 33 && bytes@[32] == 10) ==> r == Err::<String, HostIdSeedError>(
            HostIdSeedError::Length,
        ),
        bytes@.len() == 33 && bytes@[32] == 10 ==> (r is Ok <==> forall|i: int|
            0 <= i < 32 ==> #[trigger] lower_hex_byte(bytes@[i])),
        r matches Ok(h) ==> h@ == "host_"@ + ascii_text(bytes@.take(32)),
        r == Err::<String, HostIdSeedError>(HostIdSeedError::NotUtf8) ==> exists|i: int|
            0 <= i < 32 && bytes@[i] >= 128,
        bytes@.len() == 33 && bytes@[32] == 10 && r is Err ==> (r == Err::<String, HostIdSeedError>(
            HostIdSeedError::NotUtf8,
        ) <==> !vstd::utf8::valid_utf8(bytes@.subrange(0, 32))),
        bytes@.len() == 33 && bytes@[32] == 10 && r is Err && vstd::utf8::valid_utf8(
            bytes@.subrange(0, 32),
        ) ==> r == Err::<String, HostIdSeedError>(HostIdSeedError::Invalid),
{
    if bytes.len() != 33 || bytes[32] != 10 {
        return Err(HostIdSeedError::Length);
    }
    let mut id = "host_".to_string();
    let ghost prefix = id@;
    let mut i: usize = 0;
    let mut hex = true;
    while i < 32
        invariant
            bytes@.len() == 33,
            i <= 32,
            hex == forall|j: int| 0 <= j < i ==> #[trigger] lower_hex_byte(bytes@[j]),
            hex ==> id@ == prefix + ascii_text(bytes@.take(i as int)),
        decreases 32 - i,
    {
        let b = bytes[i];
        assert(b == bytes@[i as int]);
        let ghost was_hex = hex;
        if !((48 <= b && b <= 57) || (97 <= b && b <= 102)) {
            hex = false;
        }
        proof {
            if !was_hex {
                let j = choose|j: int| 0 <= j < i && !#[trigger] lower_hex_byte(bytes@[j]);
                assert(!lower_hex_byte(bytes@[j]));
            }
            if !lower_hex_byte(b) {
                assert(!lower_hex_byte(bytes@[i as int]));
            }
        }
        if hex {
            push_char(&mut id, b as char);
            assert(ascii_text(bytes@.take(i as int + 1)) =~= ascii_text(bytes@.take(i as int)).push(
                b as char,
            ));
        }
        i += 1;
    }
    if hex {
        proof {
            reveal_strlit("host_");
        }
        return Ok(id);
    }
    let head = &bytes[0..32];
    assert(head@ =~= bytes@.subrange(0, 32));
    if str_from_utf8(head).is_some() {
        Err(HostIdSeedError::Invalid)
    } else {
        Err(HostIdSeedError::NotUtf8)
    }
}

pub open spec fn hex_digit(n: u8) -> char {
    if n < 10 {
        (48 + n) as char
    } else {
        (87 + n) as char
    }
}

/// Lowercase hexadecimal text of bytes, two digits each.
pub open spec fn hex_text(bytes: Seq<u8>) -> Seq<char> {
    Seq::new(
        2 * bytes.len(),
        |i: int| if i % 2 == 0 {
            hex_digit(bytes[i / 2] / 16)
        } else {
            hex_digit(bytes[i / 2] % 16)
        },
    )
}

fn hex_digit_char(n: u8) -> (c: char)
    requires
        n < 16,
    ensures
        c == hex_digit(n),
{
    if n < 10 {
        (48 + n) as char
    } else {
        (87 + n) as char
    }
}

/// The text of a new host-id seed: the entropy bytes in lowercase
/// hexadecimal.
pub fn seed_text(entropy: &[u8]) -> (r: String)
    ensures
        r@ == hex_text(entropy@),
{
    let mut r = String::new();
    let mut i: usize = 0;
    while i < entropy.len()
        invariant
            i <= entropy@.len(),
            r@ == hex_text(entropy@.take(i as int)),
        decreases entropy.len() - i,
    {
        let b = entropy[i];
        push_char(&mut r, hex_digit_char(b / 16));
        push_char(&mut r, hex_digit_char(b % 16));
        proof {
            let t = entropy@.take(i as int + 1);
            assert(t[i as int] == b);
            assert(hex_text(t) =~= hex_text(entropy@.take(i as int)).push(hex_digit(b / 16)).push(
                hex_digit(b % 16),
            )) by {
                assert forall|k: int| 0 <= k < 2 * i implies #[trigger] hex_text(t)[k] == hex_text(
                    entropy@.take(i as int),
                )[k] by {
                    assert(k / 2 < i);
                    assert(t[k / 2] == entropy@.take(i as int)[k / 2]);
                }
                assert((2 * i) / 2 == i as int);
                assert((2 * i + 1) / 2 == i as int);
                assert((2 * i) % 2 == 0);
                assert((2 * i + 1) % 2 == 1);
            }
        }
        i += 1;
    }
    assert(entropy@.take(entropy@.len() as int) =~= entropy@);
    r
}

} // verus!

use vstd::prelude::*;

use vstd::utf8::{decode_utf8, encode_utf8, valid_utf8};

use crate::contracts::semantics::JsonValue;
use crate::text::{
    decimal, decimal_value, digit_char, lex_lt, push_char, push_decimal, push_str, str_chars, str_eq,
    str_from_utf8, str_lt, bytes_eq,
};

verus! {

/// A scalar of a canonical JSON preimage: a string or an unsigned integer.
#[derive(Clone, Debug, PartialEq, Eq)]
pub enum CanonicalScalar {
    Text(String),
    Number(u64),
}

/// The mathematical value of a [`CanonicalScalar`].
pub enum ScalarView {
    Text(Seq<char>),
    Number(nat),
}

impl View for CanonicalScalar {
    type V = ScalarView;

    open spec fn view(&self) -> ScalarView {
        match self {
            CanonicalScalar::Text(s) => ScalarView::Text(s@),
            CanonicalScalar::Number(n) => ScalarView::Number(*n as nat),
        }
    }
}

pub open spec fn scalars_view(items: Seq<CanonicalScalar>) -> Seq<ScalarView> {
    items.map_values(|x: CanonicalScalar| x@)
}

pub open spec fn hex_digit(n: nat) -> char {
    if n < 10 {
        digit_char(n)
    } else {
        ('a' as u32 + (n - 10)) as char
    }
}

/// How a JSON string writer renders one character: quote, backslash and the
/// short control escapes, `\u00XX` for other characters below U+0020, and
/// every other character as itself.
pub open spec fn json_escape_char(c: char) -> Seq<char> {
    if c == '"' {
        seq!['\\', '"']
    } else if c == '\\' {
        seq!['\\', '\\']
    } else if c == '\x08' {
        seq!['\\', 'b']
    } else if c == '\t' {
        seq!['\\', 't']
    } else if c == '\n' {
        seq!['\\', 'n']
    } else if c == '\x0c' {
        seq!['\\', 'f']
    } else if c == '\r' {
        seq!['\\', 'r']
    } else if '\x1f' >= c {
        seq!['\\', 'u', '0', '0', hex_digit((c as nat) / 16), hex_digit((c as nat) % 16)]
    } else {
        seq![c]
    }
}

pub open spec fn json_escape(s: Seq<char>) -> Seq<char>
    decreases s.len(),
{
    if s.len() == 0 {
        Seq::empty()
    } else {
        json_escape(s.drop_last()) + json_escape_char(s.last())
    }
}

/// A JSON string literal.
pub open spec fn json_string(s: Seq<char>) -> Seq<char> {
    seq!['"'] + json_escape(s) + seq!['"']
}

pub open spec fn scalar_json(x: ScalarView) -> Seq<char> {
    match x {
        ScalarView::Text(s) => json_string(s),
        ScalarView::Number(n) => decimal(n),
    }
}

pub open spec fn join_scalars(items: Seq<ScalarView>) -> Seq<char>
    decreases items.len(),
{
    if items.len() == 0 {
        Seq::empty()
    } else if items.len() == 1 {
        scalar_json(items[0])
    } else {
        join_scalars(items.drop_last()) + seq![','] + scalar_json(items.last())
    }
}

/// Compact JSON text of an array of scalars.
pub open spec fn canonical_array(items: Seq<ScalarView>) -> Seq<char> {
    seq!['['] + join_scalars(items) + seq![']']
}

pub open spec fn member_json(key: Seq<char>, value: ScalarView) -> Seq<char> {
    json_string(key) + seq![':'] + scalar_json(value)
}

pub open spec fn join_members(keys: Seq<Seq<char>>, values: Seq<ScalarView>) -> Seq<char>
    decreases keys.len(),
{
    if keys.len() == 0 {
        Seq::empty()
    } else if keys.len() == 1 {
        member_json(keys[0], values[0])
    } else {
        join_members(keys.drop_last(), values.take(keys.len() - 1)) + seq![','] + member_json(
            keys.last(),
            values[keys.len() - 1],
        )
    }
}

/// Compact JSON text of an object whose members are given in key order.
pub open spec fn canonical_object(keys: Seq<Seq<char>>, values: Seq<ScalarView>) -> Seq<char> {
    seq!['{'] + join_members(keys, values) + seq!['}']
}

fn hex_char(n: u32) -> (c: char)
    requires
        n < 16,
    ensures
        c == hex_digit(n as nat),
{
    if n < 10 {
        ((48 + n) as u8) as char
    } else {
        ((97 + n - 10) as u8) as char
    }
}

fn push_escaped_char(out: &mut String, c: char)
    ensures
        final(out)@ == old(out)@ + json_escape_char(c),
{
    let ghost start = out@;
    if c == '"' {
        push_char(out, '\\');
        push_char(out, '"');
    } else if c == '\\' {
        push_char(out, '\\');
        push_char(out, '\\');
    } else if c == '\x08' {
        push_char(out, '\\');
        push_char(out, 'b');
    } else if c == '\t' {
        push_char(out, '\\');
        push_char(out, 't');
    } else if c == '\n' {
        push_char(out, '\\');
        push_char(out, 'n');
    } else if c == '\x0c' {
        push_char(out, '\\');
        push_char(out, 'f');
    } else if c == '\r' {
        push_char(out, '\\');
        push_char(out, 'r');
    } else if '\x1f' >= c {
        let code = c as u32;
        push_char(out, '\\');
        push_char(out, 'u');
        push_char(out, '0');
        push_char(out, '0');
        push_char(out, hex_char(code / 16));
        push_char(out, hex_char(code % 16));
    } else {
        push_char(out, c);
    }
    assert(out@ =~= start + json_escape_char(c));
}

/// Appends the JSON string literal of `s`.
pub fn push_json_string(out: &mut String, s: &str)
    ensures
        final(out)@ == old(out)@ + json_string(s@),
{
    let ghost start = out@;
    let v = str_chars(s);
    push_char(out, '"');
    let mut i: usize = 0;
    while i < v.len()
        invariant
            v@ == s@,
            i <= v@.len(),
            out@ == start + seq!['"'] + json_escape(s@.take(i as int)),
        decreases v.len() - i,
    {
        push_escaped_char(out, v[i]);
        proof {
            assert(s@.take(i + 1).drop_last() =~= s@.take(i as int));
            assert(s@.take(i + 1).last() == s@[i as int]);
        }
        i += 1;
    }
    push_char(out, '"');
    proof {
        assert(s@.take(v.len() as int) =~= s@);
    }
    assert(out@ =~= start + json_string(s@));
}

fn push_scalar(out: &mut String, x: &CanonicalScalar)
    ensures
        final(out)@ == old(out)@ + scalar_json(x@),
{
    match x {
        CanonicalScalar::Text(s) => push_json_string(out, s.as_str()),
        CanonicalScalar::Number(n) => push_decimal(out, *n),
    }
}

/// The compact JSON text of an array of scalars.
pub fn canonical_array_text(items: &Vec<CanonicalScalar>) -> (r: String)
    ensures
        r@ == canonical_array(scalars_view(items@)),
{
    let mut out = String::new();
    push_char(&mut out, '[');
    let mut i: usize = 0;
    while i < items.len()
        invariant
            i <= items@.len(),
            out@ == seq!['['] + join_scalars(scalars_view(items@.take(i as int))),
        decreases items.len() - i,
    {
        let ghost before = out@;
        if i > 0 {
            push_char(&mut out, ',');
        }
        push_scalar(&mut out, &items[i]);
        proof {
            let prev = scalars_view(items@.take(i as int));
            let next = scalars_view(items@.take(i + 1));
            assert(next.drop_last() =~= prev);
            assert(next.last() == items@[i as int]@);
            if i == 0 {
                assert(next =~= seq![items@[0]@]);
                assert(prev =~= Seq::<ScalarView>::empty());
            }
            assert(out@ =~= seq!['['] + join_scalars(next));
        }
        i += 1;
    }
    push_char(&mut out, ']');
    proof {
        assert(items@.take(items@.len() as int) =~= items@);
        assert(out@ =~= canonical_array(scalars_view(items@)));
    }
    out
}

/// The compact JSON text of an object whose members are given in order.
pub fn canonical_object_text(keys: &Vec<&str>, values: &Vec<CanonicalScalar>) -> (r: String)
    requires
        keys@.len() == values@.len(),
    ensures
        r@ == canonical_object(keys@.map_values(|k: &str| k@), scalars_view(values@)),
{
    let ghost kv = keys@.map_values(|k: &str| k@);
    let ghost vv = scalars_view(values@);
    let mut out = String::new();
    push_char(&mut out, '{');
    let mut i: usize = 0;
    while i < keys.len()
        invariant
            keys@.len() == values@.len(),
            kv == keys@.map_values(|k: &str| k@),
            vv == scalars_view(values@),
            i <= keys@.len(),
            out@ == seq!['{'] + join_members(kv.take(i as int), vv.take(i as int)),
        decreases keys.len() - i,
    {
        if i > 0 {
            push_char(&mut out, ',');
        }
        push_json_string(&mut out, keys[i]);
        push_char(&mut out, ':');
        push_scalar(&mut out, &values[i]);
        proof {
            let pk = kv.take(i as int);
            let nk = kv.take(i + 1);
            let pv = vv.take(i as int);
            let nv = vv.take(i + 1);
            assert(nk.drop_last() =~= pk);
            assert(nv.take(nk.len() - 1) =~= pv);
            assert(nk.last() == keys@[i as int]@);
            assert(nv[nk.len() - 1] == values@[i as int]@);
            if i == 0 {
                assert(pk =~= Seq::<Seq<char>>::empty());
            }
            assert(out@ =~= seq!['{'] + join_members(nk, nv));
        }
        i += 1;
    }
    push_char(&mut out, '}');
    proof {
        assert(kv.take(keys@.len() as int) =~= kv);
        assert(vv.take(keys@.len() as int) =~= vv);
        assert(out@ =~= canonical_object(kv, vv));
    }
    out
}

// ---------------------------------------------------------------- strict JSON

/// A JSON value as a mathematical object: what a [`JsonValue`] holds, with
/// texts as character sequences and members in the order written.
pub enum JsonView {
    Null,
    Bool(bool),
    Unsigned(u64),
    Negative(i64),
    OtherNumber,
    Text(Seq<char>),
    Array(Seq<JsonView>),
    Object(Seq<(Seq<char>, JsonView)>),
}

/// The elements of an array, each by its view.
pub open spec fn views_of(vs: Seq<JsonValue>) -> Seq<JsonView>
    decreases vs,
{
    Seq::new(vs.len(), |i: int| if 0 <= i < vs.len() { json_view(vs[i]) } else { JsonView::Null })
}

/// The view of a JSON value.
pub open spec fn json_view(v: JsonValue) -> JsonView
    decreases v,
{
    match v {
        JsonValue::Null => JsonView::Null,
        JsonValue::Bool(b) => JsonView::Bool(b),
        JsonValue::Unsigned(n) => JsonView::Unsigned(n),
        JsonValue::Negative(n) => JsonView::Negative(n),
        JsonValue::OtherNumber => JsonView::OtherNumber,
        JsonValue::Text(s) => JsonView::Text(s@),
        JsonValue::Array(vs) => JsonView::Array(
            Seq::new(vs@.len(), |i: int| if 0 <= i < vs@.len() { json_view(vs@[i]) } else { JsonView::Null }),
        ),
        JsonValue::Object(es) => JsonView::Object(
            Seq::new(
                es@.len(),
                |i: int|
                    if 0 <= i < es@.len() {
                        (es@[i].0@, json_view(es@[i].1))
                    } else {
                        (Seq::<char>::empty(), JsonView::Null)
                    },
            ),
        ),
    }
}

/// JSON whitespace: space, tab, line feed and carriage return.
pub open spec fn is_json_ws(c: char) -> bool {
    c == ' ' || c == '\t' || c == '\n' || c == '\r'
}

/// The first position from `i` on that does not hold whitespace.
pub open spec fn skip_ws(cs: Seq<char>, i: int) -> int
    decreases cs.len() - i,
{
    if 0 <= i < cs.len() && is_json_ws(cs[i]) {
        skip_ws(cs, i + 1)
    } else {
        i
    }
}

pub proof fn skip_ws_bounds(cs: Seq<char>, i: int)
    requires
        0 <= i <= cs.len(),
    ensures
        i <= skip_ws(cs, i) <= cs.len(),
    decreases cs.len() - i,
{
    if i < cs.len() && is_json_ws(cs[i]) {
        skip_ws_bounds(cs, i + 1);
    }
}

pub open spec fn is_ascii_digit(c: char) -> bool {
    '0' <= c <= '9'
}

/// The first position from `i` on that does not hold a decimal digit.
pub open spec fn digits_end(cs: Seq<char>, i: int) -> int
    decreases cs.len() - i,
{
    if 0 <= i < cs.len() && is_ascii_digit(cs[i]) {
        digits_end(cs, i + 1)
    } else {
        i
    }
}

/// A number: an optional minus, then `0` or a digit run without a leading
/// zero. A fraction or an exponent makes it a non-integer, which is refused,
/// as is an integer outside the 64-bit ranges and `-0`.
pub open spec fn parse_number(cs: Seq<char>, i: int) -> Option<(JsonView, int)> {
    let neg = 0 <= i < cs.len() && cs[i] == '-';
    let s = if neg { i + 1 } else { i };
    if !(0 <= s < cs.len() && is_ascii_digit(cs[s])) {
        None
    } else {
        let e = digits_end(cs, s);
        let n = decimal_value(cs.subrange(s, e));
        if cs[s] == '0' && e > s + 1 {
            None
        } else if e < cs.len() && (cs[e] == '.' || cs[e] == 'e' || cs[e] == 'E') {
            None
        } else if !neg {
            if n <= u64::MAX {
                Some((JsonView::Unsigned(n as u64), e))
            } else {
                None
            }
        } else if 1 <= n <= 0x8000_0000_0000_0000 {
            Some((JsonView::Negative((0 - n) as i64), e))
        } else {
            None
        }
    }
}

/// The value of a hexadecimal digit.
pub open spec fn hex_value(c: char) -> Option<nat> {
    if '0' <= c <= '9' {
        Some((c as nat - '0' as nat) as nat)
    } else if 'a' <= c <= 'f' {
        Some((c as nat - 'a' as nat + 10) as nat)
    } else if 'A' <= c <= 'F' {
        Some((c as nat - 'A' as nat + 10) as nat)
    } else {
        None
    }
}

/// The value of the four hexadecimal digits at `i`.
pub open spec fn hex4(cs: Seq<char>, i: int) -> Option<nat> {
    if 0 <= i && i + 4 <= cs.len() {
        match (hex_value(cs[i]), hex_value(cs[i + 1]), hex_value(cs[i + 2]), hex_value(cs[i + 3])) {
            (Some(a), Some(b), Some(c), Some(d)) => Some(a * 4096 + b * 256 + c * 16 + d),
            _ => None,
        }
    } else {
        None
    }
}

/// The character a one-letter escape stands for.
pub open spec fn simple_escape(c: char) -> Option<char> {
    if c == '"' {
        Some('"')
    } else if c == '\\' {
        Some('\\')
    } else if c == '/' {
        Some('/')
    } else if c == 'b' {
        Some('\x08')
    } else if c == 'f' {
        Some('\x0c')
    } else if c == 'n' {
        Some('\n')
    } else if c == 'r' {
        Some('\r')
    } else if c == 't' {
        Some('\t')
    } else {
        None
    }
}

/// The rest of a string from `i` on, after the characters `acc` read so far:
/// it ends at an unescaped quote; a character below U+0020 is refused;
/// escapes are the one-letter ones and `\uXXXX`, where a surrogate must come
/// as a leading one followed by a trailing one, and `\u0000` is refused.
pub open spec fn parse_chars(cs: Seq<char>, i: int, acc: Seq<char>) -> Option<(Seq<char>, int)>
    decreases cs.len() - i,
{
    if !(0 <= i < cs.len()) {
        None
    } else if cs[i] == '"' {
        Some((acc, i + 1))
    } else if cs[i] == '\\' {
        if i + 1 >= cs.len() {
            None
        } else if cs[i + 1] == 'u' {
            match hex4(cs, i + 2) {
                None => None,
                Some(n) => if n == 0 || (0xDC00 <= n <= 0xDFFF) {
                    None
                } else if 0xD800 <= n <= 0xDBFF {
                    if i + 7 < cs.len() && cs[i + 6] == '\\' && cs[i + 7] == 'u' {
                        match hex4(cs, i + 8) {
                            Some(m) => if 0xDC00 <= m <= 0xDFFF {
                                parse_chars(
                                    cs,
                                    i + 12,
                                    acc.push(((n - 0xD800) * 1024 + (m - 0xDC00) + 0x10000) as char),
                                )
                            } else {
                                None
                            },
                            None => None,
                        }
                    } else {
                        None
                    }
                } else {
                    parse_chars(cs, i + 6, acc.push(n as char))
                },
            }
        } else {
            match simple_escape(cs[i + 1]) {
                Some(c) => parse_chars(cs, i + 2, acc.push(c)),
                None => None,
            }
        }
    } else if (cs[i] as u32) < 0x20 {
        None
    } else {
        parse_chars(cs, i + 1, acc.push(cs[i]))
    }
}

/// A string whose opening quote stands at `i`.
pub open spec fn parse_string(cs: Seq<char>, i: int) -> Option<(Seq<char>, int)> {
    if 0 <= i < cs.len() && cs[i] == '"' {
        parse_chars(cs, i + 1, Seq::empty())
    } else {
        None
    }
}

/// Whether `cs` holds the literal `word` at `i`.
pub open spec fn literal_at(cs: Seq<char>, i: int, word: Seq<char>) -> bool {
    0 <= i && i + word.len() <= cs.len() && forall|k: int| 0 <= k < word.len() ==> cs[i + k] == word[k]
}

/// Whether some member read so far is named `key`.
pub open spec fn has_key(acc: Seq<(Seq<char>, JsonView)>, key: Seq<char>) -> bool {
    exists|j: int| 0 <= j < acc.len() && #[trigger] acc[j].0 == key
}

/// A value starting at `i`, inside at most `room` more nested arrays and
/// objects; with the position just after it.
pub open spec fn parse_value(cs: Seq<char>, i: int, room: nat) -> Option<(JsonView, int)>
    decreases cs.len() - i, 0int,
{
    if !(0 <= i < cs.len()) {
        None
    } else if cs[i] == 'n' {
        if literal_at(cs, i, seq!['n', 'u', 'l', 'l']) { Some((JsonView::Null, i + 4)) } else { None }
    } else if cs[i] == 't' {
        if literal_at(cs, i, seq!['t', 'r', 'u', 'e']) { Some((JsonView::Bool(true), i + 4)) } else { None }
    } else if cs[i] == 'f' {
        if literal_at(cs, i, seq!['f', 'a', 'l', 's', 'e']) {
            Some((JsonView::Bool(false), i + 5))
        } else {
            None
        }
    } else if cs[i] == '"' {
        match parse_string(cs, i) {
            Some((s, e)) => Some((JsonView::Text(s), e)),
            None => None,
        }
    } else if cs[i] == '-' || is_ascii_digit(cs[i]) {
        parse_number(cs, i)
    } else if cs[i] == '[' {
        if room == 0 {
            None
        } else {
            proof {
                skip_ws_bounds(cs, i + 1);
            }
            let k = skip_ws(cs, i + 1);
            if k < cs.len() && cs[k] == ']' {
                Some((JsonView::Array(Seq::empty()), k + 1))
            } else {
                parse_elements(cs, k, (room - 1) as nat, Seq::empty())
            }
        }
    } else if cs[i] == '{' {
        if room == 0 {
            None
        } else {
            proof {
                skip_ws_bounds(cs, i + 1);
            }
            let k = skip_ws(cs, i + 1);
            if k < cs.len() && cs[k] == '}' {
                Some((JsonView::Object(Seq::empty()), k + 1))
            } else {
                parse_members(cs, k, (room - 1) as nat, Seq::empty())
            }
        }
    } else {
        None
    }
}

/// The elements of an array from the value at `k` on, after the elements
/// `acc` read so far; with the position after the closing bracket.
pub open spec fn parse_elements(cs: Seq<char>, k: int, room: nat, acc: Seq<JsonView>) -> Option<
    (JsonView, int),
>
    decreases cs.len() - k, 1int,
{
    if !(0 <= k < cs.len()) {
        None
    } else {
        match parse_value(cs, k, room) {
            None => None,
            Some((v, e)) => if !(k < e <= cs.len()) {
                None
            } else {
                proof {
                    skip_ws_bounds(cs, e);
                }
                let m = skip_ws(cs, e);
                if m < cs.len() && cs[m] == ',' {
                    proof {
                        skip_ws_bounds(cs, m + 1);
                    }
                    parse_elements(cs, skip_ws(cs, m + 1), room, acc.push(v))
                } else if m < cs.len() && cs[m] == ']' {
                    Some((JsonView::Array(acc.push(v)), m + 1))
                } else {
                    None
                }
            },
        }
    }
}

/// The members of an object from the key at `k` on, after the members `acc`
/// read so far; a key that repeats an earlier one is refused.
pub open spec fn parse_members(
    cs: Seq<char>,
    k: int,
    room: nat,
    acc: Seq<(Seq<char>, JsonView)>,
) -> Option<(JsonView, int)>
    decreases cs.len() - k, 1int,
{
    if !(0 <= k < cs.len()) {
        None
    } else {
        match parse_string(cs, k) {
            None => None,
            Some((key, e1)) => if !(k < e1 <= cs.len()) || has_key(acc, key) {
                None
            } else {
                proof {
                    skip_ws_bounds(cs, e1);
                }
                let c = skip_ws(cs, e1);
                if !(c < cs.len() && cs[c] == ':') {
                    None
                } else {
                    proof {
                        skip_ws_bounds(cs, c + 1);
                    }
                    let v0 = skip_ws(cs, c + 1);
                    match parse_value(cs, v0, room) {
                        None => None,
                        Some((v, e)) => if !(v0 < e <= cs.len()) {
                            None
                        } else {
                            proof {
                                skip_ws_bounds(cs, e);
                            }
                            let m = skip_ws(cs, e);
                            if m < cs.len() && cs[m] == ',' {
                                proof {
                                    skip_ws_bounds(cs, m + 1);
                                }
                                parse_members(cs, skip_ws(cs, m + 1), room, acc.push((key, v)))
                            } else if m < cs.len() && cs[m] == '}' {
                                Some((JsonView::Object(acc.push((key, v))), m + 1))
                            } else {
                                None
                            }
                        },
                    }
                }
            },
        }
    }
}

/// The deepest nesting of arrays and objects a document may have.
pub open spec fn max_nesting() -> nat {
    127
}

/// A whole document: optional whitespace, one value, optional whitespace.
pub open spec fn json_document(cs: Seq<char>) -> Option<JsonView> {
    match parse_value(cs, skip_ws(cs, 0), max_nesting()) {
        Some((v, e)) => if skip_ws(cs, e) == cs.len() {
            Some(v)
        } else {
            None
        },
        None => None,
    }
}

/// Strict JSON: bytes that do not start with the byte 0xEF (which a byte
/// order mark would) and hold no NUL byte, that are valid UTF-8, and whose
/// characters form one JSON document whose numbers are all 64-bit integers,
/// whose objects repeat no key, and whose strings hold no NUL.
pub open spec fn strict_json(b: Seq<u8>) -> Option<JsonView> {
    if (b.len() > 0 && b[0] == 0xEF) || b.contains(0u8) || !valid_utf8(b) {
        None
    } else {
        json_document(decode_utf8(b))
    }
}

/// An escape at `i` (where a backslash stands): the character it stands
/// for and the position after it.
pub open spec fn escape_step(cs: Seq<char>, i: int) -> Option<(char, int)> {
    if i + 1 >= cs.len() {
        None
    } else if cs[i + 1] == 'u' {
        match hex4(cs, i + 2) {
            None => None,
            Some(n) => if n == 0 || (0xDC00 <= n <= 0xDFFF) {
                None
            } else if 0xD800 <= n <= 0xDBFF {
                if i + 7 < cs.len() && cs[i + 6] == '\\' && cs[i + 7] == 'u' {
                    match hex4(cs, i + 8) {
                        Some(m) => if 0xDC00 <= m <= 0xDFFF {
                            Some((((n - 0xD800) * 1024 + (m - 0xDC00) + 0x10000) as char, i + 12))
                        } else {
                            None
                        },
                        None => None,
                    }
                } else {
                    None
                }
            } else {
                Some((n as char, i + 6))
            },
        }
    } else {
        match simple_escape(cs[i + 1]) {
            Some(c) => Some((c, i + 2)),
            None => None,
        }
    }
}

proof fn parse_chars_escape(cs: Seq<char>, i: int, acc: Seq<char>)
    requires
        0 <= i < cs.len(),
        cs[i] == '\\',
    ensures
        parse_chars(cs, i, acc) == match escape_step(cs, i) {
            Some((c, n)) => parse_chars(cs, n, acc.push(c)),
            None => None,
        },
{
}

fn escape_at(cs: &Vec<char>, j: usize) -> (r: Option<(char, usize)>)
    requires
        j < cs@.len(),
    ensures
        match escape_step(cs@, j as int) {
            Some((c, n)) => r == Some((c, n as usize)) && j < n <= cs@.len(),
            None => r is None,
        },
{
    let len = cs.len();
    if j + 1 >= len {
        return None;
    }
    let x = cs[j + 1];
    if x == 'u' {
        let n = match hex4_at(cs, j + 2) {
            Some(n) => n,
            None => return None,
        };
        if n == 0 || (0xDC00 <= n && n <= 0xDFFF) {
            None
        } else if 0xD800 <= n && n <= 0xDBFF {
            if !(len - j > 7 && cs[j + 6] == '\\' && cs[j + 7] == 'u') {
                return None;
            }
            let m = match hex4_at(cs, j + 8) {
                Some(m) => m,
                None => return None,
            };
            if !(0xDC00 <= m && m <= 0xDFFF) {
                return None;
            }
            let code = (n - 0xD800) * 1024 + (m - 0xDC00) + 0x10000;
            match char_from_u32(code) {
                Some(ch) => {
                    proof {
                        vstd::utf8::char_u32_cast(ch, code);
                    }
                    Some((ch, j + 12))
                },
                None => None,
            }
        } else {
            match char_from_u32(n) {
                Some(ch) => {
                    proof {
                        vstd::utf8::char_u32_cast(ch, n);
                    }
                    Some((ch, j + 6))
                },
                None => None,
            }
        }
    } else {
        match simple_escape_of(x) {
            Some(ch) => Some((ch, j + 2)),
            None => None,
        }
    }
}

/// Why bytes are refused as strict or canonical JSON.
#[derive(Clone, Copy, Debug, PartialEq, Eq, Structural)]
pub enum CanonicalError {
    /// A leading 0xEF byte or a NUL byte.
    ForbiddenByte,
    /// Not valid UTF-8.
    NotUtf8,
    /// Not one strict JSON document.
    Syntax,
    /// Valid, but not written as its canonical text.
    NotCanonical,
}

/// `char::from_u32`: the character whose scalar value is `n`, where `n` is a
/// Unicode scalar value (at most U+10FFFF and not a surrogate), and `None`
/// otherwise.
#[verifier::external_body]
fn char_from_u32(n: u32) -> (r: Option<char>)
    ensures
        r is Some <==> vstd::utf8::is_scalar(n),
        r matches Some(c) ==> c as u32 == n,
{
    char::from_u32(n)
}

/// An exec result read as what a spec parse gives.
pub open spec fn parsed_as(r: Option<(JsonValue, usize)>, s: Option<(JsonView, int)>) -> bool {
    match s {
        Some((w, e)) => r matches Some((v, e2)) && json_view(v) == w && e2 == e,
        None => r is None,
    }
}

fn skip_ws_at(cs: &Vec<char>, i: usize) -> (r: usize)
    requires
        i <= cs@.len(),
    ensures
        r == skip_ws(cs@, i as int),
        i <= r <= cs@.len(),
{
    let mut j = i;
    while j < cs.len() && (cs[j] == ' ' || cs[j] == '\t' || cs[j] == '\n' || cs[j] == '\r')
        invariant
            i <= j <= cs@.len(),
            skip_ws(cs@, i as int) == skip_ws(cs@, j as int),
        decreases cs.len() - j,
    {
        j += 1;
    }
    j
}

proof fn decimal_prefix_le(cs: Seq<char>, s: int, j: int, k: int)
    requires
        0 <= s <= j <= k <= cs.len(),
        forall|m: int| s <= m < k ==> is_ascii_digit(#[trigger] cs[m]),
    ensures
        decimal_value(cs.subrange(s, j)) <= decimal_value(cs.subrange(s, k)),
    decreases k - j,
{
    if j < k {
        decimal_prefix_le(cs, s, j, k - 1);
        assert(cs.subrange(s, k).drop_last() =~= cs.subrange(s, k - 1));
    }
}

proof fn digits_end_facts(cs: Seq<char>, i: int)
    requires
        0 <= i <= cs.len(),
    ensures
        i <= digits_end(cs, i) <= cs.len(),
        forall|m: int| i <= m < digits_end(cs, i) ==> is_ascii_digit(#[trigger] cs[m]),
        digits_end(cs, i) < cs.len() ==> !is_ascii_digit(cs[digits_end(cs, i)]),
    decreases cs.len() - i,
{
    if i < cs.len() && is_ascii_digit(cs[i]) {
        digits_end_facts(cs, i + 1);
    }
}

fn parse_number_at(cs: &Vec<char>, i: usize) -> (r: Option<(JsonValue, usize)>)
    requires
        i < cs@.len(),
    ensures
        parsed_as(r, parse_number(cs@, i as int)),
        r matches Some((_, e)) ==> i < e <= cs@.len(),
{
    let len = cs.len();
    let neg = cs[i] == '-';
    let s = if neg {
        i + 1
    } else {
        i
    };
    if !(s < len && '0' <= cs[s] && cs[s] <= '9') {
        return None;
    }
    proof {
        digits_end_facts(cs@, s as int);
    }
    let mut e = s;
    let mut n: u64 = 0;
    assert(cs@.subrange(s as int, s as int) =~= Seq::<char>::empty());
    while e < cs.len() && '0' <= cs[e] && cs[e] <= '9'
        invariant
            i < cs@.len(),
            neg == (cs@[i as int] == '-'),
            s as int == (if neg { i + 1 } else { i as int }),
            s < cs@.len(),
            s <= e <= cs@.len(),
            forall|m: int| s <= m < e ==> is_ascii_digit(#[trigger] cs@[m]),
            n == decimal_value(cs@.subrange(s as int, e as int)),
            digits_end(cs@, s as int) == digits_end(cs@, e as int),
            s as int <= digits_end(cs@, s as int) <= cs@.len(),
            forall|m: int| s <= m < digits_end(cs@, s as int) ==> is_ascii_digit(#[trigger] cs@[m]),
        decreases cs.len() - e,
    {
        let d = (cs[e] as u32 - '0' as u32) as u64;
        let next: u128 = n as u128 * 10 + d as u128;
        assert(cs@.subrange(s as int, e + 1).drop_last() =~= cs@.subrange(s as int, e as int));
        if next > u64::MAX as u128 {
            proof {
                assert(decimal_value(cs@.subrange(s as int, e + 1)) == next);
                digits_end_facts(cs@, e + 1);
                let de = digits_end(cs@, s as int);
                decimal_prefix_le(cs@, s as int, e + 1, de);

            }
            return None;
        }
        n = next as u64;
        e += 1;
    }
    if cs[s] == '0' && e > s + 1 {
        return None;
    }
    if e < cs.len() && (cs[e] == '.' || cs[e] == 'e' || cs[e] == 'E') {
        return None;
    }
    if !neg {
        Some((JsonValue::Unsigned(n), e))
    } else if n >= 1 && n <= 0x8000_0000_0000_0000 {
        let v: i64 = if n == 0x8000_0000_0000_0000 {
            i64::MIN
        } else {
            0 - (n as i64)
        };
        Some((JsonValue::Negative(v), e))
    } else {
        None
    }
}

fn hex_value_of(c: char) -> (r: Option<u32>)
    ensures
        match hex_value(c) {
            Some(n) => r == Some(n as u32),
            None => r is None,
        },
{
    if '0' <= c && c <= '9' {
        Some(c as u32 - '0' as u32)
    } else if 'a' <= c && c <= 'f' {
        Some(c as u32 - 'a' as u32 + 10)
    } else if 'A' <= c && c <= 'F' {
        Some(c as u32 - 'A' as u32 + 10)
    } else {
        None
    }
}

fn hex4_at(cs: &Vec<char>, i: usize) -> (r: Option<u32>)
    requires
        i <= cs@.len(),
    ensures
        match hex4(cs@, i as int) {
            Some(n) => r == Some(n as u32) && n < 0x10000,
            None => r is None,
        },
{
    if cs.len() - i < 4 {
        return None;
    }
    let a = match hex_value_of(cs[i]) {
        Some(x) => x,
        None => return None,
    };
    let b = match hex_value_of(cs[i + 1]) {
        Some(x) => x,
        None => return None,
    };
    let c = match hex_value_of(cs[i + 2]) {
        Some(x) => x,
        None => return None,
    };
    let d = match hex_value_of(cs[i + 3]) {
        Some(x) => x,
        None => return None,
    };
    assert(a < 16 && b < 16 && c < 16 && d < 16);
    Some(a * 4096 + b * 256 + c * 16 + d)
}

fn simple_escape_of(c: char) -> (r: Option<char>)
    ensures
        r == simple_escape(c),
{
    if c == '"' {
        Some('"')
    } else if c == '\\' {
        Some('\\')
    } else if c == '/' {
        Some('/')
    } else if c == 'b' {
        Some('\x08')
    } else if c == 'f' {
        Some('\x0c')
    } else if c == 'n' {
        Some('\n')
    } else if c == 'r' {
        Some('\r')
    } else if c == 't' {
        Some('\t')
    } else {
        None
    }
}

fn parse_string_at(cs: &Vec<char>, i: usize) -> (r: Option<(String, usize)>)
    requires
        i < cs@.len(),
    ensures
        match parse_string(cs@, i as int) {
            Some((t, e)) => r matches Some((s, e2)) && s@ == t && e2 == e,
            None => r is None,
        },
        r matches Some((_, e)) ==> i < e <= cs@.len(),
{
    if cs[i] != '"' {
        return None;
    }
    let len = cs.len();
    let mut out = String::new();
    let mut j = i + 1;
    assert(out@ =~= Seq::<char>::empty());
    loop
        invariant
            len == cs@.len(),
            i < j <= len,
            parse_string(cs@, i as int) == parse_chars(cs@, j as int, out@),
        decreases len - j,
    {
        if j >= len {
            return None;
        }
        let c = cs[j];
        if c == '"' {
            return Some((out, j + 1));
        } else if c == '\\' {
            proof {
                parse_chars_escape(cs@, j as int, out@);
            }
            match escape_at(cs, j) {
                Some((ch, n)) => {
                    push_char(&mut out, ch);
                    j = n;
                },
                None => return None,
            }
        } else if (c as u32) < 0x20 {
            return None;
        } else {
            push_char(&mut out, c);
            j = j + 1;
        }
    }
}

/// The members of an object, each by its name and view.
pub open spec fn members_of(es: Seq<(String, JsonValue)>) -> Seq<(Seq<char>, JsonView)> {
    Seq::new(
        es.len(),
        |i: int|
            if 0 <= i < es.len() {
                (es[i].0@, json_view(es[i].1))
            } else {
                (Seq::<char>::empty(), JsonView::Null)
            },
    )
}

fn key_taken(acc: &Vec<(String, JsonValue)>, key: &str) -> (r: bool)
    ensures
        r == has_key(members_of(acc@), key@),
{
    let mut j: usize = 0;
    while j < acc.len()
        invariant
            j <= acc@.len(),
            forall|m: int| 0 <= m < j ==> acc@[m].0@ != key@,
        decreases acc.len() - j,
    {
        if str_eq(acc[j].0.as_str(), key) {
            assert(members_of(acc@)[j as int].0 == key@);
            return true;
        }
        j += 1;
    }
    proof {
        if has_key(members_of(acc@), key@) {
            let m = choose|m: int| 0 <= m < members_of(acc@).len() && #[trigger] members_of(acc@)[m].0 == key@;
            assert(acc@[m].0@ == key@);
        }
    }
    false
}

fn word_at(cs: &Vec<char>, i: usize, word: &Vec<char>) -> (r: bool)
    requires
        i <= cs@.len(),
    ensures
        r == literal_at(cs@, i as int, word@),
{
    if cs.len() - i < word.len() {
        return false;
    }
    let mut k: usize = 0;
    while k < word.len()
        invariant
            i + word@.len() <= cs.len(),
            k <= word@.len(),
            forall|m: int| 0 <= m < k ==> cs@[i + m] == word@[m],
        decreases word.len() - k,
    {
        if cs[i + k] != word[k] {
            return false;
        }
        k += 1;
    }
    true
}

/// Reads the value at `i` (see `parse_value`).
fn parse_value_at(cs: &Vec<char>, i: usize, room: u8) -> (r: Option<(JsonValue, usize)>)
    requires
        i <= cs@.len(),
    ensures
        parsed_as(r, parse_value(cs@, i as int, room as nat)),
        r matches Some((_, e)) ==> i < e <= cs@.len(),
    decreases cs@.len() - i,
{
    let len = cs.len();
    if i >= len {
        return None;
    }
    let c = cs[i];
    if c == 'n' {
        let w = vec!['n', 'u', 'l', 'l'];
        assert(w@ =~= seq!['n', 'u', 'l', 'l']);
        if word_at(cs, i, &w) {
            Some((JsonValue::Null, i + 4))
        } else {
            None
        }
    } else if c == 't' {
        let w = vec!['t', 'r', 'u', 'e'];
        assert(w@ =~= seq!['t', 'r', 'u', 'e']);
        if word_at(cs, i, &w) {
            Some((JsonValue::Bool(true), i + 4))
        } else {
            None
        }
    } else if c == 'f' {
        let w = vec!['f', 'a', 'l', 's', 'e'];
        assert(w@ =~= seq!['f', 'a', 'l', 's', 'e']);
        if word_at(cs, i, &w) {
            Some((JsonValue::Bool(false), i + 5))
        } else {
            None
        }
    } else if c == '"' {
        match parse_string_at(cs, i) {
            Some((s, e)) => Some((JsonValue::Text(s), e)),
            None => None,
        }
    } else if c == '-' || ('0' <= c && c <= '9') {
        parse_number_at(cs, i)
    } else if c == '[' {
        if room == 0 {
            return None;
        }
        let k0 = skip_ws_at(cs, i + 1);
        if k0 < len && cs[k0] == ']' {
            let empty: Vec<JsonValue> = Vec::new();
            let r = JsonValue::Array(empty);
            assert(json_view(r) == JsonView::Array(Seq::empty())) by {
                assert(views_of(Seq::<JsonValue>::empty()) =~= Seq::<JsonView>::empty());
                assert(json_view(r)->Array_0 =~= Seq::<JsonView>::empty());
            }
            return Some((r, k0 + 1));
        }
        let mut acc: Vec<JsonValue> = Vec::new();
        let mut k = k0;
        assert(views_of(acc@) =~= Seq::<JsonView>::empty());
        loop
            invariant
                len == cs@.len(),
                i < k <= len,
                room > 0,
                parse_value(cs@, i as int, room as nat) == parse_elements(
                    cs@,
                    k as int,
                    (room - 1) as nat,
                    views_of(acc@),
                ),
            decreases len - k,
        {
            if k >= len {
                return None;
            }
            match parse_value_at(cs, k, room - 1) {
                None => return None,
                Some((v, e)) => {
                    let m = skip_ws_at(cs, e);
                    let ghost before = acc@;
                    if m < len && cs[m] == ',' {
                        let k2 = skip_ws_at(cs, m + 1);
                        acc.push(v);
                        assert(views_of(acc@) =~= views_of(before).push(json_view(acc@.last())));
                        k = k2;
                    } else if m < len && cs[m] == ']' {
                        acc.push(v);
                        assert(views_of(acc@) =~= views_of(before).push(json_view(acc@.last())));
                        let r = JsonValue::Array(acc);
                        assert(json_view(r)->Array_0 =~= views_of(before).push(json_view(v)));
                        return Some((r, m + 1));
                    } else {
                        return None;
                    }
                },
            }
        }
    } else if c == '{' {
        if room == 0 {
            return None;
        }
        let k0 = skip_ws_at(cs, i + 1);
        if k0 < len && cs[k0] == '}' {
            let empty: Vec<(String, JsonValue)> = Vec::new();
            let r = JsonValue::Object(empty);
            assert(json_view(r) == JsonView::Object(Seq::empty())) by {
                assert(json_view(r)->Object_0 =~= Seq::<(Seq<char>, JsonView)>::empty());
            }
            return Some((r, k0 + 1));
        }
        let mut acc: Vec<(String, JsonValue)> = Vec::new();
        let mut k = k0;
        assert(members_of(acc@) =~= Seq::<(Seq<char>, JsonView)>::empty());
        loop
            invariant
                len == cs@.len(),
                i < k <= len,
                room > 0,
                parse_value(cs@, i as int, room as nat) == parse_members(
                    cs@,
                    k as int,
                    (room - 1) as nat,
                    members_of(acc@),
                ),
            decreases len - k,
        {
            if k >= len {
                return None;
            }
            let (key, e1) = match parse_string_at(cs, k) {
                Some(x) => x,
                None => return None,
            };
            if !(k < e1 && e1 <= len) || key_taken(&acc, key.as_str()) {
                return None;
            }
            let c1 = skip_ws_at(cs, e1);
            if !(c1 < len && cs[c1] == ':') {
                return None;
            }
            let v0 = skip_ws_at(cs, c1 + 1);
            match parse_value_at(cs, v0, room - 1) {
                None => return None,
                Some((v, e)) => {
                    let m = skip_ws_at(cs, e);
                    let ghost before = acc@;
                    let ghost kv = key@;
                    if m < len && cs[m] == ',' {
                        let k2 = skip_ws_at(cs, m + 1);
                        acc.push((key, v));
                        assert(members_of(acc@) =~= members_of(before).push((kv, json_view(acc@.last().1))));
                        k = k2;
                    } else if m < len && cs[m] == '}' {
                        acc.push((key, v));
                        assert(members_of(acc@) =~= members_of(before).push((kv, json_view(acc@.last().1))));
                        let r = JsonValue::Object(acc);
                        assert(json_view(r)->Object_0 =~= members_of(before).push((kv, json_view(v))));
                        return Some((r, m + 1));
                    } else {
                        return None;
                    }
                },
            }
        }
    } else {
        None
    }
}

/// Whether `b` holds a NUL byte.
fn has_nul(b: &[u8]) -> (r: bool)
    ensures
        r == b@.contains(0u8),
{
    let mut i: usize = 0;
    while i < b.len()
        invariant
            i <= b@.len(),
            forall|m: int| 0 <= m < i ==> b@[m] != 0u8,
        decreases b.len() - i,
    {
        if b[i] == 0 {
            assert(b@[i as int] == 0u8);
            return true;
        }
        i += 1;
    }
    false
}

/// Reads strict JSON (see `strict_json`): the bytes must not start with
/// 0xEF or hold a NUL byte, must be valid UTF-8, and must form one JSON
/// document with only 64-bit integer numbers, no repeated object key, no
/// NUL in a string, and at most 127 nested arrays and objects. Objects keep
/// their members in the order written.
pub fn parse_strict_value(bytes: &[u8]) -> (r: Result<JsonValue, CanonicalError>)
    ensures
        r is Ok <==> strict_json(bytes@) is Some,
        r matches Ok(v) ==> strict_json(bytes@) == Some(json_view(v)),
        r != Err::<JsonValue, CanonicalError>(CanonicalError::NotCanonical),
        (bytes@.len() > 0 && bytes@[0] == 0xEF) || bytes@.contains(0u8) ==> r == Err::<
            JsonValue,
            CanonicalError,
        >(CanonicalError::ForbiddenByte),
{
    if (bytes.len() > 0 && bytes[0] == 0xEF) || has_nul(bytes) {
        return Err(CanonicalError::ForbiddenByte);
    }
    let text = match str_from_utf8(bytes) {
        Some(t) => t,
        None => return Err(CanonicalError::NotUtf8),
    };
    proof {
        vstd::utf8::encode_utf8_decode_utf8(text@);
    }
    let cs = str_chars(text);
    assert(cs@ == decode_utf8(bytes@));
    let start = skip_ws_at(&cs, 0);
    match parse_value_at(&cs, start, 127) {
        Some((v, e)) => if skip_ws_at(&cs, e) == cs.len() {
            Ok(v)
        } else {
            Err(CanonicalError::Syntax)
        },
        None => Err(CanonicalError::Syntax),
    }
}

// ---------------------------------------------------------------- canonical JSON text

/// The compact JSON text of a value, members in the order held.
pub open spec fn json_text(v: JsonView) -> Seq<char>
    decreases v,
{
    match v {
        JsonView::Null => seq!['n', 'u', 'l', 'l'],
        JsonView::Bool(b) => if b {
            seq!['t', 'r', 'u', 'e']
        } else {
            seq!['f', 'a', 'l', 's', 'e']
        },
        JsonView::Unsigned(n) => decimal(n as nat),
        JsonView::Negative(n) => if n < 0 {
            seq!['-'] + decimal((0 - n) as nat)
        } else {
            decimal(n as nat)
        },
        JsonView::OtherNumber => Seq::empty(),
        JsonView::Text(s) => json_string(s),
        JsonView::Array(vs) => seq!['['] + elements_text(vs) + seq![']'],
        JsonView::Object(es) => seq!['{'] + members_text(es) + seq!['}'],
    }
}

/// The texts of array elements, comma-separated.
pub open spec fn elements_text(vs: Seq<JsonView>) -> Seq<char>
    decreases vs,
{
    if vs.len() == 0 {
        Seq::empty()
    } else if vs.len() == 1 {
        json_text(vs[0])
    } else {
        elements_text(vs.drop_last()) + seq![','] + json_text(vs.last())
    }
}

/// The texts of object members, `"name":value`, comma-separated.
pub open spec fn members_text(es: Seq<(Seq<char>, JsonView)>) -> Seq<char>
    decreases es,
{
    if es.len() == 0 {
        Seq::empty()
    } else if es.len() == 1 {
        json_string(es[0].0) + seq![':'] + json_text(es[0].1)
    } else {
        members_text(es.drop_last()) + seq![','] + json_string(es.last().0) + seq![':'] + json_text(
            es.last().1,
        )
    }
}

/// Every object in `v` holds its members in strictly rising key order, as
/// a sorted map writes them.
pub open spec fn keys_sorted(v: JsonView) -> bool
    decreases v,
{
    match v {
        JsonView::Array(vs) => forall|i: int| 0 <= i < vs.len() ==> keys_sorted(#[trigger] vs[i]),
        JsonView::Object(es) => {
            &&& forall|i: int| 0 <= i < es.len() - 1 ==> lex_lt(#[trigger] es[i].0, es[i + 1].0)
            &&& forall|i: int| 0 <= i < es.len() ==> keys_sorted(#[trigger] es[i].1)
        },
        _ => true,
    }
}

/// The canonical bytes of a value: its compact text with members in key
/// order, then a line feed, in UTF-8.
pub open spec fn canonical_text(v: JsonView) -> Seq<u8> {
    encode_utf8(json_text(v).push('\n'))
}

/// Appends the compact JSON text of `v`, members in the order held.
pub(crate) fn write_json(out: &mut String, v: &JsonValue)
    ensures
        final(out)@ == old(out)@ + json_text(json_view(*v)),
    decreases v,
{
    let ghost start = out@;
    match v {
        JsonValue::Null => {
            push_char(out, 'n');
            push_char(out, 'u');
            push_char(out, 'l');
            push_char(out, 'l');
            assert(out@ =~= start + json_text(json_view(*v)));
        },
        JsonValue::Bool(b) => {
            if *b {
                push_char(out, 't');
                push_char(out, 'r');
                push_char(out, 'u');
                push_char(out, 'e');
            } else {
                push_char(out, 'f');
                push_char(out, 'a');
                push_char(out, 'l');
                push_char(out, 's');
                push_char(out, 'e');
            }
            assert(out@ =~= start + json_text(json_view(*v)));
        },
        JsonValue::Unsigned(n) => push_decimal(out, *n),
        JsonValue::Negative(n) => {
            if *n < 0 {
                push_char(out, '-');
                let magnitude: u64 = if *n == i64::MIN {
                    0x8000_0000_0000_0000
                } else {
                    (0 - *n) as u64
                };
                push_decimal(out, magnitude);
            } else {
                push_decimal(out, *n as u64);
            }
            assert(out@ =~= start + json_text(json_view(*v)));
        },
        JsonValue::OtherNumber => {
            assert(out@ =~= start + json_text(json_view(*v)));
        },
        JsonValue::Text(t) => push_json_string(out, t.as_str()),
        JsonValue::Array(vs) => {
            let ghost items = views_of(vs@);
            assert(json_view(*v)->Array_0 =~= items);
            push_char(out, '[');
            let mut i: usize = 0;
            while i < vs.len()
                invariant
                    *v == JsonValue::Array(*vs),
                    json_view(*v)->Array_0 == items,
                    items == views_of(vs@),
                    items.len() == vs@.len(),
                    i <= vs@.len(),
                    out@ == start + seq!['['] + elements_text(items.take(i as int)),
                decreases vs.len() - i,
            {
                if i > 0 {
                    push_char(out, ',');
                }
                assert(decreases_to!(*v => vs@[i as int]));
                write_json(out, &vs[i]);
                proof {
                    let prev = items.take(i as int);
                    let next = items.take(i + 1);
                    assert(next.drop_last() =~= prev);
                    assert(next.last() == json_view(vs@[i as int]));
                    if i == 0 {
                        assert(prev =~= Seq::<JsonView>::empty());
                        assert(next.len() == 1);
                    }
                    assert(out@ =~= start + seq!['['] + elements_text(next));
                }
                i += 1;
            }
            push_char(out, ']');
            assert(items.take(vs@.len() as int) =~= items);
            assert(out@ =~= start + json_text(json_view(*v)));
        },
        JsonValue::Object(es) => {
            let ghost members = members_of(es@);
            assert(json_view(*v)->Object_0 =~= members);
            push_char(out, '{');
            let mut i: usize = 0;
            while i < es.len()
                invariant
                    *v == JsonValue::Object(*es),
                    json_view(*v)->Object_0 == members,
                    members == members_of(es@),
                    members.len() == es@.len(),
                    i <= es@.len(),
                    out@ == start + seq!['{'] + members_text(members.take(i as int)),
                decreases es.len() - i,
            {
                let ghost before = out@;
                if i > 0 {
                    push_char(out, ',');
                }
                push_json_string(out, es[i].0.as_str());
                push_char(out, ':');
                assert(decreases_to!(*v => es@[i as int].1));
                write_json(out, &es[i].1);
                proof {
                    let prev = members.take(i as int);
                    let next = members.take(i + 1);
                    assert(next.drop_last() =~= prev);
                    assert(next.last() == (es@[i as int].0@, json_view(es@[i as int].1)));
                    if i == 0 {
                        assert(prev =~= Seq::<(Seq<char>, JsonView)>::empty());
                        assert(next.len() == 1);
                    }
                    assert(out@ =~= start + seq!['{'] + members_text(next));
                }
                i += 1;
            }
            push_char(out, '}');
            assert(members.take(es@.len() as int) =~= members);
            assert(out@ =~= start + json_text(json_view(*v)));
        },
    }
}

/// Whether every object in `v` holds its members in strictly rising key
/// order.
fn sorted_keys(v: &JsonValue) -> (r: bool)
    ensures
        r == keys_sorted(json_view(*v)),
    decreases v,
{
    match v {
        JsonValue::Array(vs) => {
            let ghost items = views_of(vs@);
            assert(json_view(*v)->Array_0 =~= items);
            let mut i: usize = 0;
            while i < vs.len()
                invariant
                    *v == JsonValue::Array(*vs),
                    json_view(*v)->Array_0 == items,
                    items == views_of(vs@),
                    i <= vs@.len(),
                    forall|m: int| 0 <= m < i ==> keys_sorted(#[trigger] items[m]),
                decreases vs.len() - i,
            {
                assert(decreases_to!(*v => vs@[i as int]));
                if !sorted_keys(&vs[i]) {
                    assert(!keys_sorted(items[i as int]));
                    return false;
                }
                i += 1;
            }
            true
        },
        JsonValue::Object(es) => {
            let ghost members = members_of(es@);
            assert(json_view(*v)->Object_0 =~= members);
            let mut i: usize = 0;
            while i < es.len()
                invariant
                    *v == JsonValue::Object(*es),
                    json_view(*v)->Object_0 == members,
                    members == members_of(es@),
                    i <= es@.len(),
                    forall|m: int| 0 <= m < i ==> keys_sorted(#[trigger] members[m].1),
                    forall|m: int| 0 <= m < i - 1 ==> lex_lt(#[trigger] members[m].0, members[m + 1].0),
                decreases es.len() - i,
            {
                if i > 0 && !str_lt(es[i - 1].0.as_str(), es[i].0.as_str()) {
                    assert(!lex_lt(members[i - 1].0, members[i - 1 + 1].0));
                    return false;
                }
                assert(decreases_to!(*v => es@[i as int].1));
                if !sorted_keys(&es[i].1) {
                    assert(!keys_sorted(members[i as int].1));
                    return false;
                }
                i += 1;
            }
            true
        },
        _ => true,
    }
}

/// Reads canonical JSON: strict JSON (see `parse_strict_value`) whose
/// objects hold their members in strictly rising key order and whose bytes
/// are exactly its compact text followed by a line feed.
pub fn parse_canonical(bytes: &[u8]) -> (r: Result<JsonValue, CanonicalError>)
    ensures
        r is Ok <==> (strict_json(bytes@) matches Some(v) && keys_sorted(v) && canonical_text(v)
            == bytes@),
        r matches Ok(v) ==> strict_json(bytes@) == Some(json_view(v)),
        strict_json(bytes@) is None ==> r is Err && r != Err::<JsonValue, CanonicalError>(
            CanonicalError::NotCanonical,
        ),
{
    let v = match parse_strict_value(bytes) {
        Ok(v) => v,
        Err(e) => return Err(e),
    };
    if !sorted_keys(&v) {
        return Err(CanonicalError::NotCanonical);
    }
    let mut out = String::new();
    write_json(&mut out, &v);
    push_char(&mut out, '\n');
    let written = out.as_str().as_bytes();
    assert(out@ =~= json_text(json_view(v)).push('\n'));
    if bytes_eq(written, bytes) {
        Ok(v)
    } else {
        Err(CanonicalError::NotCanonical)
    }
}

// ---------------------------------------------------------------- members in key order

/// `es` with `m` inserted before the first member whose key sorts after
/// `m`'s (after every member where none does).
pub open spec fn insert_member(es: Seq<(Seq<char>, JsonView)>, m: (Seq<char>, JsonView)) -> Seq<
    (Seq<char>, JsonView),
>
    decreases es.len(),
{
    if es.len() == 0 {
        seq![m]
    } else if lex_lt(m.0, es[0].0) {
        seq![m] + es
    } else {
        seq![es[0]] + insert_member(es.drop_first(), m)
    }
}

/// The members in key order, members with equal keys in the order held.
pub open spec fn sort_members(es: Seq<(Seq<char>, JsonView)>) -> Seq<(Seq<char>, JsonView)>
    decreases es.len(),
{
    if es.len() == 0 {
        es
    } else {
        insert_member(sort_members(es.drop_last()), es.last())
    }
}

/// A value with the members of every object put in key order, as a JSON
/// map writes them.
pub open spec fn sort_json(w: JsonView) -> JsonView
    decreases w, 1int,
{
    match w {
        JsonView::Array(vs) => JsonView::Array(sorted_items(vs)),
        JsonView::Object(es) => JsonView::Object(sort_members(sorted_entries(es))),
        _ => w,
    }
}

/// Each element with its objects' members in key order.
pub open spec fn sorted_items(vs: Seq<JsonView>) -> Seq<JsonView>
    decreases vs, 0int,
{
    Seq::new(vs.len(), |i: int| if 0 <= i < vs.len() { sort_json(vs[i]) } else { JsonView::Null })
}

/// Each member with its value's objects' members in key order.
pub open spec fn sorted_entries(es: Seq<(Seq<char>, JsonView)>) -> Seq<(Seq<char>, JsonView)>
    decreases es, 0int,
{
    Seq::new(
        es.len(),
        |i: int|
            if 0 <= i < es.len() {
                (es[i].0, sort_json(es[i].1))
            } else {
                (Seq::<char>::empty(), JsonView::Null)
            },
    )
}

/// Where `insert_member` puts a member with key `key`.
pub open spec fn insert_pos(es: Seq<(Seq<char>, JsonView)>, key: Seq<char>) -> int
    decreases es.len(),
{
    if es.len() == 0 {
        0
    } else if lex_lt(key, es[0].0) {
        0
    } else {
        1 + insert_pos(es.drop_first(), key)
    }
}

proof fn insert_member_at(es: Seq<(Seq<char>, JsonView)>, m: (Seq<char>, JsonView))
    ensures
        0 <= insert_pos(es, m.0) <= es.len(),
        insert_member(es, m) == es.insert(insert_pos(es, m.0), m),
    decreases es.len(),
{
    if es.len() > 0 && !lex_lt(m.0, es[0].0) {
        insert_member_at(es.drop_first(), m);
        let p = insert_pos(es.drop_first(), m.0);
        assert(insert_member(es, m) =~= es.insert(p + 1, m));
    } else if es.len() > 0 {
        assert(insert_member(es, m) =~= es.insert(0, m));
    } else {
        assert(insert_member(es, m) =~= es.insert(0, m));
    }
}

proof fn insert_pos_step(es: Seq<(Seq<char>, JsonView)>, key: Seq<char>, k: int)
    requires
        0 <= k < es.len(),
        !lex_lt(key, es[k].0),
    ensures
        insert_pos(es.skip(k), key) == 1 + insert_pos(es.skip(k + 1), key),
{
    assert(es.skip(k).drop_first() =~= es.skip(k + 1));
}

fn insert_position(out: &Vec<(String, JsonValue)>, key: &str) -> (r: usize)
    ensures
        r == insert_pos(members_of(out@), key@),
{
    let ghost ms = members_of(out@);
    let mut k: usize = 0;
    assert(ms.skip(0) =~= ms);
    while k < out.len()
        invariant
            ms == members_of(out@),
            k <= out@.len(),
            insert_pos(ms, key@) == k + insert_pos(ms.skip(k as int), key@),
        decreases out.len() - k,
    {
        if str_lt(key, out[k].0.as_str()) {
            assert(ms.skip(k as int)[0] == ms[k as int]);
            return k;
        }
        proof {
            insert_pos_step(ms, key@, k as int);
        }
        k += 1;
    }
    assert(ms.skip(k as int).len() == 0);
    k
}

/// A copy of `v` with the members of every object in key order.
pub fn sorted_copy(v: &JsonValue) -> (r: JsonValue)
    ensures
        json_view(r) == sort_json(json_view(*v)),
    decreases v,
{
    match v {
        JsonValue::Null => JsonValue::Null,
        JsonValue::Bool(b) => JsonValue::Bool(*b),
        JsonValue::Unsigned(n) => JsonValue::Unsigned(*n),
        JsonValue::Negative(n) => JsonValue::Negative(*n),
        JsonValue::OtherNumber => JsonValue::OtherNumber,
        JsonValue::Text(t) => JsonValue::Text(t.clone()),
        JsonValue::Array(vs) => {
            let ghost items = views_of(vs@);
            assert(json_view(*v)->Array_0 =~= items);
            let mut out: Vec<JsonValue> = Vec::new();
            let mut i: usize = 0;
            while i < vs.len()
                invariant
                    *v == JsonValue::Array(*vs),
                    json_view(*v)->Array_0 == items,
                    items == views_of(vs@),
                    i <= vs@.len(),
                    out@.len() == i,
                    forall|j: int| 0 <= j < i ==> #[trigger] json_view(out@[j]) == sort_json(items[j]),
                decreases vs.len() - i,
            {
                assert(decreases_to!(*v => vs@[i as int]));
                let c = sorted_copy(&vs[i]);
                out.push(c);
                i += 1;
            }
            let ghost outs = out@;
            let r = JsonValue::Array(out);
            proof {
                assert(json_view(*v) == JsonView::Array(items));
                let got = json_view(r)->Array_0;
                let want = sort_json(JsonView::Array(items))->Array_0;
                assert(got.len() == outs.len());
                assert(want.len() == items.len());
                assert forall|j: int| 0 <= j < got.len() implies got[j] == want[j] by {
                    assert(got[j] == json_view(outs[j]));
                    assert(want[j] == sort_json(items[j]));
                }
                assert(got =~= want);
            }
            r
        },
        JsonValue::Object(es) => {
            let ghost members = members_of(es@);
            assert(json_view(*v)->Object_0 =~= members);
            let ghost mapped = Seq::new(
                members.len(),
                |k: int|
                    if 0 <= k < members.len() {
                        (members[k].0, sort_json(members[k].1))
                    } else {
                        (Seq::<char>::empty(), JsonView::Null)
                    },
            );
            let mut out: Vec<(String, JsonValue)> = Vec::new();
            let mut i: usize = 0;
            assert(mapped.take(0) =~= Seq::<(Seq<char>, JsonView)>::empty());
            assert(members_of(out@) =~= Seq::<(Seq<char>, JsonView)>::empty());
            while i < es.len()
                invariant
                    *v == JsonValue::Object(*es),
                    json_view(*v)->Object_0 == members,
                    members == members_of(es@),
                    mapped.len() == members.len(),
                    forall|k: int| 0 <= k < members.len() ==> #[trigger] mapped[k] == (members[k].0, sort_json(members[k].1)),
                    i <= es@.len(),
                    members_of(out@) == sort_members(mapped.take(i as int)),
                decreases es.len() - i,
            {
                assert(decreases_to!(*v => es@[i as int].1));
                let c = sorted_copy(&es[i].1);
                let key = es[i].0.clone();
                let p = insert_position(&out, key.as_str());
                let ghost before = members_of(out@);
                let ghost m = (key@, json_view(c));
                proof {
                    insert_member_at(before, m);
                    assert(mapped.take(i + 1).drop_last() =~= mapped.take(i as int));
                    assert(mapped.take(i + 1).last() == mapped[i as int]);
                    assert(mapped[i as int] == m);
                }
                out.insert(p, (key, c));
                assert(members_of(out@) =~= before.insert(p as int, m));
                i += 1;
            }
            assert(mapped.take(es@.len() as int) =~= mapped);
            let r = JsonValue::Object(out);
            assert(json_view(r)->Object_0 =~= members_of(out@));
            proof {
                assert(json_view(*v) == JsonView::Object(members));
                assert(sorted_entries(members) =~= mapped);
                assert(json_view(r) == JsonView::Object(members_of(out@)));
            }
            r
        },
    }
}

/// The canonical bytes of a value, as a JSON map writes it: the compact
/// text of the value with every object's members in key order, then a line
/// feed.
pub open spec fn canonical_bytes_of(w: JsonView) -> Seq<u8> {
    canonical_text(sort_json(w))
}

/// The canonical text of a value (see `canonical_bytes_of`).
pub fn canonical_string(v: &JsonValue) -> (r: String)
    ensures
        encode_utf8(r@) == canonical_bytes_of(json_view(*v)),
{
    let sorted = sorted_copy(v);
    let mut out = String::new();
    write_json(&mut out, &sorted);
    push_char(&mut out, '\n');
    assert(out@ =~= json_text(json_view(sorted)).push('\n'));
    out
}

} // verus!

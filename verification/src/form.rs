//! Explicit parsing of `application/x-www-form-urlencoded` request
//! bodies and query strings: segments split at `&`, a key before the
//! first `=`, and a value that is percent-decoded (`+` means space,
//! `%XX` means the character whose scalar value is the byte `XX`; keys
//! are matched as written).
//!
//! Decoding reads one escape as one character: consecutive escapes that
//! spell a multi-byte UTF-8 sequence are not recombined into the encoded
//! character. Non-ASCII text can always be sent as itself, unescaped.

use vstd::prelude::*;

use crate::strings::{push_char, str_eq};

verus! {

/// Index of the first occurrence of `c`, or the length if `c` is absent.
pub open spec fn first_of(s: Seq<char>, c: char) -> int
    decreases s.len(),
{
    if s.len() == 0 {
        0
    } else if s[0] == c {
        0
    } else {
        1 + first_of(s.skip(1), c)
    }
}

/// `first_of` is in bounds, hits `c`, and nothing before it is `c`.
pub proof fn lemma_first_of_bounds(s: Seq<char>, c: char)
    ensures
        0 <= first_of(s, c) <= s.len(),
        first_of(s, c) < s.len() ==> s[first_of(s, c)] == c,
        forall|j: int| 0 <= j < first_of(s, c) ==> s[j] != c,
    decreases s.len(),
{
    if s.len() > 0 && s[0] != c {
        lemma_first_of_bounds(s.skip(1), c);
        let f = first_of(s, c);
        if f < s.len() {
            assert(s.skip(1)[f - 1] == s[f]);
        }
        assert forall|j: int| 0 <= j < f implies s[j] != c by {
            if j > 0 {
                assert(s.skip(1)[j - 1] == s[j]);
            }
        }
    }
}

/// A hex digit as used in percent sequences, either case.
pub open spec fn is_url_hex(c: char) -> bool {
    ('0' <= c && c <= '9') || ('a' <= c && c <= 'f') || ('A' <= c && c <= 'F')
}

/// The value of a hex digit.
pub open spec fn hex_val(c: char) -> int {
    if '0' <= c && c <= '9' {
        c as int - '0' as int
    } else if 'a' <= c && c <= 'f' {
        c as int - 'a' as int + 10
    } else {
        c as int - 'A' as int + 10
    }
}

/// Whether every percent sequence in `s` is complete and hexadecimal.
pub open spec fn decode_ok(s: Seq<char>) -> bool
    decreases s.len(),
{
    if s.len() == 0 {
        true
    } else if s[0] == '%' {
        s.len() >= 3 && is_url_hex(s[1]) && is_url_hex(s[2]) && decode_ok(s.skip(3))
    } else {
        decode_ok(s.skip(1))
    }
}

/// The percent-decoded text of `s` (meaningful when `decode_ok(s)`).
/// Each `%XX` escape becomes the one character whose scalar value is the
/// byte `XX`; escapes are never combined, so a multi-byte UTF-8 sequence
/// written as escapes stays byte-per-character.
pub open spec fn decoded(s: Seq<char>) -> Seq<char>
    decreases s.len(),
{
    if s.len() == 0 {
        Seq::empty()
    } else if s[0] == '%' {
        if s.len() >= 3 && is_url_hex(s[1]) && is_url_hex(s[2]) {
            seq![(hex_val(s[1]) * 16 + hex_val(s[2])) as char] + decoded(s.skip(3))
        } else {
            decoded(s.skip(1))
        }
    } else if s[0] == '+' {
        seq![' '] + decoded(s.skip(1))
    } else {
        seq![s[0]] + decoded(s.skip(1))
    }
}

/// The key of one `key=value` segment: everything before the first `=`.
pub open spec fn segment_key(seg: Seq<char>) -> Seq<char> {
    seg.take(first_of(seg, '='))
}

/// The raw (still encoded) value of one segment: everything after the
/// first `=`, or empty if there is none.
pub open spec fn segment_value(seg: Seq<char>) -> Seq<char> {
    let e = first_of(seg, '=');
    if e == seg.len() {
        Seq::empty()
    } else {
        seg.skip(e + 1)
    }
}

/// The raw value of the first segment of `body` whose key is exactly
/// `key`, if any.
pub open spec fn raw_field(body: Seq<char>, key: Seq<char>) -> Option<Seq<char>>
    decreases body.len(),
    via raw_field_decreases
{
    let e = first_of(body, '&');
    let seg = body.take(e);
    if segment_key(seg) == key {
        Some(segment_value(seg))
    } else if e >= body.len() {
        None
    } else {
        raw_field(body.skip(e + 1), key)
    }
}

#[via_fn]
proof fn raw_field_decreases(body: Seq<char>, key: Seq<char>) {
    lemma_first_of_bounds(body, '&');
}

/// The decoded value of the first segment keyed `key`: absent when the
/// key is missing or its value has a malformed percent sequence.
pub open spec fn form_field(body: Seq<char>, key: Seq<char>) -> Option<Seq<char>> {
    match raw_field(body, key) {
        Some(v) => if decode_ok(v) {
            Some(decoded(v))
        } else {
            None
        },
        None => None,
    }
}

/// Find the first occurrence of `c` in `s`, or the length.
pub fn find_first(s: &str, c: char) -> (r: usize)
    ensures
        r == first_of(s@, c),
        r <= s@.len(),
        r < s@.len() ==> s@[r as int] == c,
        forall|j: int| 0 <= j < r ==> s@[j] != c,
{
    let len = s.unicode_len();
    let mut i: usize = 0;
    while i < len
        invariant
            i <= len,
            len == s@.len(),
            forall|j: int| 0 <= j < i ==> s@[j] != c,
        decreases len - i,
    {
        if s.get_char(i) == c {
            proof {
                lemma_first_of_bounds(s@, c);
            }
            return i;
        }
        i += 1;
    }
    proof {
        lemma_first_of_bounds(s@, c);
    }
    len
}

/// Whether `c` can stand in a percent sequence.
fn url_hex(c: char) -> (b: bool)
    ensures
        b == is_url_hex(c),
{
    ('0' <= c && c <= '9') || ('a' <= c && c <= 'f') || ('A' <= c && c <= 'F')
}

/// The value of a hex digit character.
fn hex_val_of(c: char) -> (v: u8)
    requires
        is_url_hex(c),
    ensures
        v == hex_val(c),
        v < 16,
{
    let x = c as u32;
    if x >= 97 {
        (x - 87) as u8
    } else if x >= 65 {
        (x - 55) as u8
    } else {
        (x - 48) as u8
    }
}

/// Percent-decode `s`; `None` exactly when some percent sequence is
/// incomplete or not hexadecimal.
pub fn percent_decode(s: &str) -> (r: Option<String>)
    ensures
        match r {
            Some(d) => decode_ok(s@) && d@ == decoded(s@),
            None => !decode_ok(s@),
        },
{
    let len = s.unicode_len();
    let mut out = String::new();
    let mut i: usize = 0;
    proof {
        assert(s@.skip(0) =~= s@);
        assert(out@ + decoded(s@) =~= decoded(s@));
    }
    while i < len
        invariant
            i <= len,
            len == s@.len(),
            decode_ok(s@) == decode_ok(s@.skip(i as int)),
            decoded(s@) == out@ + decoded(s@.skip(i as int)),
        decreases len - i,
    {
        let ghost pre = s@.skip(i as int);
        let ghost before = out@;
        let c = s.get_char(i);
        proof {
            assert(pre[0] == s@[i as int]);
        }
        if c == '%' {
            if len - i < 3 {
                proof {
                    assert(pre.len() < 3);
                }
                return None;
            }
            let c1 = s.get_char(i + 1);
            let c2 = s.get_char(i + 2);
            proof {
                assert(pre[1] == s@[i + 1]);
                assert(pre[2] == s@[i + 2]);
            }
            if !(url_hex(c1) && url_hex(c2)) {
                return None;
            }
            let b: u8 = hex_val_of(c1) * 16 + hex_val_of(c2);
            push_char(&mut out, b as char);
            i += 3;
            proof {
                assert(pre.skip(3) =~= s@.skip(i as int));
                assert(out@ + decoded(s@.skip(i as int)) =~= before + decoded(pre));
            }
        } else {
            let d = if c == '+' {
                ' '
            } else {
                c
            };
            push_char(&mut out, d);
            i += 1;
            proof {
                assert(pre.skip(1) =~= s@.skip(i as int));
                assert(out@ + decoded(s@.skip(i as int)) =~= before + decoded(pre));
            }
        }
    }
    proof {
        assert(s@.skip(len as int) =~= Seq::<char>::empty());
        assert(decoded(s@) =~= out@);
    }
    Some(out)
}

/// Look `key` up in `body` and decode its value.
pub fn form_value(body: &str, key: &str) -> (r: Option<String>)
    ensures
        match r {
            Some(v) => form_field(body@, key@) == Some(v@),
            None => form_field(body@, key@) is None,
        },
    decreases body@.len(),
{
    let len = body.unicode_len();
    let e = find_first(body, '&');
    let seg = body.substring_char(0, e);
    proof {
        lemma_first_of_bounds(body@, '&');
        assert(seg@ =~= body@.take(e as int));
    }
    let seg_len = seg.unicode_len();
    let eq = find_first(seg, '=');
    let k = seg.substring_char(0, eq);
    proof {
        assert(k@ =~= segment_key(seg@));
    }
    if str_eq(k, key) {
        let v = seg.substring_char(if eq == seg_len {
            seg_len
        } else {
            eq + 1
        }, seg_len);
        proof {
            assert(v@ =~= segment_value(seg@));
        }
        percent_decode(v)
    } else if e >= len {
        None
    } else {
        let rest = body.substring_char(e + 1, len);
        proof {
            assert(rest@ =~= body@.skip(e + 1));
        }
        form_value(rest, key)
    }
}

/// The query parameters of a confirmation request.
pub struct Parameters {
    pub subscription_token: String,
}

/// Extract the confirmation token from a query string; `None` is the
/// missing-parameter case.
pub fn parse_confirm_query(query: &str) -> (r: Option<Parameters>)
    ensures
        match r {
            Some(p) => form_field(query@, "subscription_token"@) == Some(p.subscription_token@),
            None => form_field(query@, "subscription_token"@) is None,
        },
{
    match form_value(query, "subscription_token") {
        Some(v) => Some(Parameters { subscription_token: v }),
        None => None,
    }
}

/// The two fields of a subscription form.
pub struct FormData {
    pub email: String,
    pub name: String,
}

/// Extract the subscription form from a body; both fields must be
/// present and well encoded.
pub fn parse_subscribe_form(body: &str) -> (r: Option<FormData>)
    ensures
        match r {
            Some(form) => form_field(body@, "name"@) == Some(form.name@) && form_field(
                body@,
                "email"@,
            ) == Some(form.email@),
            None => form_field(body@, "name"@) is None || form_field(body@, "email"@) is None,
        },
{
    let name = match form_value(body, "name") {
        Some(v) => v,
        None => { return None; },
    };
    let email = match form_value(body, "email") {
        Some(v) => v,
        None => { return None; },
    };
    Some(FormData { email, name })
}

} // verus!

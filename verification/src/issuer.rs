//! Token issuer: confirmation tokens are drawn from the operating system's
//! randomness (through version-4 UUIDs) and rendered as lowercase hex, a
//! URL-safe alphabet. Two 128-bit draws give well over 25 bytes of source
//! entropy per token.

use vstd::prelude::*;

use crate::strings::push_char;

verus! {

/// A lowercase hexadecimal digit.
pub open spec fn is_lower_hex_char(c: char) -> bool {
    ('0' <= c && c <= '9') || ('a' <= c && c <= 'f')
}

/// The lowercase hex character of a digit value below sixteen.
pub open spec fn hex_digit_char(v: int) -> char {
    if v < 10 {
        (v + '0' as int) as char
    } else {
        (v - 10 + 'a' as int) as char
    }
}

/// `width` lowercase hex characters of `v`, most significant first.
pub open spec fn hex_seq(v: nat, width: nat) -> Seq<char>
    decreases width,
{
    if width == 0 {
        Seq::empty()
    } else {
        hex_seq(v / 16, (width - 1) as nat).push(hex_digit_char((v % 16) as int))
    }
}

/// Every rendering has exactly `width` characters, all lowercase hex.
pub proof fn lemma_hex_seq_props(v: nat, width: nat)
    ensures
        hex_seq(v, width).len() == width,
        forall|i: int| 0 <= i < width ==> is_lower_hex_char(#[trigger] hex_seq(v, width)[i]),
    decreases width,
{
    if width > 0 {
        lemma_hex_seq_props(v / 16, (width - 1) as nat);
    }
}

/// Relies on uuid's Uuid::new_v4 and Uuid::as_u128: a freshly drawn
/// random value; nothing is promised about which value comes back.
#[verifier::external_body]
pub(crate) fn random_u128() -> u128 {
    uuid::Uuid::new_v4().as_u128()
}

/// Render `v` as `width` lowercase hex characters, most significant
/// first.
pub fn hex_string(v: u128, width: usize) -> (r: String)
    ensures
        r@ == hex_seq(v as nat, width as nat),
    decreases width,
{
    if width == 0 {
        String::new()
    } else {
        let mut s = hex_string(v / 16, width - 1);
        let d: u8 = (v % 16) as u8;
        let c: char = if d < 10 {
            (d + 48) as char
        } else {
            (d - 10 + 97) as char
        };
        proof {
            assert(c == hex_digit_char((v as nat % 16) as int));
        }
        push_char(&mut s, c);
        s
    }
}

/// A fresh subscriber id: 128 random bits.
pub fn new_subscriber_id() -> u128 {
    random_u128()
}

/// A fresh confirmation token: 64 lowercase hex characters built from two
/// independent 128-bit random draws.
pub fn generate_token() -> (r: String)
    ensures
        r@.len() == 64,
        forall|i: int| 0 <= i < r@.len() ==> is_lower_hex_char(#[trigger] r@[i]),
{
    let a = random_u128();
    let b = random_u128();
    let first = hex_string(a, 32);
    let second = hex_string(b, 32);
    proof {
        lemma_hex_seq_props(a as nat, 32);
        lemma_hex_seq_props(b as nat, 32);
    }
    first.concat(second.as_str())
}

} // verus!

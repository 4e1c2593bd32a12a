//! Small verified string utilities shared by the rest of the crate.

use vstd::prelude::*;

verus! {

/// Relies on String::push: appends exactly the given character.
#[verifier::external_body]
pub(crate) fn push_char(s: &mut String, c: char)
    ensures
        final(s)@ == old(s)@.push(c),
{
    s.push(c);
}

/// The decimal rendering of `v`, most significant digit first, no
/// leading zeros (a lone zero for zero).
pub open spec fn dec_seq(v: nat) -> Seq<char>
    decreases v,
{
    if v < 10 {
        seq![(v + '0' as int) as char]
    } else {
        dec_seq(v / 10).push((v % 10 + '0' as int) as char)
    }
}

/// Render `v` in decimal.
pub fn dec_string(v: u64) -> (r: String)
    ensures
        r@ == dec_seq(v as nat),
    decreases v,
{
    if v < 10 {
        let mut s = String::new();
        push_char(&mut s, (v as u8 + 48) as char);
        proof {
            assert(s@ =~= dec_seq(v as nat));
        }
        s
    } else {
        let mut s = dec_string(v / 10);
        push_char(&mut s, ((v % 10) as u8 + 48) as char);
        s
    }
}

/// Character-by-character equality of two string slices.
pub fn str_eq(a: &str, b: &str) -> (r: bool)
    ensures
        r == (a@ == b@),
{
    let la = a.unicode_len();
    let lb = b.unicode_len();
    if la != lb {
        return false;
    }
    let mut i: usize = 0;
    while i < la
        invariant
            i <= la,
            la == a@.len(),
            lb == b@.len(),
            la == lb,
            forall|j: int| 0 <= j < i ==> a@[j] == b@[j],
        decreases la - i,
    {
        if a.get_char(i) != b.get_char(i) {
            return false;
        }
        i += 1;
    }
    proof {
        assert(a@ =~= b@);
    }
    true
}

} // verus!

use vstd::prelude::*;
use vstd::string::StringSliceAdditionalSpecFns;

verus! {

/// Whether a byte is an ASCII decimal digit.
pub open spec fn is_dec_digit(b: u8) -> bool {
    0x30 <= b && b <= 0x39
}

/// Whether every byte of the text is an ASCII decimal digit.
pub open spec fn all_dec_digits(s: Seq<u8>) -> bool {
    forall|i: int| 0 <= i < s.len() ==> is_dec_digit(#[trigger] s[i])
}

/// The number denoted by a digit-only text, most significant digit first.
pub open spec fn dec_val(s: Seq<u8>) -> int
    decreases s.len(),
{
    if s.len() == 0 {
        0
    } else {
        dec_val(s.drop_last()) * 10 + (s.last() - 0x30)
    }
}

/// The value of a decimal numeral: defined exactly when the text is
/// non-empty, consists of decimal digits only, and denotes a number
/// that fits in 64 bits.
pub open spec fn parse_dec_u64(s: Seq<u8>) -> Option<u64> {
    if s.len() > 0 && all_dec_digits(s) && dec_val(s) <= u64::MAX {
        Some(dec_val(s) as u64)
    } else {
        None
    }
}

/// A digit-only text denotes a non-negative number.
pub proof fn lemma_dec_val_nonneg(s: Seq<u8>)
    requires
        all_dec_digits(s),
    ensures
        dec_val(s) >= 0,
    decreases s.len(),
{
    if s.len() > 0 {
        assert(all_dec_digits(s.drop_last()));
        lemma_dec_val_nonneg(s.drop_last());
    }
}

/// A digit-only text denotes at least what any of its prefixes denotes.
pub proof fn lemma_dec_val_prefix(s: Seq<u8>, i: int)
    requires
        all_dec_digits(s),
        0 <= i <= s.len(),
    ensures
        dec_val(s.subrange(0, i)) <= dec_val(s),
    decreases s.len() - i,
{
    if i == s.len() {
        assert(s.subrange(0, i) =~= s);
    } else {
        let t = s.subrange(0, i + 1);
        lemma_dec_val_prefix(s, i + 1);
        assert(t.drop_last() =~= s.subrange(0, i));
        assert(all_dec_digits(t.drop_last()));
        lemma_dec_val_nonneg(t.drop_last());
        assert(dec_val(t) == dec_val(t.drop_last()) * 10 + (t.last() - 0x30));
        assert(dec_val(t.drop_last()) * 10 >= dec_val(t.drop_last())) by (nonlinear_arith)
            requires dec_val(t.drop_last()) >= 0;
    }
}

/// Parses a decimal numeral into a 64-bit unsigned integer;
/// `None` when the text is empty, holds a non-digit, or overflows.
pub fn parse_u64(s: &str) -> (r: Option<u64>)
    ensures
        r == parse_dec_u64(s.spec_bytes()),
{
    let bytes = s.as_bytes();
    if bytes.len() == 0 {
        return None;
    }
    let ghost sq = bytes@;
    let mut acc: u64 = 0;
    let mut i: usize = 0;
    while i < bytes.len()
        invariant
            0 <= i <= sq.len(),
            sq.len() > 0,
            bytes@ == sq,
            sq == s.spec_bytes(),
            all_dec_digits(sq.subrange(0, i as int)),
            acc == dec_val(sq.subrange(0, i as int)),
        decreases sq.len() - i,
    {
        let b = bytes[i];
        if b < 0x30 || b > 0x39 {
            assert(!is_dec_digit(sq[i as int]));
            return None;
        }
        let d: u64 = (b - 0x30) as u64;
        let ghost pre = sq.subrange(0, i as int);
        let ghost post = sq.subrange(0, i as int + 1);
        assert(post.drop_last() =~= pre);
        assert(post.last() == sq[i as int]);
        if acc > (u64::MAX - d) / 10 {
            // The prefix up to and including this digit already exceeds
            // the 64-bit range, and more digits only grow the value.
            assert(dec_val(post) > u64::MAX) by (nonlinear_arith)
                requires
                    dec_val(post) == dec_val(pre) * 10 + d,
                    acc == dec_val(pre),
                    acc > (u64::MAX - d) / 10,
                    0 <= d <= 9;
            proof {
                if all_dec_digits(sq) {
                    lemma_dec_val_prefix(sq, i as int + 1);
                    assert(dec_val(sq) > u64::MAX);
                }
            }
            return None;
        }
        assert(acc * 10 + d <= u64::MAX) by (nonlinear_arith)
            requires
                acc <= (u64::MAX - d) / 10,
                0 <= d <= 9,
                0 <= acc;
        acc = acc * 10 + d;
        assert(acc == dec_val(post));
        i = i + 1;
    }
    assert(sq.subrange(0, sq.len() as int) =~= sq);
    Some(acc)
}

} // verus!

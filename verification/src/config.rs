//! Parsing of the numeric configuration values read once at process start.
use vstd::prelude::*;

verus! {

/// Whether `b` is an ASCII decimal digit.
pub open spec fn is_ascii_digit(b: u8) -> bool {
    48 <= b <= 57
}

/// The number denoted by the ASCII decimal digits `s`, most significant
/// first; the empty sequence denotes zero.
pub open spec fn decimal_value(s: Seq<u8>) -> nat
    decreases s.len(),
{
    if s.len() == 0 {
        0
    } else {
        10 * decimal_value(s.drop_last()) + (s.last() - 48) as nat
    }
}

/// Every prefix of a digit string denotes at most what the whole string
/// denotes.
proof fn lemma_decimal_prefix_le(s: Seq<u8>, i: int)
    requires
        0 <= i <= s.len(),
        forall|j: int| 0 <= j < s.len() ==> is_ascii_digit(#[trigger] s[j]),
    ensures
        decimal_value(s.take(i)) <= decimal_value(s),
    decreases s.len() - i,
{
    if i == s.len() {
        assert(s.take(i) =~= s);
    } else {
        assert(s.take(i + 1).drop_last() =~= s.take(i));
        assert(s.take(i + 1).last() == s[i]);
        lemma_decimal_prefix_le(s, i + 1);
    }
}

/// Parses a nonnegative decimal integer from ASCII digits, most
/// significant first; an empty input parses to zero. This is how the
/// maximum-size configuration override is interpreted.
pub fn parse_int(s: &[u8]) -> (val: usize)
    requires
        forall|j: int| 0 <= j < s@.len() ==> is_ascii_digit(#[trigger] s@[j]),
        decimal_value(s@) <= usize::MAX,
    ensures
        val as nat == decimal_value(s@),
{
    let mut val: usize = 0;
    let mut i: usize = 0;
    while i < s.len()
        invariant
            forall|j: int| 0 <= j < s@.len() ==> is_ascii_digit(#[trigger] s@[j]),
            decimal_value(s@) <= usize::MAX,
            0 <= i <= s@.len(),
            val as nat == decimal_value(s@.take(i as int)),
        decreases s@.len() - i,
    {
        proof {
            lemma_decimal_prefix_le(s@, i + 1);
            assert(s@.take(i + 1).drop_last() =~= s@.take(i as int));
            assert(s@.take(i + 1).last() == s@[i as int]);
        }
        val = val * 10 + ((s[i] - 48) as usize);
        i += 1;
    }
    proof {
        assert(s@.take(s@.len() as int) =~= s@);
    }
    val
}

} // verus!

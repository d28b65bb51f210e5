//! Parsing the text of a count typed at a prompt: an optional leading
//! plus sign followed by decimal digits, most significant first.

use vstd::prelude::*;

verus! {

/// An ASCII decimal digit.
pub open spec fn is_digit(b: u8) -> bool {
    48 <= b && b <= 57
}

/// Every byte of `s` is a decimal digit.
pub open spec fn all_digits(s: Seq<u8>) -> bool {
    forall|i: int| 0 <= i < s.len() ==> is_digit(s[i])
}

/// Value of a string of decimal digits, most significant first.
pub open spec fn digits_value(s: Seq<u8>) -> int
    decreases s.len(),
{
    if s.len() == 0 {
        0
    } else {
        digits_value(s.drop_last()) * 10 + (s.last() - 48)
    }
}

/// The digit part of a count's text: what follows the optional leading
/// plus sign.
pub open spec fn count_digits(s: Seq<u8>) -> Seq<u8> {
    if s.len() > 0 && s[0] == 43 {
        s.subrange(1, s.len() as int)
    } else {
        s
    }
}

/// Well-formed text for a count: an optional plus sign, then at least one
/// decimal digit and nothing else.
pub open spec fn is_count_text(s: Seq<u8>) -> bool {
    count_digits(s).len() > 0 && all_digits(count_digits(s))
}

/// Appending one digit multiplies the value by ten and adds the digit.
proof fn lemma_digits_value_extend(s: Seq<u8>, a: int, k: int)
    requires
        0 <= a <= k < s.len(),
    ensures
        digits_value(s.subrange(a, k + 1)) == 10 * digits_value(s.subrange(a, k)) + (s[k] - 48),
{
    assert(s.subrange(a, k + 1).drop_last() =~= s.subrange(a, k));
    assert(s.subrange(a, k + 1).last() == s[k]);
}

/// A string of digits has a non-negative value.
proof fn lemma_digits_value_nonneg(s: Seq<u8>)
    requires
        all_digits(s),
    ensures
        digits_value(s) >= 0,
    decreases s.len(),
{
    if s.len() > 0 {
        assert(all_digits(s.drop_last()));
        lemma_digits_value_nonneg(s.drop_last());
    }
}

/// Dropping trailing digits never raises the value: the whole string is
/// worth at least any of its prefixes.
proof fn lemma_digits_value_prefix_le(s: Seq<u8>, k: int)
    requires
        all_digits(s),
        0 <= k <= s.len(),
    ensures
        digits_value(s.subrange(0, k)) <= digits_value(s),
    decreases s.len() - k,
{
    if k == s.len() {
        assert(s.subrange(0, k) =~= s);
    } else {
        assert(all_digits(s.subrange(0, k)));
        lemma_digits_value_nonneg(s.subrange(0, k));
        lemma_digits_value_extend(s, 0, k);
        lemma_digits_value_prefix_le(s, k + 1);
    }
}

/// Parses the text of a count. Returns the value exactly when the text is
/// an optional plus sign followed by decimal digits whose value fits in a
/// `u16`; returns `None` on any other text, and on a value too large.
pub fn parse_count(s: &[u8]) -> (r: Option<u16>)
    ensures
        match r {
            Some(v) => is_count_text(s@) && v == digits_value(count_digits(s@)),
            None => !(is_count_text(s@) && digits_value(count_digits(s@)) <= u16::MAX),
        },
{
    if s.len() == 0 {
        return None;
    }
    let start: usize = if s[0] == 43 {
        1
    } else {
        0
    };
    if start == s.len() {
        proof {
            assert(count_digits(s@).len() == 0);
        }
        return None;
    }
    proof {
        assert(count_digits(s@) =~= s@.subrange(start as int, s@.len() as int));
    }
    let ghost d = count_digits(s@);
    let mut acc: u32 = 0;
    let mut i: usize = start;
    while i < s.len()
        invariant
            start <= i <= s@.len(),
            start < s@.len(),
            d == count_digits(s@),
            d =~= s@.subrange(start as int, s@.len() as int),
            all_digits(s@.subrange(start as int, i as int)),
            acc == digits_value(s@.subrange(start as int, i as int)),
            acc <= 0xFFFF,
        decreases s@.len() - i,
    {
        let b = s[i];
        if b < 48 || b > 57 {
            proof {
                assert(d[i - start] == s@[i as int]);
                assert(!all_digits(d));
            }
            return None;
        }
        proof {
            lemma_digits_value_extend(s@, start as int, i as int);
        }
        acc = acc * 10 + ((b - 48) as u32);
        i = i + 1;
        if acc > 0xFFFF {
            proof {
                if is_count_text(s@) {
                    assert(d.subrange(0, i - start) =~= s@.subrange(start as int, i as int));
                    lemma_digits_value_prefix_le(d, i - start);
                }
            }
            return None;
        }
    }
    proof {
        assert(s@.subrange(start as int, i as int) =~= d);
    }
    Some(acc as u16)
}

} // verus!

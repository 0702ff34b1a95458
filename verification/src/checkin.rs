//! Reading the last check-in time out of the check-in file's content.
//!
//! The file's whole trimmed content is a base-10 unsigned numeral. Content
//! that is not such a numeral, or one too large for `u64`, denotes time
//! zero: if the user's check-in cannot be read, the worst is assumed.

use vstd::prelude::*;

verus! {

/// Whether `b` is one of the ASCII whitespace bytes removed by trimming:
/// tab, line feed, vertical tab, form feed, carriage return or space.
pub open spec fn is_space(b: u8) -> bool {
    b == 32 || 9 <= b <= 13
}

/// Whether `b` is an ASCII decimal digit.
pub open spec fn is_digit(b: u8) -> bool {
    48 <= b <= 57
}

/// Whether every byte of `s` is an ASCII decimal digit.
pub open spec fn all_digits(s: Seq<u8>) -> bool {
    forall|i: int| 0 <= i < s.len() ==> is_digit(#[trigger] s[i])
}

/// `s` with its leading whitespace removed.
pub open spec fn trim_front(s: Seq<u8>) -> Seq<u8>
    decreases s.len(),
{
    if s.len() > 0 && is_space(s[0]) {
        trim_front(s.drop_first())
    } else {
        s
    }
}

/// `s` with its trailing whitespace removed.
pub open spec fn trim_back(s: Seq<u8>) -> Seq<u8>
    decreases s.len(),
{
    if s.len() > 0 && is_space(s.last()) {
        trim_back(s.drop_last())
    } else {
        s
    }
}

/// `s` with leading and trailing whitespace removed.
pub open spec fn trimmed(s: Seq<u8>) -> Seq<u8> {
    trim_back(trim_front(s))
}

/// The value of a sequence of ASCII decimal digits, most significant first.
pub open spec fn digits_value(s: Seq<u8>) -> int
    decreases s.len(),
{
    if s.len() == 0 {
        0
    } else {
        digits_value(s.drop_last()) * 10 + (s.last() - 48)
    }
}

/// The digit part of the trimmed content: the trimmed content with one
/// leading `+` removed, as `u64` parsing accepts.
pub open spec fn numeral(s: Seq<u8>) -> Seq<u8> {
    let t = trimmed(s);
    if t.len() > 0 && t[0] == 43 {
        t.drop_first()
    } else {
        t
    }
}

/// What check-in file content denotes: the value of its trimmed decimal
/// numeral where there is one and it fits in `u64`, and `0` otherwise.
pub open spec fn checkin_value(s: Seq<u8>) -> int {
    let d = numeral(s);
    if d.len() > 0 && all_digits(d) && digits_value(d) <= u64::MAX {
        digits_value(d)
    } else {
        0
    }
}

proof fn lemma_trim_front_is_subrange(s: Seq<u8>, k: int)
    requires
        0 <= k <= s.len(),
        forall|j: int| 0 <= j < k ==> is_space(#[trigger] s[j]),
        k < s.len() ==> !is_space(s[k]),
    ensures
        trim_front(s) == s.subrange(k, s.len() as int),
    decreases k,
{
    if k == 0 {
        assert(s =~= s.subrange(0, s.len() as int));
    } else {
        let s1 = s.drop_first();
        assert(s1 =~= s.subrange(1, s.len() as int));
        lemma_trim_front_is_subrange(s1, k - 1);
        assert(s1.subrange(k - 1, s1.len() as int) =~= s.subrange(k, s.len() as int));
    }
}

proof fn lemma_trim_back_is_subrange(s: Seq<u8>, h: int)
    requires
        0 <= h <= s.len(),
        forall|j: int| h <= j < s.len() ==> is_space(#[trigger] s[j]),
        h > 0 ==> !is_space(s[h - 1]),
    ensures
        trim_back(s) == s.subrange(0, h),
    decreases s.len(),
{
    if h == s.len() {
        assert(s =~= s.subrange(0, h));
    } else {
        let s1 = s.drop_last();
        assert(s1 =~= s.subrange(0, s.len() - 1));
        lemma_trim_back_is_subrange(s1, h);
        assert(s1.subrange(0, h) =~= s.subrange(0, h));
    }
}

proof fn lemma_digits_value_nonneg(s: Seq<u8>)
    requires
        all_digits(s),
    ensures
        digits_value(s) >= 0,
    decreases s.len(),
{
    if s.len() > 0 {
        assert(all_digits(s.drop_last())) by {
            assert(forall|i: int|
                0 <= i < s.len() - 1 ==> #[trigger] s.drop_last()[i] == s[i]);
        }
        lemma_digits_value_nonneg(s.drop_last());
    }
}

proof fn lemma_digits_value_prefix_bound(s: Seq<u8>, k: int)
    requires
        all_digits(s),
        0 <= k <= s.len(),
    ensures
        digits_value(s.take(k)) <= digits_value(s),
    decreases s.len(),
{
    if k == s.len() {
        assert(s.take(k) =~= s);
    } else {
        let s1 = s.drop_last();
        assert(all_digits(s1)) by {
            assert(forall|i: int| 0 <= i < s.len() - 1 ==> #[trigger] s1[i] == s[i]);
        }
        assert(s.take(k) =~= s1.take(k));
        lemma_digits_value_prefix_bound(s1, k);
        lemma_digits_value_nonneg(s1);
    }
}

proof fn lemma_digits_value_step(s: Seq<u8>, j: int)
    requires
        0 <= j < s.len(),
    ensures
        digits_value(s.take(j + 1)) == digits_value(s.take(j)) * 10 + (s[j] - 48),
{
    assert(s.take(j + 1).drop_last() =~= s.take(j));
    assert(s.take(j + 1).last() == s[j]);
}

/// Content that holds no in-range decimal numeral denotes time zero. This is
/// the designed default, not a swallowed error: a check-in that cannot be
/// read counts as no check-in at all.
pub proof fn lemma_malformed_checkin_is_zero(s: Seq<u8>)
    requires
        numeral(s).len() == 0 || !all_digits(numeral(s)) || digits_value(numeral(s)) > u64::MAX,
    ensures
        checkin_value(s) == 0,
{
}

/// An empty check-in file denotes time zero.
pub proof fn lemma_empty_checkin_is_zero()
    ensures
        checkin_value(Seq::<u8>::empty()) == 0,
{
}

fn is_space_byte(b: u8) -> (r: bool)
    ensures
        r == is_space(b),
{
    b == 32 || (b >= 9 && b <= 13)
}

/// Parses the content of the check-in file: the seconds since the epoch of
/// the user's last check-in, or `0` where the content holds no decimal
/// numeral that fits in `u64`.
pub fn parse_checkin(content: &[u8]) -> (r: u64)
    ensures
        r == checkin_value(content@),
{
    let n: usize = content.len();
    let mut lo: usize = 0;
    while lo < n && is_space_byte(content[lo])
        invariant
            0 <= lo <= n,
            n == content@.len(),
            forall|j: int| 0 <= j < lo ==> is_space(#[trigger] content@[j]),
        decreases n - lo,
    {
        lo = lo + 1;
    }
    let mut hi: usize = n;
    while hi > lo && is_space_byte(content[hi - 1])
        invariant
            lo <= hi <= n,
            n == content@.len(),
            forall|j: int| hi <= j < n ==> is_space(#[trigger] content@[j]),
        decreases hi,
    {
        hi = hi - 1;
    }
    proof {
        lemma_trim_front_is_subrange(content@, lo as int);
        lemma_trim_back_is_subrange(content@.subrange(lo as int, n as int), hi - lo);
        assert(content@.subrange(lo as int, n as int).subrange(0, hi - lo)
            =~= content@.subrange(lo as int, hi as int));
        assert(trimmed(content@) == content@.subrange(lo as int, hi as int));
    }
    let mut start: usize = lo;
    if lo < hi && content[lo] == 43 {
        start = lo + 1;
        proof {
            assert(trimmed(content@).drop_first()
                =~= content@.subrange(start as int, hi as int));
        }
    }
    let ghost d: Seq<u8> = numeral(content@);
    proof {
        assert(d =~= content@.subrange(start as int, hi as int));
    }
    if start == hi {
        return 0;
    }
    let mut acc: u128 = 0;
    let mut j: usize = start;
    while j < hi
        invariant
            start <= j <= hi <= n,
            n == content@.len(),
            start < hi,
            d == numeral(content@),
            d == content@.subrange(start as int, hi as int),
            acc == digits_value(d.take(j - start)),
            acc <= u64::MAX,
            forall|i: int| 0 <= i < j - start ==> is_digit(#[trigger] d[i]),
        decreases hi - j,
    {
        let b: u8 = content[j];
        assert(b == d[j - start]);
        if b < 48 || b > 57 {
            assert(!all_digits(d));
            return 0;
        }
        let dig: u128 = (b - 48) as u128;
        proof {
            lemma_digits_value_step(d, j - start);
        }
        acc = acc * 10 + dig;
        if acc > u64::MAX as u128 {
            proof {
                if all_digits(d) {
                    lemma_digits_value_prefix_bound(d, j - start + 1);
                }
            }
            return 0;
        }
        j = j + 1;
    }
    proof {
        assert(d.take(hi - start) =~= d);
    }
    acc as u64
}

} // verus!

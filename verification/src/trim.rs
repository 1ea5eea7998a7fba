use vstd::prelude::*;

verus! {

/// The ASCII bytes treated as whitespace when the response body is trimmed:
/// space, tab, line feed, vertical tab, form feed, carriage return.
pub open spec fn is_space(b: u8) -> bool {
    b == 0x20 || b == 0x09 || b == 0x0a || b == 0x0b || b == 0x0c || b == 0x0d
}

/// How many whitespace bytes the sequence starts with.
pub open spec fn leading_spaces(s: Seq<u8>) -> int
    decreases s.len(),
{
    if s.len() == 0 || !is_space(s[0]) {
        0
    } else {
        1 + leading_spaces(s.drop_first())
    }
}

/// How many whitespace bytes the sequence ends with.
pub open spec fn trailing_spaces(s: Seq<u8>) -> int
    decreases s.len(),
{
    if s.len() == 0 || !is_space(s[s.len() - 1]) {
        0
    } else {
        1 + trailing_spaces(s.drop_last())
    }
}

/// The sequence with its leading and trailing whitespace removed; empty when
/// it holds nothing else.
pub open spec fn spec_trim(s: Seq<u8>) -> Seq<u8> {
    if leading_spaces(s) == s.len() {
        Seq::empty()
    } else {
        s.subrange(leading_spaces(s), s.len() - trailing_spaces(s))
    }
}

/// A scan that stops at index `k` — everything before `k` is whitespace and
/// `k` is the end or a non-whitespace byte — has found the leading count.
proof fn lemma_leading_from_scan(s: Seq<u8>, k: int)
    requires
        0 <= k <= s.len(),
        forall|i: int| 0 <= i < k ==> is_space(s[i]),
        k == s.len() || !is_space(s[k]),
    ensures
        leading_spaces(s) == k,
    decreases k,
{
    if k == 0 {
    } else {
        assert(is_space(s[0]));
        lemma_leading_from_scan(s.drop_first(), k - 1);
    }
}

/// A scan from the right that stops with `k` trailing bytes — everything in
/// the last `k` positions is whitespace and the byte before them, if any, is
/// not — has found the trailing count.
proof fn lemma_trailing_from_scan(s: Seq<u8>, k: int)
    requires
        0 <= k <= s.len(),
        forall|i: int| s.len() - k <= i < s.len() ==> is_space(s[i]),
        k == s.len() || !is_space(s[s.len() - k - 1]),
    ensures
        trailing_spaces(s) == k,
    decreases k,
{
    if k == 0 {
    } else {
        assert(is_space(s[s.len() - 1]));
        lemma_trailing_from_scan(s.drop_last(), k - 1);
    }
}

/// Tests one byte against [`is_space`].
fn is_space_byte(b: u8) -> (r: bool)
    ensures
        r == is_space(b),
{
    b == 0x20 || b == 0x09 || b == 0x0a || b == 0x0b || b == 0x0c || b == 0x0d
}

/// Removes leading and trailing whitespace bytes, leaving the interior
/// untouched: the result is exactly [`spec_trim`] of the input.
pub fn trim_whitespace(s: &Vec<u8>) -> (r: Vec<u8>)
    ensures
        r@ == spec_trim(s@),
{
    let n = s.len();
    let mut lo: usize = 0;
    while lo < n && is_space_byte(s[lo])
        invariant
            lo <= n,
            n == s@.len(),
            forall|i: int| 0 <= i < lo ==> is_space(s@[i]),
        decreases n - lo,
    {
        lo = lo + 1;
    }
    proof {
        lemma_leading_from_scan(s@, lo as int);
    }
    if lo == n {
        Vec::new()
    } else {
        let mut hi: usize = n;
        while is_space_byte(s[hi - 1])
            invariant
                lo < hi <= n,
                n == s@.len(),
                !is_space(s@[lo as int]),
                forall|i: int| hi <= i < n ==> is_space(s@[i]),
            decreases hi,
        {
            hi = hi - 1;
        }
        proof {
            lemma_trailing_from_scan(s@, n - hi);
        }
        let mut r: Vec<u8> = Vec::new();
        let mut i: usize = lo;
        while i < hi
            invariant
                lo <= i <= hi <= n,
                n == s@.len(),
                r@ == s@.subrange(lo as int, i as int),
            decreases hi - i,
        {
            let b = s[i];
            r.push(b);
            proof {
                assert(s@.subrange(lo as int, i as int + 1) =~= s@.subrange(
                    lo as int,
                    i as int,
                ).push(s@[i as int]));
            }
            i = i + 1;
        }
        r
    }
}

} // verus!

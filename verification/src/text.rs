//! Byte-level text primitives shared by the directive parser and the
//! geometry extractor: whitespace tokenization, separator splitting,
//! substring search, and decimal parsing/rendering.

use vstd::prelude::*;

verus! {

/// ASCII whitespace, the separators that whitespace tokenization recognizes.
pub open spec fn is_ws(b: u8) -> bool {
    b == 32 || b == 9 || b == 10 || b == 13 || b == 11 || b == 12
}

/// ASCII decimal digit.
pub open spec fn is_digit(b: u8) -> bool {
    48 <= b <= 57
}

pub open spec fn all_digits(s: Seq<u8>) -> bool {
    forall|i: int| 0 <= i < s.len() ==> is_digit(#[trigger] s[i])
}

/// Numeric value of a sequence of ASCII digits, most significant first.
pub open spec fn digits_val(s: Seq<u8>) -> int
    decreases s.len(),
{
    if s.len() == 0 {
        0
    } else {
        digits_val(s.drop_last()) * 10 + (s.last() - 48)
    }
}

fn byte_is_ws(b: u8) -> (r: bool)
    ensures
        r == is_ws(b),
{
    b == 32 || b == 9 || b == 10 || b == 13 || b == 11 || b == 12
}

/// The needle `n` occurs in `h` starting at position `i`.
pub open spec fn contains_at(h: Seq<u8>, n: Seq<u8>, i: int) -> bool {
    0 <= i && i + n.len() <= h.len() && h.subrange(i, i + n.len()) == n
}

/// The needle `n` occurs somewhere in `h`.
pub open spec fn contains_seq(h: Seq<u8>, n: Seq<u8>) -> bool {
    exists|i: int| contains_at(h, n, i)
}

fn match_at(h: &Vec<u8>, n: &Vec<u8>, i: usize) -> (r: bool)
    requires
        i + n@.len() <= h@.len(),
    ensures
        r == contains_at(h@, n@, i as int),
{
    let _haystack_len = h.len();
    assert(h@.len() <= usize::MAX);
    let ghost sub = h@.subrange(i as int, i as int + n@.len() as int);
    let mut j: usize = 0;
    while j < n.len()
        invariant
            i + n@.len() <= h@.len(),
            h@.len() <= usize::MAX,
            0 <= j <= n@.len(),
            sub == h@.subrange(i as int, i as int + n@.len() as int),
            forall|k: int| 0 <= k < j ==> h@[i + k] == n@[k],
        decreases n@.len() - j,
    {
        assert(i + j < h@.len());
        if h[i + j] != n[j] {
            proof {
                assert(sub[j as int] == h@[i + j]);
                assert(sub[j as int] != n@[j as int]);
            }
            return false;
        }
        j += 1;
    }
    proof {
        assert(sub =~= n@);
    }
    true
}

/// Substring search: does `h` contain `n` anywhere?
pub fn contains_bytes(h: &Vec<u8>, n: &Vec<u8>) -> (r: bool)
    ensures
        r == contains_seq(h@, n@),
{
    if n.len() > h.len() {
        proof {
            assert(forall|i: int| !contains_at(h@, n@, i));
        }
        return false;
    }
    if n.len() == 0 {
        proof {
            assert(h@.subrange(0, 0) =~= n@);
            assert(contains_at(h@, n@, 0));
        }
        return true;
    }
    let end = h.len() - n.len();
    assert(end < usize::MAX);
    let mut i: usize = 0;
    while i <= end
        invariant
            1 <= n@.len() <= h@.len(),
            end == h@.len() - n@.len(),
            end < usize::MAX,
            0 <= i <= end + 1,
            forall|k: int| 0 <= k < i ==> !contains_at(h@, n@, k),
        decreases end + 1 - i,
    {
        if match_at(h, n, i) {
            proof {
                assert(contains_at(h@, n@, i as int));
            }
            return true;
        }
        i += 1;
    }
    proof {
        assert(forall|k: int| contains_at(h@, n@, k) ==> 0 <= k <= end as int);
    }
    false
}

/// Length of the run of non-whitespace bytes at the head of `s`.
pub open spec fn token_len(s: Seq<u8>) -> nat
    decreases s.len(),
{
    if s.len() == 0 || is_ws(s[0]) {
        0
    } else {
        1 + token_len(s.drop_first())
    }
}

/// The whitespace-separated tokens of `s`, in order, empty runs skipped.
pub open spec fn split_ws(s: Seq<u8>) -> Seq<Seq<u8>>
    decreases s.len(),
{
    if s.len() == 0 {
        Seq::empty()
    } else if is_ws(s[0]) {
        split_ws(s.drop_first())
    } else {
        // token_len never exceeds the length; the min only keeps the
        // recursion well-founded without a side lemma.
        let tl = vstd::math::min(token_len(s) as int, s.len() as int);
        seq![s.take(tl)] + split_ws(s.skip(tl))
    }
}

/// `token_len` is the distance to the first whitespace byte (or the end).
proof fn lemma_token_len_of(s: Seq<u8>, k: int)
    requires
        0 <= k <= s.len(),
        forall|j: int| 0 <= j < k ==> !is_ws(#[trigger] s[j]),
        k == s.len() || is_ws(s[k]),
    ensures
        token_len(s) == k,
    decreases k,
{
    if k == 0 {
    } else {
        assert(!is_ws(s[0]));
        lemma_token_len_of(s.drop_first(), k - 1);
    }
}

/// Skipping a leading whitespace byte leaves the token sequence unchanged.
proof fn lemma_split_ws_skip_one(s: Seq<u8>, p: int)
    requires
        0 <= p < s.len(),
        is_ws(s[p]),
    ensures
        split_ws(s.skip(p)) == split_ws(s.skip(p + 1)),
{
    assert(s.skip(p).drop_first() =~= s.skip(p + 1));
}

fn copy_range(s: &Vec<u8>, from: usize, to: usize) -> (r: Vec<u8>)
    requires
        from <= to <= s@.len(),
    ensures
        r@ == s@.subrange(from as int, to as int),
{
    let mut r: Vec<u8> = Vec::new();
    let mut j = from;
    while j < to
        invariant
            from <= j <= to <= s@.len(),
            r@ == s@.subrange(from as int, j as int),
        decreases to - j,
    {
        r.push(s[j]);
        proof {
            assert(r@ =~= s@.subrange(from as int, j as int + 1));
        }
        j += 1;
    }
    r
}

/// Compares two byte vectors for equality of contents.
pub fn bytes_eq(a: &Vec<u8>, b: &Vec<u8>) -> (r: bool)
    ensures
        r == (a@ == b@),
{
    if a.len() != b.len() {
        return false;
    }
    let mut i: usize = 0;
    while i < a.len()
        invariant
            a@.len() == b@.len(),
            0 <= i <= a@.len(),
            forall|k: int| 0 <= k < i ==> a@[k] == b@[k],
        decreases a@.len() - i,
    {
        if a[i] != b[i] {
            return false;
        }
        i += 1;
    }
    proof {
        assert(a@ =~= b@);
    }
    true
}

/// Copies a byte vector.
pub fn copy_bytes(s: &Vec<u8>) -> (r: Vec<u8>)
    ensures
        r@ == s@,
{
    let r = copy_range(s, 0, s.len());
    proof {
        assert(s@.subrange(0, s@.len() as int) =~= s@);
    }
    r
}

fn tokens_from(s: &Vec<u8>, p: usize, out: &mut Vec<Vec<u8>>)
    requires
        p <= s@.len(),
    ensures
        final(out).deep_view() == old(out).deep_view() + split_ws(s@.skip(p as int)),
    decreases s@.len() - p,
{
    if p == s.len() {
        proof {
            assert(s@.skip(p as int) =~= Seq::<u8>::empty());
            assert(out.deep_view() =~= out.deep_view() + split_ws(s@.skip(p as int)));
        }
    } else if byte_is_ws(s[p]) {
        proof {
            lemma_split_ws_skip_one(s@, p as int);
        }
        tokens_from(s, p + 1, out);
    } else {
        let mut i = p + 1;
        while i < s.len() && !byte_is_ws(s[i])
            invariant
                p < i <= s@.len(),
                forall|j: int| p <= j < i ==> !is_ws(#[trigger] s@[j]),
            decreases s@.len() - i,
        {
            i += 1;
        }
        let ghost suf = s@.skip(p as int);
        proof {
            assert(forall|j: int| 0 <= j < i - p ==> suf[j] == s@[p + j]);
            lemma_token_len_of(suf, i - p as int);
            assert(suf.take(i - p as int) =~= s@.subrange(p as int, i as int));
            assert(suf.skip(i - p as int) =~= s@.skip(i as int));
        }
        let tok = copy_range(s, p, i);
        let ghost pre = out.deep_view();
        out.push(tok);
        proof {
            assert(out.deep_view() =~~= pre + seq![tok@]);
        }
        tokens_from(s, i, out);
        proof {
            assert(pre + seq![tok@] + split_ws(s@.skip(i as int)) =~= pre + split_ws(
                s@.skip(p as int),
            ));
        }
    }
}

/// Splits `s` into its whitespace-separated tokens.
pub fn tokenize(s: &Vec<u8>) -> (r: Vec<Vec<u8>>)
    ensures
        r.deep_view() == split_ws(s@),
{
    let mut out: Vec<Vec<u8>> = Vec::new();
    tokens_from(s, 0, &mut out);
    proof {
        assert(s@.skip(0) =~= s@);
        assert(Seq::<Seq<u8>>::empty() + split_ws(s@) =~= split_ws(s@));
    }
    out
}

/// Length of the run of non-separator bytes at the head of `s`.
pub open spec fn field_len(s: Seq<u8>, sep: u8) -> nat
    decreases s.len(),
{
    if s.len() == 0 || s[0] == sep {
        0
    } else {
        1 + field_len(s.drop_first(), sep)
    }
}

/// The fields of `s` split at every occurrence of `sep`, empties kept.
pub open spec fn split_sep(s: Seq<u8>, sep: u8) -> Seq<Seq<u8>>
    decreases s.len(),
{
    // field_len never exceeds the length; the min only keeps the
    // recursion well-founded without a side lemma.
    let f = vstd::math::min(field_len(s, sep) as int, s.len() as int);
    if f == s.len() {
        seq![s]
    } else {
        seq![s.take(f)] + split_sep(s.skip(f + 1), sep)
    }
}

/// `field_len` is the distance to the first separator (or the end).
proof fn lemma_field_len_of(s: Seq<u8>, sep: u8, k: int)
    requires
        0 <= k <= s.len(),
        forall|j: int| 0 <= j < k ==> #[trigger] s[j] != sep,
        k == s.len() || s[k] == sep,
    ensures
        field_len(s, sep) == k,
    decreases k,
{
    if k == 0 {
    } else {
        assert(s[0] != sep);
        lemma_field_len_of(s.drop_first(), sep, k - 1);
    }
}

fn fields_from(s: &Vec<u8>, sep: u8, p: usize, out: &mut Vec<Vec<u8>>)
    requires
        p <= s@.len(),
    ensures
        final(out).deep_view() == old(out).deep_view() + split_sep(s@.skip(p as int), sep),
    decreases s@.len() - p,
{
    let mut i = p;
    while i < s.len() && s[i] != sep
        invariant
            p <= i <= s@.len(),
            forall|j: int| p <= j < i ==> #[trigger] s@[j] != sep,
        decreases s@.len() - i,
    {
        i += 1;
    }
    let ghost suf = s@.skip(p as int);
    proof {
        assert(forall|j: int| 0 <= j < i - p ==> suf[j] == s@[p + j]);
        lemma_field_len_of(suf, sep, i - p as int);
        assert(suf.take(i - p as int) =~= s@.subrange(p as int, i as int));
    }
    let tok = copy_range(s, p, i);
    let ghost pre = out.deep_view();
    out.push(tok);
    proof {
        assert(out.deep_view() =~~= pre + seq![tok@]);
    }
    if i < s.len() {
        proof {
            assert(suf.skip(i - p as int + 1) =~= s@.skip(i as int + 1));
        }
        fields_from(s, sep, i + 1, out);
        proof {
            assert(pre + seq![tok@] + split_sep(s@.skip(i as int + 1), sep) =~= pre + split_sep(
                suf,
                sep,
            ));
        }
    } else {
        proof {
            assert(suf =~= s@.subrange(p as int, i as int));
            assert(split_sep(suf, sep) =~= seq![tok@]);
        }
    }
}

/// Splits `s` at every occurrence of `sep`, keeping empty fields, as
/// `str::split` does.
pub fn split_at_sep(s: &Vec<u8>, sep: u8) -> (r: Vec<Vec<u8>>)
    ensures
        r.deep_view() == split_sep(s@, sep),
{
    let mut out: Vec<Vec<u8>> = Vec::new();
    fields_from(s, sep, 0, &mut out);
    proof {
        assert(s@.skip(0) =~= s@);
        assert(Seq::<Seq<u8>>::empty() + split_sep(s@, sep) =~= split_sep(s@, sep));
    }
    out
}

/// The decimal rendering of a non-negative integer, most significant digit
/// first, without leading zeros (a single `0` for zero).
pub open spec fn dec_digits(n: int) -> Seq<u8>
    decreases n,
{
    if n < 10 {
        seq![(48 + (if n >= 0 { n } else { 0 })) as u8]
    } else {
        dec_digits(n / 10) + seq![(48 + n % 10) as u8]
    }
}

fn push_dec(n: u32, out: &mut Vec<u8>)
    ensures
        final(out)@ == old(out)@ + dec_digits(n as int),
    decreases n,
{
    if n < 10 {
        out.push(48 + n as u8);
        proof {
            assert(out@ =~= old(out)@ + dec_digits(n as int));
        }
    } else {
        assert(n / 10 < n) by {
            assert(n / 10 <= n / 2) by (nonlinear_arith)
                requires n >= 0;
            assert(n / 2 < n) by (nonlinear_arith)
                requires n >= 10;
        };
        push_dec(n / 10, out);
        out.push(48 + (n % 10) as u8);
        proof {
            assert(out@ =~= old(out)@ + dec_digits(n as int));
        }
    }
}

/// Renders `n` in decimal ASCII.
pub fn render_u32(n: u32) -> (r: Vec<u8>)
    ensures
        r@ == dec_digits(n as int),
{
    let mut out: Vec<u8> = Vec::new();
    push_dec(n, &mut out);
    proof {
        assert(Seq::<u8>::empty() + dec_digits(n as int) =~= dec_digits(n as int));
    }
    out
}

/// A digit string never denotes a negative value.
proof fn lemma_digits_val_nonneg(s: Seq<u8>)
    requires
        all_digits(s),
    ensures
        digits_val(s) >= 0,
    decreases s.len(),
{
    if s.len() > 0 {
        assert(all_digits(s.drop_last()));
        lemma_digits_val_nonneg(s.drop_last());
    }
}

/// The value of a digit string only grows as more digits are appended.
proof fn lemma_digits_val_prefix(s: Seq<u8>, i: int)
    requires
        0 <= i <= s.len(),
        all_digits(s),
    ensures
        digits_val(s) >= digits_val(s.take(i)),
    decreases s.len() - i,
{
    if i < s.len() {
        lemma_digits_val_prefix(s, i + 1);
        assert(s.take(i + 1).drop_last() =~= s.take(i));
        assert(s.take(i + 1).last() == s[i]);
        assert(digits_val(s.take(i + 1)) == digits_val(s.take(i)) * 10 + (s[i] - 48));
        assert(all_digits(s.take(i)));
        lemma_digits_val_nonneg(s.take(i));
    } else {
        assert(s.take(i) =~= s);
    }
}

/// The `u32` a byte string denotes: `None` when the string is empty, holds
/// a non-digit byte, or denotes a value above `u32::MAX`.
pub open spec fn dec_u32(s: Seq<u8>) -> Option<u32> {
    if s.len() > 0 && all_digits(s) && digits_val(s) <= u32::MAX {
        Some(digits_val(s) as u32)
    } else {
        None
    }
}

/// Parses a non-empty, all-digit byte string as a `u32`.
pub fn parse_u32(s: &Vec<u8>) -> (r: Option<u32>)
    ensures
        r == dec_u32(s@),
{
    if s.len() == 0 {
        return None;
    }
    let mut cur: u32 = 0;
    let mut i: usize = 0;
    while i < s.len()
        invariant
            0 <= i <= s@.len(),
            all_digits(s@.take(i as int)),
            cur == digits_val(s@.take(i as int)),
        decreases s@.len() - i,
    {
        let b = s[i];
        if b < 48 || b > 57 {
            assert(!is_digit(s@[i as int]));
            return None;
        }
        let d: u32 = (b - 48) as u32;
        if cur > (u32::MAX - d) / 10 {
            proof {
                let q = ((u32::MAX - d) / 10) as int;
                let rr = ((u32::MAX - d) % 10) as int;
                assert(10 * q + rr == u32::MAX - d && 0 <= rr < 10) by {
                    vstd::arithmetic::div_mod::lemma_fundamental_div_mod(
                        (u32::MAX - d) as int,
                        10,
                    );
                }
                assert(s@.take(i as int + 1).drop_last() =~= s@.take(i as int));
                assert(digits_val(s@.take(i as int + 1)) == cur * 10 + d);
                assert(digits_val(s@.take(i as int + 1)) > u32::MAX);
                assert(all_digits(s@.take(i as int + 1)));
                if all_digits(s@) {
                    lemma_digits_val_prefix(s@, i as int + 1);
                    assert(s@.take(s@.len() as int) =~= s@);
                }
            }
            return None;
        }
        proof {
            let q = ((u32::MAX - d) / 10) as int;
            let rr = ((u32::MAX - d) % 10) as int;
            assert(10 * q + rr == u32::MAX - d && 0 <= rr < 10) by {
                vstd::arithmetic::div_mod::lemma_fundamental_div_mod((u32::MAX - d) as int, 10);
            }
            assert(cur * 10 + d <= u32::MAX);
        }
        cur = cur * 10 + d;
        proof {
            assert(s@.take(i as int + 1).drop_last() =~= s@.take(i as int));
            assert(s@.take(i as int + 1).last() == s@[i as int]);
        }
        i = i + 1;
    }
    proof {
        assert(s@.take(s@.len() as int) =~= s@);
    }
    Some(cur)
}

} // verus!

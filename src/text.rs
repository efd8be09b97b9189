use vstd::prelude::*;
use vstd::string::StringSliceAdditionalSpecFns;

verus! {

/// The ASCII character of hex digit `d` (lower case).
pub open spec fn hex_char(d: nat) -> u8 {
    if d < 10 {
        (48 + d) as u8
    } else {
        (87 + d) as u8
    }
}

/// The last `w` hex digits of `v`, most significant first.
pub open spec fn hex_digits(v: nat, w: nat) -> Seq<u8>
    decreases w,
{
    if w == 0 {
        Seq::empty()
    } else {
        hex_digits(v / 16, (w - 1) as nat).push(hex_char(v % 16))
    }
}

/// `v` written as `0x` followed by exactly `w` hex digits.
pub open spec fn hex_text(v: nat, w: nat) -> Seq<u8> {
    seq![48u8, 120u8] + hex_digits(v, w)
}

pub open spec fn pow16(w: nat) -> nat
    decreases w,
{
    if w == 0 {
        1
    } else {
        16 * pow16((w - 1) as nat)
    }
}

/// The bytes of a string.
pub closed spec fn bytes_of(s: &str) -> Seq<u8> {
    s.spec_bytes()
}

/// What `bytes_of` stands for: the string's UTF-8 bytes.
pub proof fn lemma_bytes_of(s: &str)
    ensures
        bytes_of(s) == s.spec_bytes(),
{
}

/// The number of hex digits of `v` with no leading zeros (one for zero).
pub open spec fn hex_width(v: nat) -> nat
    decreases v,
{
    if v < 16 {
        1
    } else {
        1 + hex_width(v / 16)
    }
}

pub open spec fn max_nat(a: nat, b: nat) -> nat {
    if a >= b {
        a
    } else {
        b
    }
}

/// `v` written as `0x` followed by its hex digits, padded with zeros to at least `k` digits.
pub open spec fn hex_min_text(v: nat, k: nat) -> Seq<u8> {
    hex_text(v, max_nat(k, hex_width(v)))
}

pub proof fn lemma_pow16_monotonic(a: nat, b: nat)
    requires
        a <= b,
    ensures
        pow16(a) <= pow16(b),
    decreases b,
{
    if a < b {
        lemma_pow16_monotonic(a, (b - 1) as nat);
    }
}

/// A number lies below 16 to the power of its digit count.
pub proof fn lemma_below_pow16_width(v: nat)
    ensures
        v < pow16(hex_width(v)),
        hex_width(v) >= 1,
    decreases v,
{
    reveal_with_fuel(pow16, 2);
    if v >= 16 {
        lemma_below_pow16_width(v / 16);
        let p = pow16(hex_width(v / 16));
        assert(v < 16 * p) by (nonlinear_arith)
            requires
                v / 16 < p,
                v >= 0,
        ;
        assert(pow16(hex_width(v)) == 16 * p);
    }
}

/// A number below `16^k` has at most `k` digits.
pub proof fn lemma_hex_width_bound(v: nat, k: nat)
    requires
        v < pow16(k),
        k >= 1,
    ensures
        hex_width(v) <= k,
    decreases v,
{
    if v >= 16 {
        if k == 1 {
            assert(pow16(1) == 16) by {
                reveal_with_fuel(pow16, 2);
            }
        } else {
            let p = pow16((k - 1) as nat);
            assert(v / 16 < p) by (nonlinear_arith)
                requires
                    v < 16 * p,
            ;
            lemma_hex_width_bound(v / 16, (k - 1) as nat);
        }
    }
}

/// Every hex digit character differs from a line feed.
pub proof fn lemma_hex_digits_no_newline(v: nat, w: nat)
    ensures
        forall|i: int| 0 <= i < hex_digits(v, w).len() ==> hex_digits(v, w)[i] != 10u8,
    decreases w,
{
    if w > 0 {
        lemma_hex_digits_no_newline(v / 16, (w - 1) as nat);
        let pre = hex_digits(v / 16, (w - 1) as nat);
        assert(hex_digits(v, w) == pre.push(hex_char(v % 16)));
        assert forall|i: int| 0 <= i < hex_digits(v, w).len() implies hex_digits(v, w)[i] != 10u8 by {
            if i < pre.len() {
                assert(hex_digits(v, w)[i] == pre[i]);
            }
        }
    }
}

pub proof fn lemma_hex_text_len(v: nat, w: nat)
    ensures
        hex_digits(v, w).len() == w,
        hex_text(v, w).len() == w + 2,
    decreases w,
{
    if w > 0 {
        lemma_hex_text_len(v / 16, (w - 1) as nat);
    }
}

/// Two numbers below `16^w` with the same `w` hex digits are equal.
pub proof fn lemma_hex_digits_injective(a: nat, b: nat, w: nat)
    requires
        a < pow16(w),
        b < pow16(w),
        hex_digits(a, w) == hex_digits(b, w),
    ensures
        a == b,
    decreases w,
{
    if w > 0 {
        let pa = hex_digits(a / 16, (w - 1) as nat);
        let pb = hex_digits(b / 16, (w - 1) as nat);
        assert(hex_digits(a, w).last() == hex_char(a % 16));
        assert(hex_digits(b, w).last() == hex_char(b % 16));
        assert(hex_digits(a, w).drop_last() =~= pa);
        assert(hex_digits(b, w).drop_last() =~= pb);
        assert(a / 16 < pow16((w - 1) as nat));
        assert(b / 16 < pow16((w - 1) as nat));
        lemma_hex_digits_injective(a / 16, b / 16, (w - 1) as nat);
    }
}

/// Every 64-bit value has 16 hex digits.
pub proof fn lemma_u64_below_pow16(v: u64)
    ensures
        (v as nat) < pow16(16),
{
    reveal_with_fuel(pow16, 17);
    assert(pow16(16) == 0x1_0000_0000_0000_0000nat);
}

fn hex_width_exec(v: u64) -> (r: usize)
    ensures
        r as nat == hex_width(v as nat),
        1 <= r <= 16,
    decreases v,
{
    proof {
        lemma_u64_below_pow16(v);
        lemma_hex_width_bound(v as nat, 16);
        lemma_below_pow16_width(v as nat);
    }
    if v < 16 {
        1
    } else {
        let r = hex_width_exec(v / 16);
        r + 1
    }
}

fn hex_char_exec(d: u64) -> (r: u8)
    requires
        d < 16,
    ensures
        r == hex_char(d as nat),
{
    if d < 10 {
        48u8 + d as u8
    } else {
        87u8 + d as u8
    }
}

/// Append the bytes of `s`.
pub fn push_str(out: &mut Vec<u8>, s: &str)
    ensures
        final(out)@ == old(out)@ + bytes_of(s),
{
    let b = s.as_bytes();
    let ghost start = out@;
    let mut i: usize = 0;
    while i < b.len()
        invariant
            i <= b@.len(),
            b@ == bytes_of(s),
            out@ == start + b@.subrange(0, i as int),
        decreases b@.len() - i,
    {
        out.push(b[i]);
        i = i + 1;
        assert(out@ =~= start + b@.subrange(0, i as int));
    }
    assert(b@.subrange(0, b@.len() as int) =~= b@);
}

fn push_hex_digits(out: &mut Vec<u8>, v: u64, w: usize)
    ensures
        final(out)@ == old(out)@ + hex_digits(v as nat, w as nat),
    decreases w,
{
    if w == 0 {
        assert(old(out)@ + hex_digits(v as nat, 0) =~= old(out)@);
        return;
    }
    push_hex_digits(out, v / 16, w - 1);
    let c = hex_char_exec(v % 16);
    out.push(c);
    assert(hex_digits(v as nat, w as nat) == hex_digits((v / 16) as nat, (w - 1) as nat).push(
        hex_char((v % 16) as nat),
    ));
    assert(final(out)@ =~= old(out)@ + hex_digits(v as nat, w as nat));
}

/// Append `v` as `0x` followed by exactly `w` hex digits.
pub fn push_hex(out: &mut Vec<u8>, v: u64, w: usize)
    ensures
        final(out)@ == old(out)@ + hex_text(v as nat, w as nat),
{
    out.push(48u8);
    out.push(120u8);
    push_hex_digits(out, v, w);
    assert(final(out)@ =~= old(out)@ + hex_text(v as nat, w as nat));
}

/// Append `v` as `0x` followed by its hex digits, padded with zeros to at least `k` digits.
pub fn push_hex_min(out: &mut Vec<u8>, v: u64, k: usize)
    requires
        k <= 16,
    ensures
        final(out)@ == old(out)@ + hex_min_text(v as nat, k as nat),
{
    let w = hex_width_exec(v);
    let width = if k >= w { k } else { w };
    push_hex(out, v, width);
}

} // verus!

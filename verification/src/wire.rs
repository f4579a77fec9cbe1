//! Rendering of fixed-point scalars and commands into the ASCII wire form
//! the robot controller reads, and the sentinel framing of responses.

use vstd::prelude::*;
use crate::fixed::Fix;

verus! {

/// Decimal digit bytes of `n`, most significant first.
pub open spec fn dec_digits(n: nat) -> Seq<u8>
    decreases n,
{
    if n < 10 {
        seq![(48 + n) as u8]
    } else {
        dec_digits(n / 10).push((48 + n % 10) as u8)
    }
}

/// Exactly `k` decimal digit bytes: the low `k` digits of `n`, zero padded.
pub open spec fn pad_digits(n: nat, k: nat) -> Seq<u8>
    decreases k,
{
    if k == 0 {
        Seq::empty()
    } else {
        pad_digits(n / 10, (k - 1) as nat).push((48 + n % 10) as u8)
    }
}

/// The ten-power `10^k`.
pub open spec fn p10(k: nat) -> nat
    decreases k,
{
    if k == 0 {
        1
    } else {
        10 * p10((k - 1) as nat)
    }
}

/// The digits of a fraction `f / 10^k`, trailing zeros dropped.
pub open spec fn frac_digits(f: nat, k: nat) -> Seq<u8>
    decreases k,
{
    if k == 0 {
        Seq::empty()
    } else if f % 10 == 0 {
        frac_digits(f / 10, (k - 1) as nat)
    } else {
        pad_digits(f, k)
    }
}

/// The wire text of a fixed-point scalar of `m` micro-units: an optional
/// minus sign, the whole part, and when the fraction is not zero a point
/// followed by the fraction digits with trailing zeros dropped.
pub open spec fn render_fix(m: int) -> Seq<u8> {
    let a = (if m >= 0 { m } else { -m }) as nat;
    let sign: Seq<u8> = if m < 0 { seq![45u8] } else { Seq::empty() };
    let whole = dec_digits(a / 1_000_000);
    let frac = a % 1_000_000;
    if frac == 0 {
        sign + whole
    } else {
        sign + whole + seq![46u8] + frac_digits(frac, 6)
    }
}

/// Appends the decimal digits of `n`.
pub fn push_dec_u64(out: &mut Vec<u8>, n: u64)
    ensures
        final(out)@ == old(out)@ + dec_digits(n as nat),
    decreases n,
{
    if n < 10 {
        out.push(48 + n as u8);
    } else {
        push_dec_u64(out, n / 10);
        out.push(48 + (n % 10) as u8);
    }
    proof {
        assert(out@ =~= old(out)@ + dec_digits(n as nat));
    }
}

/// Appends the low `k` decimal digits of `n`, zero padded to width `k`.
fn push_pad(out: &mut Vec<u8>, n: u64, k: u64)
    requires
        k <= 6,
    ensures
        final(out)@ == old(out)@ + pad_digits(n as nat, k as nat),
    decreases k,
{
    if k > 0 {
        push_pad(out, n / 10, k - 1);
        out.push(48 + (n % 10) as u8);
    }
    proof {
        assert(out@ =~= old(out)@ + pad_digits(n as nat, k as nat));
    }
}

/// Appends the digits of the fraction `f / 10^6`, trailing zeros dropped.
fn push_frac(out: &mut Vec<u8>, f: u64)
    requires
        0 < f < 1_000_000,
    ensures
        final(out)@ == old(out)@ + frac_digits(f as nat, 6),
{
    proof {
        assert(p10(0) == 1);
        assert(p10(1) == 10);
        assert(p10(2) == 100);
        assert(p10(3) == 1000);
        assert(p10(4) == 10000);
        assert(p10(5) == 100000);
        assert(p10(6) == 1_000_000);
    }
    let mut g: u64 = f;
    let mut k: u64 = 6;
    while g % 10 == 0
        invariant
            0 < g,
            1 <= k <= 6,
            (g as nat) < p10(k as nat),
            frac_digits(f as nat, 6) == frac_digits(g as nat, k as nat),
            out@ == old(out)@,
        decreases k,
    {
        proof {
            // at width one the single digit cannot be zero, so k stays >= 1
            assert(p10(0) == 1);
            assert(p10(1) == 10);
            assert(k >= 2);
        }
        g = g / 10;
        k = k - 1;
    }
    push_pad(out, g, k);
}

/// Appends the wire text of one fixed-point scalar.
pub fn push_fix(out: &mut Vec<u8>, v: Fix)
    ensures
        final(out)@ == old(out)@ + render_fix(v@),
{
    let m: i64 = v.micros;
    let mag: u64 = if m >= 0 {
        m as u64
    } else {
        (-(m as i128)) as u64
    };
    if m < 0 {
        out.push(45);
    }
    let ip: u64 = mag / 1_000_000;
    let fp: u64 = mag % 1_000_000;
    push_dec_u64(out, ip);
    if fp > 0 {
        out.push(46);
        push_frac(out, fp);
    }
    proof {
        assert(out@ =~= old(out)@ + render_fix(v@));
    }
}

} // verus!

verus! {

/// The sentinel byte that ends every response on the wire.
pub const SENTINEL: u8 = 33;

/// A response as the device frames it: the payload then the sentinel byte.
pub open spec fn framed(payload: Seq<u8>) -> Seq<u8> {
    payload.push(SENTINEL)
}

/// What remains of a raw read once its trailing byte is removed; an empty
/// read stays empty.
pub open spec fn stripped(raw: Seq<u8>) -> Seq<u8> {
    if raw.len() > 0 {
        raw.take(raw.len() - 1)
    } else {
        raw
    }
}

/// Removes the trailing byte of a raw response read, as the request call
/// hands responses to every caller.
pub fn strip_frame(raw: &Vec<u8>) -> (r: Vec<u8>)
    ensures
        r@ == stripped(raw@),
{
    let mut r: Vec<u8> = Vec::new();
    let n: usize = raw.len();
    if n == 0 {
        return r;
    }
    let mut i: usize = 0;
    while i < n - 1
        invariant
            n == raw@.len(),
            n > 0,
            i <= n - 1,
            r@ == raw@.take(i as int),
        decreases n - 1 - i,
    {
        r.push(raw[i]);
        proof {
            assert(r@ =~= raw@.take(i + 1 as int));
        }
        i = i + 1;
    }
    proof {
        assert(r@ =~= stripped(raw@));
    }
    r
}

/// Framing round trip: a response that ends in the sentinel comes back from
/// the stripping step as exactly the payload, with no other change.
pub proof fn lemma_frame_round_trip(payload: Seq<u8>)
    ensures
        stripped(framed(payload)) == payload,
{
    assert(stripped(framed(payload)) =~= payload);
}

/// The ASCII lower-case fold of one byte.
pub open spec fn lower_byte(b: u8) -> u8 {
    if 65 <= b <= 90 {
        (b + 32) as u8
    } else {
        b
    }
}

/// The ASCII lower-case fold of a byte sequence.
pub open spec fn lower_bytes(s: Seq<u8>) -> Seq<u8> {
    s.map_values(|b: u8| lower_byte(b))
}

/// Whether two byte strings are equal.
pub fn bytes_eq(a: &Vec<u8>, b: &Vec<u8>) -> (r: bool)
    ensures
        r == (a@ == b@),
{
    if a.len() != b.len() {
        return false;
    }
    let n: usize = a.len();
    let mut i: usize = 0;
    while i < n
        invariant
            n == a@.len() == b@.len(),
            i <= n,
            forall|j: int| 0 <= j < i ==> a@[j] == b@[j],
        decreases n - i,
    {
        if a[i] != b[i] {
            return false;
        }
        i = i + 1;
    }
    proof {
        assert(a@ =~= b@);
    }
    true
}

/// Whether two byte strings are equal up to ASCII case.
pub fn bytes_eq_nocase(a: &Vec<u8>, b: &Vec<u8>) -> (r: bool)
    ensures
        r == (lower_bytes(a@) == lower_bytes(b@)),
{
    if a.len() != b.len() {
        assert(lower_bytes(a@).len() != lower_bytes(b@).len());
        return false;
    }
    let n: usize = a.len();
    let mut i: usize = 0;
    while i < n
        invariant
            n == a@.len() == b@.len(),
            i <= n,
            forall|j: int| 0 <= j < i ==> lower_byte(a@[j]) == lower_byte(b@[j]),
        decreases n - i,
    {
        let x: u8 = a[i];
        let y: u8 = b[i];
        let xl: u8 = if 65 <= x && x <= 90 {
            x + 32
        } else {
            x
        };
        let yl: u8 = if 65 <= y && y <= 90 {
            y + 32
        } else {
            y
        };
        if xl != yl {
            assert(lower_bytes(a@)[i as int] != lower_bytes(b@)[i as int]);
            return false;
        }
        i = i + 1;
    }
    proof {
        assert(lower_bytes(a@) =~= lower_bytes(b@));
    }
    true
}

} // verus!

//! Parsing of the numeric payloads the device sends back: decimal scalars
//! into fixed-point, comma-separated lists, and the bracket trimming that
//! every delimited payload goes through first.

use vstd::prelude::*;
use crate::fixed::{Fix, FIX_LIM, fits_fix};
use crate::wire::p10;

verus! {

/// Whether a byte is an ASCII decimal digit.
pub open spec fn is_digit(b: u8) -> bool {
    48 <= b <= 57
}

/// Whether every byte of a sequence is a decimal digit.
pub open spec fn all_digits(s: Seq<u8>) -> bool {
    forall|i: int| 0 <= i < s.len() ==> is_digit(s[i])
}

/// The value of a digit string, most significant digit first.
pub open spec fn digits_val(s: Seq<u8>) -> int
    decreases s.len(),
{
    if s.len() == 0 {
        0
    } else {
        10 * digits_val(s.drop_last()) + (s.last() - 48)
    }
}

/// The index of the first decimal point, or the length when there is none.
pub open spec fn find_dot(s: Seq<u8>) -> int
    decreases s.len(),
{
    if s.len() == 0 {
        0
    } else if s[0] == 46 {
        0
    } else {
        1 + find_dot(s.drop_first())
    }
}

/// Whether the scalar text opens with a minus sign.
pub open spec fn sign_negative(s: Seq<u8>) -> bool {
    s.len() > 0 && s[0] == 45
}

/// The scalar text with any leading sign removed.
pub open spec fn body_of(s: Seq<u8>) -> Seq<u8> {
    if s.len() > 0 && (s[0] == 45 || s[0] == 43) {
        s.drop_first()
    } else {
        s
    }
}

/// The micro-unit value of a fraction digit string: its first six digits,
/// padded with zeros on the right to six places.
pub open spec fn frac_micro(f: Seq<u8>) -> int {
    if f.len() >= 6 {
        digits_val(f.take(6))
    } else {
        digits_val(f) * p10((6 - f.len()) as nat)
    }
}

/// The grammar of a scalar on the wire, and its micro-unit value: an
/// optional sign, then digits with at most one point somewhere among them,
/// at least one digit in all, at most sixteen digits before the point, and
/// a value within the library's working range. Fraction digits beyond the
/// sixth are read but do not contribute.
pub open spec fn parse_fix_spec(s: Seq<u8>) -> Option<int> {
    let body = body_of(s);
    let d = find_dot(body);
    let ip = body.take(d);
    let fp = if d < body.len() {
        body.skip(d + 1)
    } else {
        Seq::<u8>::empty()
    };
    if body.len() == 0 {
        None
    } else if !(all_digits(ip) && all_digits(fp)) {
        None
    } else if ip.len() == 0 && fp.len() == 0 {
        None
    } else if ip.len() > 16 {
        None
    } else {
        let mag = digits_val(ip) * 1_000_000 + frac_micro(fp);
        if mag > FIX_LIM as int {
            None
        } else if sign_negative(s) {
            Some(-mag)
        } else {
            Some(mag)
        }
    }
}

/// A digit string's value is bounded by the ten-power of its length.
proof fn lemma_digits_val_bounds(s: Seq<u8>)
    requires
        all_digits(s),
    ensures
        0 <= digits_val(s) < p10(s.len()),
    decreases s.len(),
{
    if s.len() > 0 {
        lemma_digits_val_bounds(s.drop_last());
        assert(0 <= s.last() - 48 <= 9);
        assert(10 * digits_val(s.drop_last()) + 9 < 10 * p10(s.drop_last().len())) by (
        nonlinear_arith)
            requires
                digits_val(s.drop_last()) < p10(s.drop_last().len()),
        ;
    }
}

/// The first point sits no earlier than any point-free prefix ends, and
/// never past the end.
proof fn lemma_find_dot_lb(s: Seq<u8>, k: int)
    requires
        0 <= k <= s.len(),
        forall|i: int| 0 <= i < k ==> s[i] != 46,
    ensures
        k <= find_dot(s) <= s.len(),
    decreases s.len(),
{
    if s.len() > 0 && s[0] != 46 {
        assert(forall|i: int|
            0 <= i < k - 1 ==> s.drop_first()[i] == s[i + 1] && s.drop_first()[i] != 46);
        lemma_find_dot_lb(
            s.drop_first(),
            if k > 0 {
                k - 1
            } else {
                0
            },
        );
    }
}

/// A point-free prefix followed by a point, or by the end, pins the first
/// point's index exactly.
proof fn lemma_find_dot_at(s: Seq<u8>, k: int)
    requires
        0 <= k <= s.len(),
        forall|i: int| 0 <= i < k ==> s[i] != 46,
        k == s.len() || s[k] == 46,
    ensures
        find_dot(s) == k,
    decreases s.len(),
{
    if k == 0 {
        if s.len() > 0 {
            assert(s[0] == 46);
        }
    } else {
        assert(forall|i: int|
            0 <= i < k - 1 ==> s.drop_first()[i] == s[i + 1] && s.drop_first()[i] != 46);
        assert(k - 1 == s.drop_first().len() || s.drop_first()[k - 1] == s[k]);
        lemma_find_dot_at(s.drop_first(), k - 1);
    }
}

/// The ten-powers up to the sixteen whole digits the grammar admits.
proof fn lemma_p10_values()
    ensures
        p10(0) == 1,
        p10(1) == 10,
        p10(2) == 100,
        p10(3) == 1000,
        p10(4) == 10000,
        p10(5) == 100000,
        p10(6) == 1_000_000,
        p10(16) == 10_000_000_000_000_000,
{
    assert(p10(0) == 1);
    assert(p10(1) == 10);
    assert(p10(2) == 100);
    assert(p10(3) == 1000);
    assert(p10(4) == 10000);
    assert(p10(5) == 100000);
    assert(p10(6) == 1_000_000);
    assert(p10(7) == 10 * p10(6));
    assert(p10(8) == 10 * p10(7));
    assert(p10(9) == 10 * p10(8));
    assert(p10(10) == 10 * p10(9));
    assert(p10(11) == 10 * p10(10));
    assert(p10(12) == 10 * p10(11));
    assert(p10(13) == 10 * p10(12));
    assert(p10(14) == 10 * p10(13));
    assert(p10(15) == 10 * p10(14));
    assert(p10(16) == 10 * p10(15));
}

/// Every ten-power is at least one.
proof fn lemma_p10_pos(k: nat)
    ensures
        p10(k) >= 1,
    decreases k,
{
    if k > 0 {
        lemma_p10_pos((k - 1) as nat);
    }
}

/// Ten-powers grow with the exponent.
proof fn lemma_p10_mono(a: nat, b: nat)
    requires
        a <= b,
    ensures
        p10(a) <= p10(b),
    decreases b,
{
    if a < b {
        lemma_p10_mono(a, (b - 1) as nat);
        lemma_p10_pos((b - 1) as nat);
        assert(p10(b) == 10 * p10((b - 1) as nat));
    }
}

/// The exec ten-power for fraction padding.
fn pow10_small(e: usize) -> (r: u64)
    requires
        e <= 6,
    ensures
        r == p10(e as nat),
        r <= 1_000_000,
{
    proof {
        lemma_p10_values();
    }
    if e == 0 {
        1
    } else if e == 1 {
        10
    } else if e == 2 {
        100
    } else if e == 3 {
        1000
    } else if e == 4 {
        10000
    } else if e == 5 {
        100000
    } else {
        1000000
    }
}

/// Parses one scalar from its wire text, exactly per `parse_fix_spec`.
#[verifier::rlimit(100)]
#[verifier::spinoff_prover]
#[verifier::loop_isolation(false)]
pub fn parse_fix(seg: &Vec<u8>) -> (r: Option<Fix>)
    ensures
        r is Some <==> parse_fix_spec(seg@) is Some,
        r is Some ==> r->Some_0@ == parse_fix_spec(seg@)->Some_0 && r->Some_0.valid(),
{
    let n: usize = seg.len();
    let mut start: usize = 0;
    let mut neg: bool = false;
    if n > 0 && seg[0] == 45 {
        neg = true;
        start = 1;
    } else if n > 0 && seg[0] == 43 {
        start = 1;
    }
    let ghost body = body_of(seg@);
    proof {
        assert(body =~= seg@.skip(start as int));
    }
    if start == n {
        return None;
    }
    // scan the whole part, accumulating its value
    let mut j: usize = start;
    let mut acc: u64 = 0;
    while j < n && seg[j] != 46
        invariant
            n == seg@.len(),
            start <= j <= n,
            start < n,
            body == seg@.skip(start as int),
            forall|t: int| start <= t < j ==> is_digit(seg@[t]) && seg@[t] != 46,
            j - start <= 16,
            acc == digits_val(seg@.subrange(start as int, j as int)),
            acc < 10_000_000_000_000_000,
        decreases n - j,
    {
        let b: u8 = seg[j];
        proof {
            lemma_find_dot_lb(body, j + 1 - start as int);
        }
        if b < 48 || b > 57 {
            // a non-digit before any point lands in the whole part
            proof {
                assert(body.take(find_dot(body))[j - start as int] == b);
                assert(!is_digit(body.take(find_dot(body))[j - start as int]));
                assert(!all_digits(body.take(find_dot(body))));
            }
            return None;
        }
        if j - start == 16 {
            // a seventeenth whole digit puts the text out of the grammar
            proof {
                assert(body.take(find_dot(body)).len() > 16);
            }
            return None;
        }
        proof {
            assert(seg@.subrange(start as int, j + 1 as int).drop_last() =~= seg@.subrange(
                start as int,
                j as int,
            ));
            assert(forall|t: int|
                0 <= t < j + 1 - start ==> #[trigger] seg@.subrange(start as int, j + 1 as int)[t]
                    == seg@[start + t]);
            lemma_digits_val_bounds(seg@.subrange(start as int, j + 1 as int));
            lemma_p10_values();
            lemma_p10_mono((j + 1 - start) as nat, 16);
        }
        acc = acc * 10 + (b - 48) as u64;
        j = j + 1;
    }
    proof {
        lemma_find_dot_at(body, j - start as int);
        assert(body.take(j - start as int) =~= seg@.subrange(start as int, j as int));
    }
    let ip_len: usize = j - start;
    let ghost fpseq: Seq<u8> = if j < n {
        body.skip(j + 1 - start as int)
    } else {
        Seq::<u8>::empty()
    };
    // scan the fraction part, accumulating its first six digits
    let mut facc: u64 = 0;
    let mut fcount: usize = 0;
    let mut flen: usize = 0;
    if j < n {
        let fstart: usize = j + 1;
        proof {
            assert(fpseq =~= seg@.subrange(fstart as int, n as int));
        }
        let mut k: usize = fstart;
        while k < n
            invariant
                n == seg@.len(),
                fstart <= k <= n,
                fstart <= n,
                fpseq == seg@.subrange(fstart as int, n as int),
                forall|t: int| fstart <= t < k ==> is_digit(seg@[t]),
                fcount == if k - fstart <= 6 {
                    k - fstart
                } else {
                    6
                },
                facc == digits_val(fpseq.take(fcount as int)),
                facc < 1_000_000,
            decreases n - k,
        {
            let b: u8 = seg[k];
            if b < 48 || b > 57 {
                proof {
                    assert(fpseq[k - fstart as int] == b);
                    assert(!all_digits(fpseq));
                }
                return None;
            }
            if fcount < 6 {
                proof {
                    assert(fpseq.take(fcount + 1 as int).drop_last() =~= fpseq.take(fcount as int));
                    assert(fpseq.take(fcount + 1 as int).last() == seg@[k as int]);
                    lemma_digits_val_bounds(fpseq.take(fcount + 1 as int));
                    lemma_p10_values();
                    lemma_p10_mono((fcount + 1) as nat, 6);
                }
                facc = facc * 10 + (b - 48) as u64;
                fcount = fcount + 1;
            }
            k = k + 1;
        }
        flen = n - fstart;
    }
    if ip_len == 0 && flen == 0 {
        return None;
    }
    // all grammar checks have passed; assemble the magnitude
    proof {
        assert(all_digits(body.take(find_dot(body))));
        assert(all_digits(fpseq));
        if flen < 6 {
            assert(fpseq.take(fcount as int) =~= fpseq);
        }
        lemma_digits_val_bounds(seg@.subrange(start as int, j as int));
        lemma_p10_values();
    }
    let pw: u64 = pow10_small(6 - fcount);
    proof {
        assert(facc * pw <= 1_000_000_000_000) by (nonlinear_arith)
            requires
                0 <= facc < 1_000_000,
                0 <= pw <= 1_000_000,
        ;
    }
    let frac_total: u64 = facc * pw;
    proof {
        assert(frac_total == frac_micro(fpseq));
    }
    let mag: u128 = acc as u128 * 1_000_000 + frac_total as u128;
    if mag > FIX_LIM as u128 {
        return None;
    }
    let m: i64 = mag as i64;
    if neg {
        Some(Fix { micros: -m })
    } else {
        Some(Fix { micros: m })
    }
}


/// The index of the first comma, or the length when there is none.
pub open spec fn find_comma(s: Seq<u8>) -> int
    decreases s.len(),
{
    if s.len() == 0 {
        0
    } else if s[0] == 44 {
        0
    } else {
        1 + find_comma(s.drop_first())
    }
}

/// The first comma's index lies between zero and the length.
proof fn lemma_find_comma_bounds(s: Seq<u8>)
    ensures
        0 <= find_comma(s) <= s.len(),
    decreases s.len(),
{
    if s.len() > 0 && s[0] != 44 {
        lemma_find_comma_bounds(s.drop_first());
    }
}

/// A comma-free prefix followed by a comma, or by the end, pins the first
/// comma's index exactly.
proof fn lemma_find_comma_at(s: Seq<u8>, k: int)
    requires
        0 <= k <= s.len(),
        forall|i: int| 0 <= i < k ==> s[i] != 44,
        k == s.len() || s[k] == 44,
    ensures
        find_comma(s) == k,
    decreases s.len(),
{
    if k == 0 {
        if s.len() > 0 {
            assert(s[0] == 44);
        }
    } else {
        assert(forall|i: int|
            0 <= i < k - 1 ==> s.drop_first()[i] == s[i + 1] && s.drop_first()[i] != 44);
        assert(k - 1 == s.drop_first().len() || s.drop_first()[k - 1] == s[k]);
        lemma_find_comma_at(s.drop_first(), k - 1);
    }
}

/// A value the scalar grammar yields is always within working range.
proof fn lemma_parse_fix_spec_fits(seg: Seq<u8>)
    ensures
        parse_fix_spec(seg) is Some ==> fits_fix(parse_fix_spec(seg)->Some_0),
{
    let body = body_of(seg);
    let d = find_dot(body);
    let ip = body.take(d);
    let fp = if d < body.len() {
        body.skip(d + 1)
    } else {
        Seq::<u8>::empty()
    };
    if parse_fix_spec(seg) is Some {
        lemma_digits_val_bounds(ip);
        if fp.len() >= 6 {
            lemma_digits_val_bounds(fp.take(6));
        } else {
            lemma_digits_val_bounds(fp);
            lemma_p10_pos((6 - fp.len()) as nat);
            assert(digits_val(fp) * p10((6 - fp.len()) as nat) >= 0) by (nonlinear_arith)
                requires
                    digits_val(fp) >= 0,
                    p10((6 - fp.len()) as nat) >= 1,
            ;
        }
    }
}

/// Every value of a parsed list is within working range.
proof fn lemma_parsed_fixes_fit(s: Seq<u8>)
    ensures
        forall|i: int|
            0 <= i < parsed_fixes(s).len() ==> fits_fix(#[trigger] parsed_fixes(s)[i]),
    decreases s.len(),
{
    lemma_find_comma_bounds(s);
    let c = find_comma(s);
    if c < s.len() {
        lemma_parse_fix_spec_fits(s.take(c));
        lemma_parsed_fixes_fit(s.skip(c + 1));
        assert forall|i: int| 0 <= i < parsed_fixes(s).len() implies fits_fix(
            #[trigger] parsed_fixes(s)[i],
        ) by {
            let head = maybe_one(s.take(c));
            if i < head.len() {
                assert(parsed_fixes(s)[i] == head[i]);
            } else {
                assert(parsed_fixes(s)[i] == parsed_fixes(s.skip(c + 1))[i - head.len()]);
            }
        }
    } else {
        lemma_parse_fix_spec_fits(s);
    }
}

/// One field's contribution to a parsed list: its value, or nothing when it
/// does not parse.
pub open spec fn maybe_one(seg: Seq<u8>) -> Seq<int> {
    match parse_fix_spec(seg) {
        Some(v) => seq![v],
        None => Seq::empty(),
    }
}

/// The values of a comma-separated payload: each field parsed by the scalar
/// grammar, fields that do not parse silently dropped.
pub open spec fn parsed_fixes(s: Seq<u8>) -> Seq<int>
    decreases s.len(),
    via parsed_fixes_dec
{
    let c = find_comma(s);
    if c < s.len() {
        maybe_one(s.take(c)) + parsed_fixes(s.skip(c + 1))
    } else {
        maybe_one(s)
    }
}

#[via_fn]
proof fn parsed_fixes_dec(s: Seq<u8>) {
    lemma_find_comma_bounds(s);
}

/// Parses the fields of `inp` from `from` onward, appending each value that
/// parses to `out`.
#[verifier::loop_isolation(false)]
fn collect_fixes(inp: &Vec<u8>, from: usize, out: &mut Vec<Fix>)
    requires
        from <= inp@.len(),
    ensures
        final(out)@.map_values(|f: Fix| f@) == old(out)@.map_values(|f: Fix| f@) + parsed_fixes(
            inp@.skip(from as int)),
    decreases inp@.len() - from,
{
    let n: usize = inp.len();
    let mut k: usize = from;
    while k < n && inp[k] != 44
        invariant
            from <= k <= n,
            forall|t: int| from <= t < k ==> inp@[t] != 44,
        decreases n - k,
    {
        k = k + 1;
    }
    let mut seg: Vec<u8> = Vec::new();
    let mut t: usize = from;
    while t < k
        invariant
            from <= t <= k <= n,
            seg@ == inp@.subrange(from as int, t as int),
        decreases k - t,
    {
        seg.push(inp[t]);
        proof {
            assert(seg@ =~= inp@.subrange(from as int, t + 1 as int));
        }
        t = t + 1;
    }
    proof {
        assert(forall|i: int|
            0 <= i < k - from ==> #[trigger] inp@.skip(from as int)[i] == inp@[from + i]);
        lemma_find_comma_at(inp@.skip(from as int), k - from as int);
        assert(inp@.skip(from as int).take(k - from as int) =~= seg@);
    }
    let parsed: Option<Fix> = parse_fix(&seg);
    let ghost mid = out@;
    match parsed {
        Some(f) => {
            out.push(f);
            proof {
                assert(out@.map_values(|f: Fix| f@) =~= mid.map_values(|f: Fix| f@) + maybe_one(
                    seg@));
            }
        },
        None => {
            proof {
                assert(out@.map_values(|f: Fix| f@) =~= mid.map_values(|f: Fix| f@) + maybe_one(
                    seg@));
            }
        },
    }
    if k < n {
        collect_fixes(inp, k + 1, out);
        proof {
            assert(inp@.skip(from as int).skip(k + 1 - from as int) =~= inp@.skip(k + 1 as int));
            assert(out@.map_values(|f: Fix| f@) =~= mid.map_values(|f: Fix| f@) + parsed_fixes(
                inp@.skip(from as int)));
        }
    } else {
        proof {
            assert(inp@.skip(from as int) =~= seg@);
            assert(out@.map_values(|f: Fix| f@) =~= mid.map_values(|f: Fix| f@) + parsed_fixes(
                inp@.skip(from as int)));
        }
    }
}

/// Splits a delimited payload on commas and parses every field by the
/// scalar grammar, keeping the fields that parse, in their wire order.
pub fn str_to_vector(inp: &Vec<u8>) -> (r: Vec<Fix>)
    ensures
        r@.map_values(|f: Fix| f@) == parsed_fixes(inp@),
        forall|i: int| 0 <= i < r@.len() ==> (#[trigger] r@[i]).valid(),
{
    let mut out: Vec<Fix> = Vec::new();
    collect_fixes(inp, 0, &mut out);
    proof {
        assert(inp@.skip(0) =~= inp@);
        lemma_parsed_fixes_fit(inp@);
        assert(forall|i: int|
            0 <= i < out@.len() ==> (#[trigger] out@[i])@ == out@.map_values(|f: Fix| f@)[i]);
    }
    out
}

/// What remains of a payload once its first and last characters go: the
/// device brackets its delimited lists, and the brackets come off here.
pub open spec fn inner_of(s: Seq<u8>) -> Seq<u8> {
    if s.len() >= 2 {
        s.subrange(1, s.len() - 1)
    } else {
        Seq::empty()
    }
}

/// Removes the first and the last character of a payload.
pub fn rem_first_and_last(value: &Vec<u8>) -> (r: Vec<u8>)
    ensures
        r@ == inner_of(value@),
{
    let mut r: Vec<u8> = Vec::new();
    let n: usize = value.len();
    if n < 2 {
        proof {
            assert(r@ =~= inner_of(value@));
        }
        return r;
    }
    let mut i: usize = 1;
    while i < n - 1
        invariant
            n == value@.len(),
            2 <= n,
            1 <= i <= n - 1,
            r@ == value@.subrange(1, i as int),
        decreases n - i,
    {
        r.push(value[i]);
        proof {
            assert(r@ =~= value@.subrange(1, i + 1 as int));
        }
        i = i + 1;
    }
    r
}

} // verus!

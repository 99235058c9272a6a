//! Formatting the decoder process's numeric arguments.
//!
//! The external decoder takes its target sample rate, channel count and seek
//! offset as decimal text on its command line; the seek offset is given as
//! seconds with exactly three fractional digits. That text is produced here,
//! exactly: the decimal writer is the inverse of the digit reader in
//! [`crate::probe`], and a produced seek argument reads back as the
//! millisecond offset it was made from.

use vstd::prelude::*;

use crate::probe::{all_digits, decimal_ms, digits_val, first_dot, frac_ms, is_digit};

verus! {

/// The canonical decimal digits of `v`: no sign, no leading zero (except for
/// the single digit of zero itself).
pub open spec fn decimal_digits(v: nat) -> Seq<u8>
    decreases v,
{
    if v < 10 {
        seq![(48 + v) as u8]
    } else {
        decimal_digits(v / 10).push((48 + v % 10) as u8)
    }
}

/// The canonical decimal digits read back as the number they were made from.
pub proof fn lemma_decimal_digits_val(v: nat)
    ensures
        decimal_digits(v).len() >= 1,
        all_digits(decimal_digits(v)),
        digits_val(decimal_digits(v)) == v,
    decreases v,
{
    if v < 10 {
        let s = decimal_digits(v);
        assert(s =~= seq![(48 + v) as u8]);
        assert(s.drop_last() =~= Seq::<u8>::empty());
        assert(digits_val(Seq::<u8>::empty()) == 0);
        assert(digits_val(s) == digits_val(s.drop_last()) * 10 + (s.last() - 48));
    } else {
        lemma_decimal_digits_val(v / 10);
        let rec = decimal_digits((v / 10) as nat);
        let s = decimal_digits(v);
        assert(s == rec.push((48 + v % 10) as u8));
        assert(s.drop_last() =~= rec);
        assert(s.last() == (48 + v % 10) as u8);
        vstd::arithmetic::div_mod::lemma_mod_division_less_than_divisor(v as int, 10);
        assert(digits_val(s) == digits_val(rec) * 10 + (s.last() - 48));
        assert(v / 10 * 10 + v % 10 == v) by {
            vstd::arithmetic::div_mod::lemma_fundamental_div_mod(v as int, 10);
        }
        assert forall|i: int| 0 <= i < decimal_digits(v).len() implies is_digit(
            #[trigger] decimal_digits(v)[i],
        ) by {
            if i < rec.len() {
                assert(decimal_digits(v)[i] == rec[i]);
            }
        }
    }
}

/// Write `v` in decimal.
pub fn u64_to_decimal(v: u64) -> (r: Vec<u8>)
    ensures
        r@ == decimal_digits(v as nat),
    decreases v,
{
    if v < 10 {
        let mut out: Vec<u8> = Vec::new();
        out.push(48 + v as u8);
        proof {
            assert(out@ =~= decimal_digits(v as nat));
        }
        out
    } else {
        let mut out = u64_to_decimal(v / 10);
        out.push(48 + (v % 10) as u8);
        proof {
            assert(out@ =~= decimal_digits(v as nat));
        }
        out
    }
}

/// A millisecond offset written as seconds with exactly three fractional
/// digits, the form the decoder's seek argument takes.
pub open spec fn spec_seek_seconds(ms: nat) -> Seq<u8> {
    decimal_digits(ms / 1000) + seq![46u8] + seq![
        (48 + (ms % 1000) / 100) as u8,
        (48 + ((ms % 1000) / 10) % 10) as u8,
        (48 + (ms % 1000) % 10) as u8,
    ]
}

/// In text whose first segment is all digits, the first dot is the one that
/// follows that segment.
proof fn lemma_first_dot_after_digits(a: Seq<u8>, b: Seq<u8>)
    requires
        all_digits(a),
    ensures
        first_dot(a + seq![46u8] + b) == a.len(),
    decreases a.len(),
{
    let s = a + seq![46u8] + b;
    if a.len() == 0 {
        assert(s[0] == 46);
    } else {
        assert(s[0] == a[0]);
        assert(is_digit(a[0]));
        assert(s[0] != 46);
        assert(all_digits(a.skip(1)));
        lemma_first_dot_after_digits(a.skip(1), b);
        assert(s.skip(1) =~= a.skip(1) + seq![46u8] + b);
    }
}

/// Write the decoder's seek argument for a millisecond offset.
pub fn seek_seconds_arg(ms: u64) -> (r: Vec<u8>)
    ensures
        r@ == spec_seek_seconds(ms as nat),
{
    let mut out = u64_to_decimal(ms / 1000);
    let f = ms % 1000;
    out.push(46);
    out.push(48 + (f / 100) as u8);
    out.push(48 + ((f / 10) % 10) as u8);
    out.push(48 + (f % 10) as u8);
    proof {
        assert(out@ =~= spec_seek_seconds(ms as nat));
    }
    out
}

/// The seek argument round-trips: read back as a decimal seconds string, it
/// denotes exactly the millisecond offset it was written from.
pub proof fn lemma_seek_seconds_round_trip(ms: nat)
    ensures
        decimal_ms(spec_seek_seconds(ms)) == Some(ms as int),
{
    let whole = decimal_digits(ms / 1000);
    let f = ms % 1000;
    let frac = seq![(48 + f / 100) as u8, (48 + (f / 10) % 10) as u8, (48 + f % 10) as u8];
    let s = spec_seek_seconds(ms);
    lemma_decimal_digits_val(ms / 1000);
    lemma_first_dot_after_digits(whole, frac);
    assert(s.take(whole.len() as int) =~= whole);
    assert(s.skip(whole.len() as int + 1) =~= frac);
    vstd::arithmetic::div_mod::lemma_mod_division_less_than_divisor(ms as int, 1000);
    assert(all_digits(frac)) by {
        vstd::arithmetic::div_mod::lemma_div_is_ordered(f as int, 999, 100);
        vstd::arithmetic::div_mod::lemma_mod_division_less_than_divisor(f as int / 10, 10);
        vstd::arithmetic::div_mod::lemma_mod_division_less_than_divisor(f as int, 10);
        vstd::arithmetic::div_mod::lemma_div_pos_is_pos(f as int, 100);
        vstd::arithmetic::div_mod::lemma_div_pos_is_pos(f as int, 10);
        vstd::arithmetic::div_mod::lemma_mod_division_less_than_divisor(f as int / 10, 10);
    }
    assert(frac_ms(frac) == f) by {
        vstd::arithmetic::div_mod::lemma_fundamental_div_mod(f as int, 10);
        vstd::arithmetic::div_mod::lemma_fundamental_div_mod(f as int / 10, 10);
        vstd::arithmetic::div_mod::lemma_div_denominator(f as int, 10, 10);
    }
    assert(digits_val(whole) * 1000 + frac_ms(frac) == ms) by {
        vstd::arithmetic::div_mod::lemma_fundamental_div_mod(ms as int, 1000);
    }
}

} // verus!

//! Sample arithmetic: fixed-point volume scaling and crossfade mixing.
//!
//! The engine works on interleaved PCM samples held as `i32` fixed-point
//! values. Volume is a fixed-point factor where [`VOLUME_UNIT`] stands for
//! unity gain, so `volume = VOLUME_UNIT / 2` attenuates by one half.

use vstd::prelude::*;

verus! {

/// Fixed-point unity gain: a volume of `VOLUME_UNIT` leaves samples unchanged.
pub const VOLUME_UNIT: u32 = 1000;

/// Division of `n` by `d > 0`, truncated toward zero, as Rust's integer
/// division truncates.
pub open spec fn div_trunc(n: int, d: int) -> int {
    if n >= 0 {
        n / d
    } else {
        -((-n) / d)
    }
}

/// The sample produced by scaling `s` by the volume factor `v`
/// (`v == VOLUME_UNIT` is unity gain), before clamping to the `i32` range.
pub open spec fn scaled(s: int, v: int) -> int {
    div_trunc(s * v, VOLUME_UNIT as int)
}

/// `x` clamped into the representable range of `i32`.
pub open spec fn clamp_i32(x: int) -> int {
    if x < i32::MIN as int {
        i32::MIN as int
    } else if x > i32::MAX as int {
        i32::MAX as int
    } else {
        x
    }
}

/// Scale one sample by a volume factor, clamping to the `i32` range.
pub fn apply_volume(s: i32, v: u32) -> (r: i32)
    ensures
        r == clamp_i32(scaled(s as int, v as int)),
{
    if s >= 0 {
        let a: u64 = s as u64;
        let b: u64 = v as u64;
        proof {
            assert(a * b <= 0x7fff_ffff * 0xffff_ffff) by (nonlinear_arith)
                requires
                    0 <= a <= 0x7fff_ffff,
                    0 <= b <= 0xffff_ffff,
            ;
        }
        let wide: u64 = a * b / (VOLUME_UNIT as u64);
        proof {
            assert(s as int * v as int >= 0 && s as int * v as int / (VOLUME_UNIT as int) >= 0)
                by (nonlinear_arith)
                requires
                    s >= 0,
                    v >= 0,
            ;
            assert(wide == scaled(s as int, v as int));
        }
        if wide > i32::MAX as u64 {
            i32::MAX
        } else {
            wide as i32
        }
    } else {
        let mag: u64 = (-(s as i64)) as u64;
        let b: u64 = v as u64;
        proof {
            assert(mag * b <= 0x8000_0000 * 0xffff_ffff) by (nonlinear_arith)
                requires
                    0 <= mag <= 0x8000_0000,
                    0 <= b <= 0xffff_ffff,
            ;
        }
        let wide: u64 = mag * b / (VOLUME_UNIT as u64);
        proof {
            assert(mag as int * b as int == -(s as int * v as int) && s as int * v as int <= 0)
                by (nonlinear_arith)
                requires
                    s < 0,
                    v >= 0,
                    mag as int == -(s as int),
                    b == v,
            ;
            assert(mag as int * b as int / (VOLUME_UNIT as int) >= 0) by (nonlinear_arith)
                requires
                    mag as int * b as int >= 0,
            ;
            if s as int * v as int == 0 {
                assert(wide == 0int / (VOLUME_UNIT as int));
                assert(scaled(s as int, v as int) == 0int / (VOLUME_UNIT as int));
            } else {
                assert(scaled(s as int, v as int) == -(wide as int));
            }
        }
        if wide > 0x8000_0000 {
            i32::MIN
        } else {
            (-(wide as i64)) as i32
        }
    }
}

/// Division by `d > 0` truncated toward zero never moves the result away from
/// zero farther than the numerator, and is monotone in the numerator.
pub proof fn lemma_div_trunc_ordered(n1: int, n2: int, d: int)
    requires
        0 < d,
        n1 <= n2,
    ensures
        div_trunc(n1, d) <= div_trunc(n2, d),
{
    if n1 >= 0 {
        vstd::arithmetic::div_mod::lemma_div_is_ordered(n1, n2, d);
    } else if n2 < 0 {
        vstd::arithmetic::div_mod::lemma_div_is_ordered(-n2, -n1, d);
    } else {
        vstd::arithmetic::div_mod::lemma_div_pos_is_pos(-n1, d);
        vstd::arithmetic::div_mod::lemma_div_pos_is_pos(n2, d);
    }
}

/// The crossfade-mixed sample at `elapsed = e` of a fade of length `d`:
/// the outgoing sample `p` weighted by the remaining time and the incoming
/// sample `s` weighted by the elapsed time.
pub open spec fn mixed(p: int, s: int, e: int, d: int) -> int {
    div_trunc(p * (d - e) + s * e, d)
}

/// At the start of a fade the mix is exactly the outgoing sample.
pub proof fn lemma_mix_starts_at_outgoing(p: int, s: int, d: int)
    requires
        0 < d,
    ensures
        mixed(p, s, 0, d) == p,
{
    assert(p * (d - 0) + s * 0 == p * d) by (nonlinear_arith);
    if p >= 0 {
        vstd::arithmetic::div_mod::lemma_div_multiples_vanish(p, d);
        assert(p * d == d * p) by (nonlinear_arith);
        assert(p * d >= 0) by (nonlinear_arith)
            requires
                p >= 0 && d > 0,
        ;
    } else {
        assert(-(p * d) == (-p) * d) by (nonlinear_arith);
        vstd::arithmetic::div_mod::lemma_div_multiples_vanish(-p, d);
        assert((-p) * d == d * (-p)) by (nonlinear_arith);
        assert(p * d < 0) by (nonlinear_arith)
            requires
                p < 0 && d > 0,
        ;
    }
}

/// At the end of a fade the mix is exactly the incoming sample.
pub proof fn lemma_mix_ends_at_incoming(p: int, s: int, d: int)
    requires
        0 < d,
    ensures
        mixed(p, s, d, d) == s,
{
    assert(p * (d - d) + s * d == s * d) by (nonlinear_arith);
    if s >= 0 {
        vstd::arithmetic::div_mod::lemma_div_multiples_vanish(s, d);
        assert(s * d == d * s) by (nonlinear_arith);
        assert(s * d >= 0) by (nonlinear_arith)
            requires
                s >= 0 && d > 0,
        ;
    } else {
        assert(-(s * d) == (-s) * d) by (nonlinear_arith);
        vstd::arithmetic::div_mod::lemma_div_multiples_vanish(-s, d);
        assert((-s) * d == d * (-s)) by (nonlinear_arith);
        assert(s * d < 0) by (nonlinear_arith)
            requires
                s < 0 && d > 0,
        ;
    }
}

/// The mix moves monotonically from the outgoing toward the incoming sample
/// as the fade's elapsed time grows.
pub proof fn lemma_mix_monotone(p: int, s: int, e1: int, e2: int, d: int)
    requires
        0 < d,
        0 <= e1 <= e2 <= d,
        p <= s,
    ensures
        mixed(p, s, e1, d) <= mixed(p, s, e2, d),
{
    assert((p * (d - e2) + s * e2) - (p * (d - e1) + s * e1) == (s - p) * (e2 - e1))
        by (nonlinear_arith);
    vstd::arithmetic::mul::lemma_mul_nonnegative(s - p, e2 - e1);
    lemma_div_trunc_ordered(p * (d - e1) + s * e1, p * (d - e2) + s * e2, d);
}

/// When the incoming sample is below the outgoing one, the mix moves
/// monotonically downward instead.
pub proof fn lemma_mix_monotone_down(p: int, s: int, e1: int, e2: int, d: int)
    requires
        0 < d,
        0 <= e1 <= e2 <= d,
        s <= p,
    ensures
        mixed(p, s, e2, d) <= mixed(p, s, e1, d),
{
    assert((p * (d - e1) + s * e1) - (p * (d - e2) + s * e2) == (p - s) * (e2 - e1))
        by (nonlinear_arith);
    vstd::arithmetic::mul::lemma_mul_nonnegative(p - s, e2 - e1);
    lemma_div_trunc_ordered(p * (d - e2) + s * e2, p * (d - e1) + s * e1, d);
}

/// A volume factor of `VOLUME_UNIT` is unity gain: it leaves a sample as it
/// was.
pub proof fn lemma_unity_volume(s: int)
    ensures
        scaled(s, VOLUME_UNIT as int) == s,
{
    if s >= 0 {
        vstd::arithmetic::div_mod::lemma_div_multiples_vanish(s, VOLUME_UNIT as int);
        assert(s * (VOLUME_UNIT as int) == (VOLUME_UNIT as int) * s) by (nonlinear_arith);
    } else {
        assert(-(s * (VOLUME_UNIT as int)) == (VOLUME_UNIT as int) * (-s)) by (nonlinear_arith);
        vstd::arithmetic::div_mod::lemma_div_multiples_vanish(-s, VOLUME_UNIT as int);
        assert(s * (VOLUME_UNIT as int) < 0) by (nonlinear_arith)
            requires
                s < 0,
        ;
    }
}

/// A volume factor of half of `VOLUME_UNIT` halves every sample (truncating
/// toward zero), so the peak magnitude of the scaled output is half the peak
/// magnitude of the queued samples.
pub proof fn lemma_half_volume(s: int)
    ensures
        scaled(s, VOLUME_UNIT as int / 2) == div_trunc(s, 2),
{
    let h = VOLUME_UNIT as int / 2;
    if s >= 0 {
        assert(s * h >= 0) by (nonlinear_arith)
            requires
                s >= 0 && h > 0,
        ;
        vstd::arithmetic::div_mod::lemma_div_denominator(s * h, h, 2);
        assert(s * h == h * s) by (nonlinear_arith);
        vstd::arithmetic::div_mod::lemma_div_multiples_vanish(s, h);
    } else {
        assert(s * h < 0) by (nonlinear_arith)
            requires
                s < 0 && h > 0,
        ;
        assert(-(s * h) == (-s) * h) by (nonlinear_arith);
        assert((-s) * h >= 0) by (nonlinear_arith)
            requires
                s < 0 && h > 0,
        ;
        vstd::arithmetic::div_mod::lemma_div_denominator((-s) * h, h, 2);
        assert((-s) * h == h * (-s)) by (nonlinear_arith);
        vstd::arithmetic::div_mod::lemma_div_multiples_vanish(-s, h);
    }
}

/// Scale one outgoing and one incoming sample into the crossfade mix for the
/// moment `elapsed` of a fade `duration` long.
pub fn mix_sample(p: i32, s: i32, elapsed: u64, duration: u64) -> (r: i32)
    requires
        0 < duration,
        elapsed <= duration,
    ensures
        r as int == mixed(p as int, s as int, elapsed as int, duration as int),
{
    let rem: u64 = duration - elapsed;
    proof {
        assert(-(0x8000_0000i128 * 0x1_0000_0000_0000_0000i128) <= p as i128 * rem as i128 <= 0x8000_0000i128 * 0x1_0000_0000_0000_0000i128)
            by (nonlinear_arith)
            requires
                -0x8000_0000 <= p as i128 <= 0x7fff_ffff,
                0 <= rem as i128 <= 0xffff_ffff_ffff_ffffi128,
        ;
        assert(-(0x8000_0000i128 * 0x1_0000_0000_0000_0000i128) <= s as i128 * elapsed as i128 <= 0x8000_0000i128 * 0x1_0000_0000_0000_0000i128)
            by (nonlinear_arith)
            requires
                -0x8000_0000 <= s as i128 <= 0x7fff_ffff,
                0 <= elapsed as i128 <= 0xffff_ffff_ffff_ffffi128,
        ;
    }
    let num: i128 = (p as i128) * (rem as i128) + (s as i128) * (elapsed as i128);
    let ghost pn = p as int;
    let ghost sn = s as int;
    let ghost en = elapsed as int;
    let ghost dn = duration as int;
    proof {
        // The numerator is bounded by i32 extremes times the duration, so the
        // quotient stays in the i32 range.
        vstd::arithmetic::mul::lemma_mul_inequality(pn, 0x7fff_ffff, dn - en);
        vstd::arithmetic::mul::lemma_mul_inequality(sn, 0x7fff_ffff, en);
        vstd::arithmetic::mul::lemma_mul_is_distributive_sub(0x7fff_ffff, dn, en);
        vstd::arithmetic::mul::lemma_mul_inequality(-0x8000_0000, pn, dn - en);
        vstd::arithmetic::mul::lemma_mul_inequality(-0x8000_0000, sn, en);
        vstd::arithmetic::mul::lemma_mul_is_distributive_sub(-0x8000_0000, dn, en);
        assert(num <= 0x7fff_ffff * dn);
        assert(-0x8000_0000 * dn <= num);
    }
    if num >= 0 {
        let q: u128 = (num as u128) / (duration as u128);
        proof {
            vstd::arithmetic::div_mod::lemma_div_is_ordered(num as int, 0x7fff_ffff * dn, dn);
            vstd::arithmetic::div_mod::lemma_div_multiples_vanish(0x7fff_ffff, dn);
            assert(0x7fff_ffff * dn == dn * 0x7fff_ffff) by (nonlinear_arith);
            vstd::arithmetic::div_mod::lemma_div_pos_is_pos(num as int, dn);
        }
        q as i32
    } else {
        let q: u128 = ((-num) as u128) / (duration as u128);
        proof {
            vstd::arithmetic::div_mod::lemma_div_is_ordered(-(num as int), 0x8000_0000 * dn, dn);
            vstd::arithmetic::div_mod::lemma_div_multiples_vanish(0x8000_0000, dn);
            assert(0x8000_0000 * dn == dn * 0x8000_0000) by (nonlinear_arith);
            assert(-(num as int) <= 0x8000_0000 * dn);
            vstd::arithmetic::div_mod::lemma_div_pos_is_pos(-(num as int), dn);
        }
        (-(q as i128)) as i32
    }
}

/// The mixed sample at offset `i` of a chunk pair: the outgoing chunk is
/// zero-padded when it ran short of the incoming chunk that drives the mix.
pub open spec fn mixed_at(p: Seq<i32>, s: Seq<i32>, e: int, d: int, i: int) -> int {
    mixed(
        if i < p.len() {
            p[i] as int
        } else {
            0
        },
        s[i] as int,
        e,
        d,
    )
}

/// Blend one chunk of the outgoing track with one chunk of the incoming
/// track. The incoming chunk drives the output length; the outgoing chunk is
/// zero-padded where it ended early.
pub fn mix_chunk(p: &Vec<i32>, s: &Vec<i32>, elapsed: u64, duration: u64) -> (out: Vec<i32>)
    requires
        0 < duration,
        elapsed <= duration,
    ensures
        out@.len() == s@.len(),
        forall|i: int|
            0 <= i < s@.len() ==> out@[i] as int == mixed_at(
                p@,
                s@,
                elapsed as int,
                duration as int,
                i,
            ),
{
    let mut out: Vec<i32> = Vec::new();
    let mut i: usize = 0;
    while i < s.len()
        invariant
            0 < duration,
            elapsed <= duration,
            i <= s@.len(),
            out@.len() == i,
            forall|j: int|
                0 <= j < i ==> out@[j] as int == mixed_at(
                    p@,
                    s@,
                    elapsed as int,
                    duration as int,
                    j,
                ),
        decreases s@.len() - i,
    {
        let pv: i32 = if i < p.len() {
            p[i]
        } else {
            0
        };
        out.push(mix_sample(pv, s[i], elapsed, duration));
        i = i + 1;
    }
    out
}

} // verus!

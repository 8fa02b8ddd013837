//! Fixed-point arithmetic for samples, gains and frequencies.
//!
//! A value `v` of type [`Sample`] stands for the real number `v / UNIT`.
//! Products of two such values are taken in a wider type and rounded down;
//! results that leave the range of `Sample` saturate at its bounds.
use vstd::prelude::*;

verus! {

/// One fixed-point quantity: an amplitude, a gain or a frequency in hertz.
pub type Sample = i32;

/// The fixed-point representation of `1.0`.
pub const UNIT: i32 = 65536;

/// The fixed-point representation of `0.5`.
pub const HALF: i32 = 32768;

/// Output rate of the engine, in samples per second.
pub const SAMPLE_RATE: i32 = 44100;

/// The value of `x` pulled into the range of `Sample`.
pub open spec fn saturate(x: int) -> int {
    if x < i32::MIN {
        i32::MIN as int
    } else if x > i32::MAX {
        i32::MAX as int
    } else {
        x
    }
}

/// The exact fixed-point product of `a` and `b`, rounded down.
pub open spec fn scaled_product(a: int, b: int) -> int {
    (a * b) / (UNIT as int)
}

/// Magnitude of a sample, as a mathematical integer.
pub open spec fn magnitude(x: int) -> int {
    if x < 0 {
        -x
    } else {
        x
    }
}

/// A bound on the magnitude of `scaled_product` of two samples.
pub const PRODUCT_BOUND: i128 = 0x4000_0000_0000;

/// The fixed-point product of two samples stays within `PRODUCT_BOUND`.
pub proof fn lemma_product_bound(a: int, b: int)
    requires
        i32::MIN <= a <= i32::MAX,
        i32::MIN <= b <= i32::MAX,
    ensures
        -PRODUCT_BOUND <= scaled_product(a, b) <= PRODUCT_BOUND,
{
    assert(-0x4000_0000_0000_0000 <= a * b <= 0x4000_0000_0000_0000) by (nonlinear_arith)
        requires
            i32::MIN <= a <= i32::MAX,
            i32::MIN <= b <= i32::MAX,
    {
    }
    let p = a * b;
    assert(-0x4000_0000_0000 <= p / 65536 <= 0x4000_0000_0000) by (nonlinear_arith)
        requires
            -0x4000_0000_0000_0000 <= p <= 0x4000_0000_0000_0000,
    {
    }
}

/// Clamps a wide intermediate result into the range of `Sample`.
pub fn saturate_wide(x: i128) -> (r: Sample)
    ensures
        r == saturate(x as int),
{
    if x < i32::MIN as i128 {
        i32::MIN
    } else if x > i32::MAX as i128 {
        i32::MAX
    } else {
        x as i32
    }
}

/// Fixed-point product `a * b / UNIT`, rounded down, in a wide type.
pub fn product_wide(a: Sample, b: Sample) -> (r: i128)
    ensures
        r == scaled_product(a as int, b as int),
        -PRODUCT_BOUND <= r <= PRODUCT_BOUND,
{
    proof {
        lemma_product_bound(a as int, b as int);
    }
    assert(i32::MIN * i32::MAX <= a * b <= i32::MIN * i32::MIN) by (nonlinear_arith)
        requires
            i32::MIN <= a <= i32::MAX,
            i32::MIN <= b <= i32::MAX,
    {
    }
    let p: i64 = (a as i64) * (b as i64);
    assert(i64::MIN <= (p as int) / (UNIT as int) <= i64::MAX) by (nonlinear_arith)
        requires
            i32::MIN <= a <= i32::MAX,
            i32::MIN <= b <= i32::MAX,
            p == a * b,
    {
    }
    match p.checked_div_euclid(UNIT as i64) {
        Some(q) => q as i128,
        None => 0,
    }
}

/// Fixed-point product `a * b / UNIT`, rounded down and saturated.
pub fn mul_fixed(a: Sample, b: Sample) -> (r: Sample)
    ensures
        r == saturate(scaled_product(a as int, b as int)),
{
    saturate_wide(product_wide(a, b))
}

/// A fresh vector holding the same samples.
pub fn copy_samples(v: &Vec<Sample>) -> (r: Vec<Sample>)
    ensures
        r@ == v@,
{
    let mut out: Vec<Sample> = Vec::new();
    let mut i: usize = 0;
    while i < v.len()
        invariant
            i <= v@.len(),
            out@ == v@.take(i as int),
        decreases v.len() - i,
    {
        out.push(v[i]);
        i = i + 1;
        assert(out@ == v@.take(i as int));
    }
    assert(v@.take(i as int) == v@);
    out
}

/// Sum of two samples, saturated.
pub fn add_fixed(a: Sample, b: Sample) -> (r: Sample)
    ensures
        r == saturate(a + b),
{
    saturate_wide(a as i128 + b as i128)
}

} // verus!

use vstd::prelude::*;

verus! {

/// An 8-bit-per-channel RGB colour.
#[derive(Clone, Copy, Debug, PartialEq, Eq, Structural)]
pub struct Color {
    pub r: u8,
    pub g: u8,
    pub b: u8,
}

/// `a` scaled by `b / 255`, rounded to the nearest integer (ties cannot occur).
pub open spec fn attenuate_channel(a: u8, b: u8) -> int {
    (2 * ((a as int) * (b as int)) + 255) / 510
}

/// Per-channel attenuation of `b` by the fraction `a / 255`.
pub open spec fn compose_spec(a: Color, b: Color) -> Color {
    Color {
        r: attenuate_channel(a.r, b.r) as u8,
        g: attenuate_channel(a.g, b.g) as u8,
        b: attenuate_channel(a.b, b.b) as u8,
    }
}

/// Whether the per-channel sum of two colours stays within 8 bits.
pub open spec fn sum_fits(a: Color, b: Color) -> bool {
    a.r + b.r <= 255 && a.g + b.g <= 255 && a.b + b.b <= 255
}

/// Per-channel sum of two colours (meaningful where `sum_fits` holds).
pub open spec fn add_spec(a: Color, b: Color) -> Color {
    Color { r: (a.r + b.r) as u8, g: (a.g + b.g) as u8, b: (a.b + b.b) as u8 }
}

impl Color {
    pub open spec fn channels_le(self, o: Color) -> bool {
        self.r <= o.r && self.g <= o.g && self.b <= o.b
    }

    pub fn new(r: u8, g: u8, b: u8) -> (c: Color)
        ensures
            c == (Color { r, g, b }),
    {
        Color { r, g, b }
    }

    pub fn black() -> (c: Color)
        ensures
            c == (Color { r: 0, g: 0, b: 0 }),
    {
        Color { r: 0, g: 0, b: 0 }
    }
}

/// Attenuation never brightens: the result is at most `a`, and at most `b`.
pub proof fn lemma_attenuate_bounded(a: u8, b: u8)
    ensures
        0 <= attenuate_channel(a, b) <= a,
        attenuate_channel(a, b) <= b,
{
    let x = a as int;
    let y = b as int;
    assert(0 <= 2 * (x * y)) by (nonlinear_arith)
        requires 0 <= x, 0 <= y;
    assert(2 * (x * y) <= 510 * x) by (nonlinear_arith)
        requires 0 <= x, 0 <= y <= 255;
    assert(2 * (x * y) <= 510 * y) by (nonlinear_arith)
        requires 0 <= y, 0 <= x <= 255;
}

fn attenuate(a: u8, b: u8) -> (r: u8)
    ensures
        r == attenuate_channel(a, b),
{
    proof {
        lemma_attenuate_bounded(a, b);
        assert((a as u32) * (b as u32) <= 65025) by (nonlinear_arith)
            requires a <= 255, b <= 255;
    }
    let p: u32 = (a as u32) * (b as u32);
    let q: u32 = (2 * p + 255) / 510;
    assert(q == attenuate_channel(a, b));
    q as u8
}

/// Attenuates `b` by `a`, each channel of `a` read as a fraction of 255:
/// `round(a / 255 * b)` per channel.
pub fn compose_color(a: Color, b: Color) -> (c: Color)
    ensures
        c == compose_spec(a, b),
        c.channels_le(a),
        c.channels_le(b),
{
    proof {
        lemma_attenuate_bounded(a.r, b.r);
        lemma_attenuate_bounded(a.g, b.g);
        lemma_attenuate_bounded(a.b, b.b);
    }
    Color { r: attenuate(a.r, b.r), g: attenuate(a.g, b.g), b: attenuate(a.b, b.b) }
}

/// Per-channel sum of two colours.
pub fn add_color(a: Color, b: Color) -> (c: Color)
    requires
        sum_fits(a, b),
    ensures
        c == add_spec(a, b),
        c.r == a.r + b.r,
        c.g == a.g + b.g,
        c.b == a.b + b.b,
{
    Color { r: a.r + b.r, g: a.g + b.g, b: a.b + b.b }
}

/// Channel `k` of a colour: 0 is red, 1 is green, anything else blue.
pub open spec fn channel(c: Color, k: int) -> u8 {
    if k == 0 {
        c.r
    } else if k == 1 {
        c.g
    } else {
        c.b
    }
}

/// Sum of channel `k` over a sequence of colours.
pub open spec fn channel_sum(s: Seq<Color>, k: int) -> int
    decreases s.len(),
{
    if s.len() == 0 {
        0
    } else {
        channel_sum(s.drop_last(), k) + channel(s.last(), k)
    }
}

/// Per-channel mean of a non-empty sequence of colours, each channel
/// truncated towards zero.
pub open spec fn average_spec(s: Seq<Color>) -> Color {
    Color {
        r: (channel_sum(s, 0) / (s.len() as int)) as u8,
        g: (channel_sum(s, 1) / (s.len() as int)) as u8,
        b: (channel_sum(s, 2) / (s.len() as int)) as u8,
    }
}

pub proof fn lemma_channel_sum_bounds(s: Seq<Color>, k: int)
    ensures
        0 <= channel_sum(s, k) <= 255 * s.len(),
    decreases s.len(),
{
    if s.len() > 0 {
        lemma_channel_sum_bounds(s.drop_last(), k);
    }
}

proof fn lemma_mean_fits(sum: int, n: int)
    requires
        0 <= sum <= 255 * n,
        n > 0,
    ensures
        0 <= sum / n <= 255,
{
    assert(sum / n <= 255) by (nonlinear_arith)
        requires 0 <= sum <= 255 * n, n > 0;
    assert(0 <= sum / n) by (nonlinear_arith)
        requires 0 <= sum, n > 0;
}

/// Averages the colours traced for one pixel: the per-channel sum, kept in a
/// wide accumulator, divided by the sample count with truncation. With no
/// samples there is nothing to divide, and `empty` is returned.
pub fn average_color(samples: &Vec<Color>, empty: Color) -> (c: Color)
    ensures
        samples@.len() == 0 ==> c == empty,
        samples@.len() > 0 ==> c == average_spec(samples@),
{
    let n = samples.len();
    if n == 0 {
        return empty;
    }
    let mut acc_r: u128 = 0;
    let mut acc_g: u128 = 0;
    let mut acc_b: u128 = 0;
    let mut i: usize = 0;
    while i < n
        invariant
            n == samples@.len(),
            i <= n,
            acc_r == channel_sum(samples@.take(i as int), 0),
            acc_g == channel_sum(samples@.take(i as int), 1),
            acc_b == channel_sum(samples@.take(i as int), 2),
            acc_r <= 255 * i,
            acc_g <= 255 * i,
            acc_b <= 255 * i,
        decreases n - i,
    {
        let c = samples[i];
        proof {
            let t = samples@.take(i as int + 1);
            assert(t.drop_last() =~= samples@.take(i as int));
            assert(t.last() == c);
        }
        acc_r = acc_r + c.r as u128;
        acc_g = acc_g + c.g as u128;
        acc_b = acc_b + c.b as u128;
        i = i + 1;
    }
    proof {
        assert(samples@.take(n as int) =~= samples@);
        lemma_channel_sum_bounds(samples@, 0);
        lemma_channel_sum_bounds(samples@, 1);
        lemma_channel_sum_bounds(samples@, 2);
        lemma_mean_fits(acc_r as int, n as int);
        lemma_mean_fits(acc_g as int, n as int);
        lemma_mean_fits(acc_b as int, n as int);
    }
    let d = n as u128;
    Color { r: (acc_r / d) as u8, g: (acc_g / d) as u8, b: (acc_b / d) as u8 }
}

proof fn lemma_channel_sum_uniform(s: Seq<Color>, c: Color, k: int)
    requires
        forall|i: int| 0 <= i < s.len() ==> s[i] == c,
    ensures
        channel_sum(s, k) == s.len() * channel(c, k),
    decreases s.len(),
{
    if s.len() > 0 {
        lemma_channel_sum_uniform(s.drop_last(), c, k);
        assert(s.last() == c);
        assert(s.len() * channel(c, k) == (s.len() - 1) * channel(c, k) + channel(c, k))
            by (nonlinear_arith);
    }
}

proof fn lemma_exact_mean(n: int, x: int)
    requires
        n > 0,
    ensures
        (n * x) / n == x,
{
    assert((n * x) / n == x) by (nonlinear_arith)
        requires n > 0;
}

/// Averaging never adds noise: a non-empty set of samples that all carry the
/// same colour averages to exactly that colour, whatever their number.
pub proof fn lemma_average_of_uniform_samples(samples: Seq<Color>, c: Color)
    requires
        samples.len() > 0,
        forall|i: int| 0 <= i < samples.len() ==> samples[i] == c,
    ensures
        average_spec(samples) == c,
{
    let n = samples.len() as int;
    lemma_channel_sum_uniform(samples, c, 0);
    lemma_channel_sum_uniform(samples, c, 1);
    lemma_channel_sum_uniform(samples, c, 2);
    lemma_exact_mean(n, c.r as int);
    lemma_exact_mean(n, c.g as int);
    lemma_exact_mean(n, c.b as int);
}

} // verus!

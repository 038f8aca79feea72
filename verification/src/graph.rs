//! The signal graph: generators, filters and pots.
//!
//! A [`Generator`] produces one sample per tick; a [`Filter`] maps one sample
//! to one sample per tick; a [`Pot`] supplies a control value. Each is a tree
//! of concrete nodes, and each has a ghost model (its view) with a pure
//! transition function: `tick`, `apply` and `read` are each proved to perform
//! exactly one step of that transition.

use std::collections::VecDeque;

use vstd::prelude::*;

use crate::Sample;
use crate::control::{Control, control_value};
use crate::keys::{KeyModel, SimpleKey, key_step};
use crate::sample::{
    HALF_UNIT, UNIT, clamp_unit, clamped_unit, count_up, fxdiv, fxmul, mul_scaled, sat, sat_add,
    sat_sub,
};
use crate::track::{TrackModel, VecTrack, track_next_s};

verus! {

/// A control-value source: a constant, an externally fed cache, or a
/// generator whose output is sampled.
///
/// Reading a generator-backed pot advances the wrapped generator by one tick;
/// that side effect is part of the contract of [`Pot::read`].
pub enum Pot {
    /// Always the same value.
    Constant(Sample),
    /// The most recent externally fed value; [`Pot::feed`] replaces it.
    Cached(Sample),
    /// Each read pulls one sample from the generator.
    Gen(Box<Generator>),
}

/// Which end of the delay line a comb filter recombines with its input.
pub enum CombDirection {
    /// Echo past inputs: the raw input enters the delay line.
    FeedForward,
    /// Echo past outputs: the filter's own output re-enters the delay line.
    FeedBack,
}

/// A per-sample transform with internal state.
pub enum Filter {
    /// Scale each sample by the pot value.
    Gain { scale: Pot },
    /// Add the pot value to each sample.
    Offset { offset: Pot },
    /// Threshold each sample to the range between the two pot values.
    Clip { low: Pot, high: Pot },
    /// Ramp gain linearly from zero to one over `steps` ticks.
    RampUp { steps: u64, elapsed: u64 },
    /// After `cliff` ticks, ramp gain linearly from one to zero over `steps`
    /// ticks.
    RampDown { cliff: u64, steps: u64, elapsed: u64 },
    /// Delay-line echo filter over a zero-initialized FIFO.
    Comb { direction: CombDirection, decay: Sample, buf: VecDeque<Sample> },
    /// Apply `first`, then `second`, in series.
    Chain { first: Box<Filter>, second: Box<Filter> },
    /// Apply both to the same input and sum the outputs, left first.
    Par { left: Box<Filter>, right: Box<Filter> },
    /// The general linear-difference-equation evaluator: input coefficients
    /// `a`, output coefficients `b`, and histories of matching lengths
    /// (newest first).
    Recursive { a: Vec<Control>, b: Vec<Control>, inputs: VecDeque<Sample>, outputs: VecDeque<
        Sample,
    > },
    /// Single-pole low-pass filter with control `x` on `[0, UNIT]`.
    LowPass { x: Pot, prev_out: Sample },
    /// Single-pole high-pass filter with control `x` on `[0, UNIT]`.
    HighPass { x: Pot, prev_in: Sample, prev_out: Sample },
    /// Four single-pole low-pass stages in series sharing one control value,
    /// read once per tick.
    FourStage { x: Pot, s1: Sample, s2: Sample, s3: Sample, s4: Sample },
    /// Band-pass filter; the pots supply the cosine of `2 pi` times the
    /// normalized center frequency, and the normalized bandwidth.
    BandPass { cos_center: Pot, band_width: Pot, in1: Sample, in2: Sample, out1: Sample, out2:
        Sample },
    /// Notch filter; the pots are as for the band-pass.
    Notch { cos_center: Pot, band_width: Pot, in1: Sample, in2: Sample, out1: Sample, out2:
        Sample },
}

/// A pull-based sample source with internal state.
#[allow(inconsistent_fields)]
pub enum Generator {
    /// Always the same sample.
    Constant(Sample),
    /// Square wave from an integer phase accumulator: positive for the first
    /// half of each cycle.
    Square { rate: u32, frequency: Sample, phase: u64 },
    /// Sawtooth wave: the fractional part of `frequency * clock / rate`.
    Sawtooth { rate: u32, frequency: Sample, clock: u32 },
    /// Play the track once per beat at the pot-controlled tempo.
    Metronome { rate: u32, bpm: Pot, track: VecTrack, clock: u64 },
    /// Loop the track indefinitely, rewinding whenever it runs out.
    Track { track: VecTrack },
    /// The saturating sum of both inputs, left first.
    Sum { left: Box<Generator>, right: Box<Generator> },
    /// Two-source mix weighted by the bias pot, clamped to `[-UNIT, UNIT]`:
    /// all the way left at `-UNIT`, all the way right at `UNIT`.
    Join2 { bias: Pot, left: Box<Generator>, right: Box<Generator> },
    /// The source pulled once per tick, its sample fed through the filter.
    Composed { source: Box<Generator>, filter: Box<Filter> },
    /// A key: a switched sample track with envelopes.
    Key { key: SimpleKey },
}

/// Ghost model of a [`Pot`].
#[verifier::ext_equal]
pub enum PotModel {
    Constant(i64),
    Cached(i64),
    Gen(Box<GenModel>),
}

/// Ghost model of a [`Filter`].
#[verifier::ext_equal]
pub enum FilterModel {
    Gain { scale: PotModel },
    Offset { offset: PotModel },
    Clip { low: PotModel, high: PotModel },
    RampUp { steps: u64, elapsed: u64 },
    RampDown { cliff: u64, steps: u64, elapsed: u64 },
    Comb { direction: CombDirection, decay: i64, buf: Seq<i64> },
    Chain { first: Box<FilterModel>, second: Box<FilterModel> },
    Par { left: Box<FilterModel>, right: Box<FilterModel> },
    Recursive { a: Seq<Control>, b: Seq<Control>, ins: Seq<i64>, outs: Seq<i64> },
    LowPass { x: PotModel, prev_out: i64 },
    HighPass { x: PotModel, prev_in: i64, prev_out: i64 },
    FourStage { x: PotModel, s1: i64, s2: i64, s3: i64, s4: i64 },
    BandPass { cos_center: PotModel, band_width: PotModel, in1: i64, in2: i64, out1: i64, out2:
        i64 },
    Notch { cos_center: PotModel, band_width: PotModel, in1: i64, in2: i64, out1: i64, out2: i64 },
}

/// Ghost model of a [`Generator`].
#[verifier::ext_equal]
#[allow(inconsistent_fields)]
pub enum GenModel {
    Constant(i64),
    Square { rate: u32, frequency: i64, phase: u64 },
    Sawtooth { rate: u32, frequency: i64, clock: u32 },
    Metronome { rate: u32, bpm: PotModel, track: TrackModel, clock: u64 },
    Track { track: TrackModel },
    Sum { left: Box<GenModel>, right: Box<GenModel> },
    Join2 { bias: PotModel, left: Box<GenModel>, right: Box<GenModel> },
    Composed { source: Box<GenModel>, filter: Box<FilterModel> },
    Key { key: KeyModel },
}

/// Model of a pot.
pub open spec fn pot_view(p: Pot) -> PotModel
    decreases p,
{
    match p {
        Pot::Constant(v) => PotModel::Constant(v),
        Pot::Cached(v) => PotModel::Cached(v),
        Pot::Gen(g) => PotModel::Gen(Box::new(gen_view(*g))),
    }
}

/// Model of a filter.
pub open spec fn filter_view(f: Filter) -> FilterModel
    decreases f,
{
    match f {
        Filter::Gain { scale } => FilterModel::Gain { scale: pot_view(scale) },
        Filter::Offset { offset } => FilterModel::Offset { offset: pot_view(offset) },
        Filter::Clip { low, high } => FilterModel::Clip {
            low: pot_view(low),
            high: pot_view(high),
        },
        Filter::RampUp { steps, elapsed } => FilterModel::RampUp { steps, elapsed },
        Filter::RampDown { cliff, steps, elapsed } => FilterModel::RampDown {
            cliff,
            steps,
            elapsed,
        },
        Filter::Comb { direction, decay, buf } => FilterModel::Comb {
            direction,
            decay,
            buf: buf@,
        },
        Filter::Chain { first, second } => FilterModel::Chain {
            first: Box::new(filter_view(*first)),
            second: Box::new(filter_view(*second)),
        },
        Filter::Par { left, right } => FilterModel::Par {
            left: Box::new(filter_view(*left)),
            right: Box::new(filter_view(*right)),
        },
        Filter::Recursive { a, b, inputs, outputs } => FilterModel::Recursive {
            a: a@,
            b: b@,
            ins: inputs@,
            outs: outputs@,
        },
        Filter::LowPass { x, prev_out } => FilterModel::LowPass { x: pot_view(x), prev_out },
        Filter::HighPass { x, prev_in, prev_out } => FilterModel::HighPass {
            x: pot_view(x),
            prev_in,
            prev_out,
        },
        Filter::FourStage { x, s1, s2, s3, s4 } => FilterModel::FourStage {
            x: pot_view(x),
            s1,
            s2,
            s3,
            s4,
        },
        Filter::BandPass { cos_center, band_width, in1, in2, out1, out2 } => FilterModel::BandPass {
            cos_center: pot_view(cos_center),
            band_width: pot_view(band_width),
            in1,
            in2,
            out1,
            out2,
        },
        Filter::Notch { cos_center, band_width, in1, in2, out1, out2 } => FilterModel::Notch {
            cos_center: pot_view(cos_center),
            band_width: pot_view(band_width),
            in1,
            in2,
            out1,
            out2,
        },
    }
}

/// Model of a generator.
pub open spec fn gen_view(g: Generator) -> GenModel
    decreases g,
{
    match g {
        Generator::Constant(v) => GenModel::Constant(v),
        Generator::Square { rate, frequency, phase } => GenModel::Square { rate, frequency, phase },
        Generator::Sawtooth { rate, frequency, clock } => GenModel::Sawtooth {
            rate,
            frequency,
            clock,
        },
        Generator::Metronome { rate, bpm, track, clock } => GenModel::Metronome {
            rate,
            bpm: pot_view(bpm),
            track: track@,
            clock,
        },
        Generator::Track { track } => GenModel::Track { track: track@ },
        Generator::Sum { left, right } => GenModel::Sum {
            left: Box::new(gen_view(*left)),
            right: Box::new(gen_view(*right)),
        },
        Generator::Join2 { bias, left, right } => GenModel::Join2 {
            bias: pot_view(bias),
            left: Box::new(gen_view(*left)),
            right: Box::new(gen_view(*right)),
        },
        Generator::Composed { source, filter } => GenModel::Composed {
            source: Box::new(gen_view(*source)),
            filter: Box::new(filter_view(*filter)),
        },
        Generator::Key { key } => GenModel::Key { key: key@ },
    }
}

impl View for Pot {
    type V = PotModel;

    open spec fn view(&self) -> PotModel {
        pot_view(*self)
    }
}

impl View for Filter {
    type V = FilterModel;

    open spec fn view(&self) -> FilterModel {
        filter_view(*self)
    }
}

impl View for Generator {
    type V = GenModel;

    open spec fn view(&self) -> GenModel {
        gen_view(*self)
    }
}

/// Well-formedness of a pot model.
pub open spec fn pot_wf(p: PotModel) -> bool
    decreases p,
{
    match p {
        PotModel::Constant(_) => true,
        PotModel::Cached(_) => true,
        PotModel::Gen(g) => gen_wf(*g),
    }
}

/// Well-formedness of a filter model: histories match their coefficient
/// orders, and embedded pots are well-formed.
pub open spec fn filter_wf(f: FilterModel) -> bool
    decreases f,
{
    match f {
        FilterModel::Gain { scale } => pot_wf(scale),
        FilterModel::Offset { offset } => pot_wf(offset),
        FilterModel::Clip { low, high } => pot_wf(low) && pot_wf(high),
        FilterModel::RampUp { .. } => true,
        FilterModel::RampDown { .. } => true,
        FilterModel::Comb { .. } => true,
        FilterModel::Chain { first, second } => filter_wf(*first) && filter_wf(*second),
        FilterModel::Par { left, right } => filter_wf(*left) && filter_wf(*right),
        FilterModel::Recursive { a, b, ins, outs } => ins.len() == a.len() && outs.len() == b.len(),
        FilterModel::LowPass { x, .. } => pot_wf(x),
        FilterModel::HighPass { x, .. } => pot_wf(x),
        FilterModel::FourStage { x, .. } => pot_wf(x),
        FilterModel::BandPass { cos_center, band_width, .. } => pot_wf(cos_center) && pot_wf(
            band_width,
        ),
        FilterModel::Notch { cos_center, band_width, .. } => pot_wf(cos_center) && pot_wf(
            band_width,
        ),
    }
}

/// Well-formedness of a generator model: oscillators have a nonzero rate, a
/// nonnegative frequency and an in-range phase, and children are well-formed.
pub open spec fn gen_wf(g: GenModel) -> bool
    decreases g,
{
    match g {
        GenModel::Constant(_) => true,
        GenModel::Square { rate, frequency, phase } => rate >= 1 && frequency >= 0 && (phase as int)
            < (rate as int) * (UNIT as int),
        GenModel::Sawtooth { rate, frequency, clock } => rate >= 1 && frequency >= 0 && clock
            < rate,
        GenModel::Metronome { rate, bpm, .. } => rate >= 1 && pot_wf(bpm),
        GenModel::Track { .. } => true,
        GenModel::Sum { left, right } => gen_wf(*left) && gen_wf(*right),
        GenModel::Join2 { bias, left, right } => pot_wf(bias) && gen_wf(*left) && gen_wf(*right),
        GenModel::Composed { source, filter } => gen_wf(*source) && filter_wf(*filter),
        GenModel::Key { .. } => true,
    }
}

/// The values a sequence of controls currently reads as.
pub open spec fn control_values(cs: Seq<Control>) -> Seq<i64> {
    cs.map_values(|c: Control| control_value(c))
}

/// Saturating fold, left to right over the first `n` pairs, of the scaled
/// products of coefficients and history entries.
pub open spec fn wsum_to(cs: Seq<i64>, hs: Seq<i64>, n: int) -> int
    decreases n,
{
    if n <= 0 {
        0
    } else {
        sat(wsum_to(cs, hs, n - 1) + fxmul(cs[n - 1] as int, hs[n - 1] as int))
    }
}

/// Saturating weighted sum of a history by its coefficients, truncated to the
/// shorter of the two.
pub open spec fn wsum(cs: Seq<i64>, hs: Seq<i64>) -> int {
    wsum_to(
        cs,
        hs,
        if cs.len() <= hs.len() {
            cs.len() as int
        } else {
            hs.len() as int
        },
    )
}

/// One step of a comb filter's delay line.
///
/// Feed-forward: the input joins the line, the evicted oldest input echoes.
/// Feed-back: the oldest queued output echoes, and the fresh output joins the
/// line.
pub open spec fn comb_step(direction: CombDirection, decay: i64, buf: Seq<i64>, x: i64) -> (Seq<
    i64,
>, i64) {
    match direction {
        CombDirection::FeedForward => {
            let buf1 = buf.push(x);
            let out = sat(x + fxmul(decay as int, buf1[0] as int)) as i64;
            (buf1.drop_first(), out)
        },
        CombDirection::FeedBack => {
            if buf.len() > 0 {
                let out = sat(x + fxmul(decay as int, buf[0] as int)) as i64;
                (buf.drop_first().push(out), out)
            } else {
                let out = sat(x + fxmul(decay as int, 0)) as i64;
                (buf.push(out), out)
            }
        },
    }
}

/// One step of the recursive filter engine: shift the input history, take
/// the weighted sums of both histories, and shift the output history.
pub open spec fn rec_step(a: Seq<Control>, b: Seq<Control>, ins: Seq<i64>, outs: Seq<i64>, x: i64) -> (
    Seq<i64>,
    Seq<i64>,
    i64,
) {
    let ins1 = if a.len() > 0 {
        seq![x] + ins.drop_last()
    } else {
        ins
    };
    let asum = wsum(control_values(a), ins1);
    let bsum = wsum(control_values(b), outs);
    let out = sat(asum + bsum) as i64;
    let outs1 = if b.len() > 0 {
        seq![out] + outs.drop_last()
    } else {
        outs
    };
    (ins1, outs1, out)
}

/// `1 - 3 bw`, the pole radius of the band-pass and notch filters.
pub open spec fn bp_r(bw: int) -> int {
    sat(UNIT - sat(sat(bw + bw) + bw))
}

/// The band-pass and notch gain constant
/// `(1 - 2 r cos + r^2) / (2 - 2 cos)`, 0 when the denominator is 0.
pub open spec fn bp_k(cosv: int, r: int) -> int {
    let r2 = fxmul(r, r);
    let t = fxmul(sat(r + r), cosv);
    let num = sat(sat(UNIT - t) + r2);
    let den = sat(sat(UNIT + UNIT) - sat(cosv + cosv));
    fxdiv(num, den)
}

/// Output of one band-pass step, before the histories shift.
pub open spec fn bp_out(cosv: int, bwv: int, x: int, in1: int, in2: int, out1: int, out2: int) -> int {
    let r = bp_r(bwv);
    let k = bp_k(cosv, r);
    let r2 = fxmul(r, r);
    let a0 = sat(UNIT - k);
    let v = fxmul(sat(k - r), cosv);
    let a1 = sat(v + v);
    let a2 = sat(r2 - k);
    let b1 = fxmul(sat(r + r), cosv);
    let b2 = sat(0 - r2);
    let asum = sat(sat(fxmul(x, a0) + fxmul(in1, a1)) + fxmul(in2, a2));
    let bsum = sat(fxmul(out1, b1) + fxmul(out2, b2));
    sat(asum + bsum)
}

/// Output of one notch step, before the histories shift.
pub open spec fn notch_out(cosv: int, bwv: int, x: int, in1: int, in2: int, out1: int, out2: int) -> int {
    let r = bp_r(bwv);
    let k = bp_k(cosv, r);
    let r2 = fxmul(r, r);
    let w = fxmul(k, cosv);
    let a1 = sat(0 - sat(w + w));
    let b1 = fxmul(sat(r + r), cosv);
    let b2 = sat(0 - r2);
    let asum = sat(sat(fxmul(x, k) + fxmul(in1, a1)) + fxmul(in2, k));
    let bsum = sat(fxmul(out1, b1) + fxmul(out2, b2));
    sat(asum + bsum)
}

/// One read of a pot: the pot afterwards, and the value read.
pub open spec fn pot_step(p: PotModel) -> (PotModel, i64)
    decreases p,
{
    match p {
        PotModel::Constant(v) => (p, v),
        PotModel::Cached(v) => (p, v),
        PotModel::Gen(g) => {
            let (g2, s) = gen_step(*g);
            (PotModel::Gen(Box::new(g2)), s)
        },
    }
}

/// One application of a filter to the sample `x`: the filter afterwards, and
/// the output sample.
pub open spec fn filter_step(f: FilterModel, x: i64) -> (FilterModel, i64)
    decreases f,
{
    match f {
        FilterModel::Gain { scale } => {
            let (p2, v) = pot_step(scale);
            (FilterModel::Gain { scale: p2 }, fxmul(x as int, v as int) as i64)
        },
        FilterModel::Offset { offset } => {
            let (p2, v) = pot_step(offset);
            (FilterModel::Offset { offset: p2 }, sat(x + v) as i64)
        },
        FilterModel::Clip { low, high } => {
            let (l2, lo) = pot_step(low);
            let (h2, hi) = pot_step(high);
            let out = if x < lo {
                lo
            } else if x > hi {
                hi
            } else {
                x
            };
            (FilterModel::Clip { low: l2, high: h2 }, out)
        },
        FilterModel::RampUp { steps, elapsed } => {
            let e1 = if elapsed < steps {
                (elapsed + 1) as u64
            } else {
                elapsed
            };
            let ratio: int = if steps == 0 || e1 >= steps {
                UNIT as int
            } else {
                let q = (e1 as int) * (UNIT as int) / (steps as int);
                if q > UNIT as int {
                    UNIT as int
                } else {
                    q
                }
            };
            (FilterModel::RampUp { steps, elapsed: e1 }, fxmul(x as int, ratio) as i64)
        },
        FilterModel::RampDown { cliff, steps, elapsed } => {
            let e1 = if elapsed < u64::MAX && (elapsed as int) < cliff + steps {
                (elapsed + 1) as u64
            } else {
                elapsed
            };
            let out: i64 = if e1 >= cliff {
                let diff = e1 - cliff;
                let factor: int = if steps == 0 || diff >= steps {
                    0
                } else {
                    let q = (diff as int) * (UNIT as int) / (steps as int);
                    UNIT - (if q > UNIT as int { UNIT as int } else { q })
                };
                fxmul(x as int, factor) as i64
            } else {
                x
            };
            (FilterModel::RampDown { cliff, steps, elapsed: e1 }, out)
        },
        FilterModel::Comb { direction, decay, buf } => {
            let (buf1, out) = comb_step(direction, decay, buf, x);
            (FilterModel::Comb { direction, decay, buf: buf1 }, out)
        },
        FilterModel::Chain { first, second } => {
            let (f1, y) = filter_step(*first, x);
            let (f2, z) = filter_step(*second, y);
            (FilterModel::Chain { first: Box::new(f1), second: Box::new(f2) }, z)
        },
        FilterModel::Par { left, right } => {
            let (l2, yl) = filter_step(*left, x);
            let (r2, yr) = filter_step(*right, x);
            (FilterModel::Par { left: Box::new(l2), right: Box::new(r2) }, sat(yl + yr) as i64)
        },
        FilterModel::Recursive { a, b, ins, outs } => {
            let (ins1, outs1, out) = rec_step(a, b, ins, outs, x);
            (FilterModel::Recursive { a, b, ins: ins1, outs: outs1 }, out)
        },
        FilterModel::LowPass { x: ctl, prev_out } => {
            let (p2, c) = pot_step(ctl);
            let out = sat(
                fxmul(x as int, sat(UNIT - c)) + fxmul(prev_out as int, c as int),
            ) as i64;
            (FilterModel::LowPass { x: p2, prev_out: out }, out)
        },
        FilterModel::HighPass { x: ctl, prev_in, prev_out } => {
            let (p2, c) = pot_step(ctl);
            let g = fxmul(sat(UNIT + c), HALF_UNIT as int);
            let asum = sat(fxmul(x as int, g) + fxmul(prev_in as int, sat(0 - g)));
            let out = sat(asum + fxmul(prev_out as int, c as int)) as i64;
            (FilterModel::HighPass { x: p2, prev_in: x, prev_out: out }, out)
        },
        FilterModel::FourStage { x: ctl, s1, s2, s3, s4 } => {
            let (p2, c) = pot_step(ctl);
            let co = sat(UNIT - c);
            let t1 = sat(fxmul(x as int, co) + fxmul(s1 as int, c as int)) as i64;
            let t2 = sat(fxmul(t1 as int, co) + fxmul(s2 as int, c as int)) as i64;
            let t3 = sat(fxmul(t2 as int, co) + fxmul(s3 as int, c as int)) as i64;
            let t4 = sat(fxmul(t3 as int, co) + fxmul(s4 as int, c as int)) as i64;
            (FilterModel::FourStage { x: p2, s1: t1, s2: t2, s3: t3, s4: t4 }, t4)
        },
        FilterModel::BandPass { cos_center, band_width, in1, in2, out1, out2 } => {
            let (c2, cosv) = pot_step(cos_center);
            let (b2, bwv) = pot_step(band_width);
            let out = bp_out(
                cosv as int,
                bwv as int,
                x as int,
                in1 as int,
                in2 as int,
                out1 as int,
                out2 as int,
            ) as i64;
            (
                FilterModel::BandPass {
                    cos_center: c2,
                    band_width: b2,
                    in1: x,
                    in2: in1,
                    out1: out,
                    out2: out1,
                },
                out,
            )
        },
        FilterModel::Notch { cos_center, band_width, in1, in2, out1, out2 } => {
            let (c2, cosv) = pot_step(cos_center);
            let (b2, bwv) = pot_step(band_width);
            let out = notch_out(
                cosv as int,
                bwv as int,
                x as int,
                in1 as int,
                in2 as int,
                out1 as int,
                out2 as int,
            ) as i64;
            (
                FilterModel::Notch {
                    cos_center: c2,
                    band_width: b2,
                    in1: x,
                    in2: in1,
                    out1: out,
                    out2: out1,
                },
                out,
            )
        },
    }
}

/// One tick of a generator: the generator afterwards, and the sample produced.
pub open spec fn gen_step(g: GenModel) -> (GenModel, i64)
    decreases g,
{
    match g {
        GenModel::Constant(v) => (g, v),
        GenModel::Square { rate, frequency, phase } => {
            let m = (rate as int) * (UNIT as int);
            let p1 = (phase + frequency) % m;
            let out: i64 = if p1 > 0 && 2 * p1 < m {
                UNIT
            } else {
                (-UNIT) as i64
            };
            (GenModel::Square { rate, frequency, phase: p1 as u64 }, out)
        },
        GenModel::Sawtooth { rate, frequency, clock } => {
            let c1 = ((clock + 1) % (rate as int)) as u32;
            let q = ((c1 as int) * (frequency as int)) % ((rate as int) * (UNIT as int)) / (
            rate as int);
            let out: i64 = if q > UNIT {
                UNIT
            } else {
                q as i64
            };
            (GenModel::Sawtooth { rate, frequency, clock: c1 }, out)
        },
        GenModel::Metronome { rate, bpm, track, clock } => {
            let (b2, bv) = pot_step(bpm);
            let clock1 = count_up(clock);
            let reset = bv > 0 && (clock1 as int) > 60 * (rate as int) * (UNIT as int) / (bv as int);
            let track1 = if reset {
                TrackModel { samples: track.samples, pos: 0 }
            } else {
                track
            };
            let clock2: u64 = if reset {
                0
            } else {
                clock1
            };
            let (track2, o) = track_next_s(track1);
            let out = match o {
                Some(s) => s,
                None => 0i64,
            };
            (GenModel::Metronome { rate, bpm: b2, track: track2, clock: clock2 }, out)
        },
        GenModel::Track { track } => {
            let (t1, o) = track_next_s(track);
            match o {
                Some(s) => (GenModel::Track { track: t1 }, s),
                None => {
                    let (t2, o2) = track_next_s(TrackModel { samples: track.samples, pos: 0 });
                    let out = match o2 {
                        Some(s) => s,
                        None => 0i64,
                    };
                    (GenModel::Track { track: t2 }, out)
                },
            }
        },
        GenModel::Sum { left, right } => {
            let (l2, lv) = gen_step(*left);
            let (r2, rv) = gen_step(*right);
            (GenModel::Sum { left: Box::new(l2), right: Box::new(r2) }, sat(lv + rv) as i64)
        },
        GenModel::Join2 { bias, left, right } => {
            let (l2, lv) = gen_step(*left);
            let (r2, rv) = gen_step(*right);
            let (b2, bv) = pot_step(bias);
            let b = sat(clamped_unit(bv as int) + UNIT);
            let wl = fxmul(sat(2 * UNIT - b), HALF_UNIT as int);
            let wr = fxmul(b, HALF_UNIT as int);
            let out = sat(fxmul(wl, lv as int) + fxmul(wr, rv as int)) as i64;
            (GenModel::Join2 { bias: b2, left: Box::new(l2), right: Box::new(r2) }, out)
        },
        GenModel::Composed { source, filter } => {
            let (s2, sv) = gen_step(*source);
            let (f2, ov) = filter_step(*filter, sv);
            (GenModel::Composed { source: Box::new(s2), filter: Box::new(f2) }, ov)
        },
        GenModel::Key { key } => {
            let (k2, out) = key_step(key);
            (GenModel::Key { key: k2 }, out)
        },
    }
}

/// The state of a generator after `n` ticks, with the samples it produced.
pub open spec fn gen_run(g: GenModel, n: nat) -> (GenModel, Seq<i64>)
    decreases n,
{
    if n == 0 {
        (g, Seq::empty())
    } else {
        let (g1, outs) = gen_run(g, (n - 1) as nat);
        let (g2, s) = gen_step(g1);
        (g2, outs.push(s))
    }
}

impl Pot {
    /// Read the control value; a generator-backed pot advances its generator
    /// by one tick.
    pub fn read(&mut self) -> (v: Sample)
        requires
            pot_wf(old(self)@),
        ensures
            final(self)@ == pot_step(old(self)@).0,
            v == pot_step(old(self)@).1,
            pot_wf(final(self)@),
        decreases *old(self),
    {
        match self {
            Pot::Constant(v) => *v,
            Pot::Cached(v) => *v,
            Pot::Gen(g) => g.tick(),
        }
    }

    /// Replace the cached value of an externally fed pot; any other backend
    /// ignores the feed.
    pub fn feed(&mut self, v: Sample) -> (accepted: bool)
        ensures
            accepted <==> old(self)@ is Cached,
            accepted ==> final(self)@ == PotModel::Cached(v),
            !accepted ==> *final(self) == *old(self),
    {
        match self {
            Pot::Cached(_) => {
                *self = Pot::Cached(v);
                true
            },
            _ => false,
        }
    }
}

/// Coefficient values read from a sequence of controls.
fn read_controls(cs: &Vec<Control>) -> (vals: Vec<Sample>)
    ensures
        vals@ == control_values(cs@),
{
    let mut vals: Vec<Sample> = Vec::new();
    let mut i: usize = 0;
    while i < cs.len()
        invariant
            i <= cs@.len(),
            vals@.len() == i,
            forall|j: int| 0 <= j < i ==> vals@[j] == control_value(cs@[j]),
        decreases cs@.len() - i,
    {
        vals.push(cs[i].read());
        i += 1;
    }
    proof {
        assert(vals@ =~= control_values(cs@));
    }
    vals
}

/// Saturating weighted sum of a history by its coefficients.
fn weighted_sum(coeffs: &Vec<Sample>, hist: &VecDeque<Sample>) -> (s: Sample)
    ensures
        s as int == wsum(coeffs@, hist@),
{
    let n = if coeffs.len() <= hist.len() {
        coeffs.len()
    } else {
        hist.len()
    };
    let mut acc: i64 = 0;
    let mut i: usize = 0;
    while i < n
        invariant
            n == if coeffs@.len() <= hist@.len() {
                coeffs@.len()
            } else {
                hist@.len()
            },
            i <= n,
            acc as int == wsum_to(coeffs@, hist@, i as int),
        decreases n - i,
    {
        acc = sat_add(acc, mul_scaled(coeffs[i], hist[i]));
        i += 1;
    }
    acc
}

/// The pole radius and gain constant of the band-pass and notch filters,
/// from the cosine of the normalized angular center frequency and the
/// normalized bandwidth.
pub fn r_and_k_from_cos(cos_center: Sample, band_width: Sample) -> (rk: (Sample, Sample))
    ensures
        rk.0 as int == bp_r(band_width as int),
        rk.1 as int == bp_k(cos_center as int, bp_r(band_width as int)),
{
    let bw3 = sat_add(sat_add(band_width, band_width), band_width);
    let r = sat_sub(UNIT, bw3);
    let r2 = mul_scaled(r, r);
    let t = mul_scaled(sat_add(r, r), cos_center);
    let num = sat_add(sat_sub(UNIT, t), r2);
    let den = sat_sub(sat_add(UNIT, UNIT), sat_add(cos_center, cos_center));
    let k = crate::sample::div_scaled(num, den);
    (r, k)
}

impl Filter {
    /// Feed one sample through the filter.
    #[verifier::rlimit(60)]
    pub fn apply(&mut self, input: Sample) -> (y: Sample)
        requires
            filter_wf(old(self)@),
        ensures
            final(self)@ == filter_step(old(self)@, input).0,
            y == filter_step(old(self)@, input).1,
            filter_wf(final(self)@),
        decreases *old(self),
    {
        match self {
            Filter::Gain { scale } => {
                let v = scale.read();
                mul_scaled(input, v)
            },
            Filter::Offset { offset } => {
                let v = offset.read();
                sat_add(input, v)
            },
            Filter::Clip { low, high } => {
                let lo = low.read();
                let hi = high.read();
                if input < lo {
                    lo
                } else if input > hi {
                    hi
                } else {
                    input
                }
            },
            Filter::RampUp { steps, elapsed } => {
                let e1: u64 = if *elapsed < *steps {
                    *elapsed + 1
                } else {
                    *elapsed
                };
                *elapsed = e1;
                let ratio: i64 = if *steps == 0 || e1 >= *steps {
                    UNIT
                } else {
                    let q: u128 = ((e1 as u128) * (UNIT as u128)) / (*steps as u128);
                    if q > UNIT as u128 {
                        UNIT
                    } else {
                        q as i64
                    }
                };
                mul_scaled(input, ratio)
            },
            Filter::RampDown { cliff, steps, elapsed } => {
                let e1: u64 = if *elapsed < u64::MAX && (*elapsed as u128) < (*cliff as u128) + (
                *steps as u128) {
                    *elapsed + 1
                } else {
                    *elapsed
                };
                *elapsed = e1;
                if e1 >= *cliff {
                    let diff: u64 = e1 - *cliff;
                    let factor: i64 = if *steps == 0 || diff >= *steps {
                        0
                    } else {
                        let q: u128 = ((diff as u128) * (UNIT as u128)) / (*steps as u128);
                        let qq: i64 = if q > UNIT as u128 {
                            UNIT
                        } else {
                            q as i64
                        };
                        UNIT - qq
                    };
                    mul_scaled(input, factor)
                } else {
                    input
                }
            },
            Filter::Comb { direction, decay, buf } => {
                match direction {
                    CombDirection::FeedForward => {
                        buf.push_back(input);
                        let oldest = match buf.pop_front() {
                            Some(v) => v,
                            None => 0,
                        };
                        sat_add(input, mul_scaled(*decay, oldest))
                    },
                    CombDirection::FeedBack => {
                        let oldest = match buf.pop_front() {
                            Some(v) => v,
                            None => 0,
                        };
                        let out = sat_add(input, mul_scaled(*decay, oldest));
                        buf.push_back(out);
                        out
                    },
                }
            },
            Filter::Chain { first, second } => {
                let y = first.apply(input);
                second.apply(y)
            },
            Filter::Par { left, right } => {
                let yl = left.apply(input);
                let yr = right.apply(input);
                sat_add(yl, yr)
            },
            Filter::Recursive { a, b, inputs, outputs } => {
                let avals = read_controls(a);
                let bvals = read_controls(b);
                if a.len() > 0 {
                    let _evicted = inputs.pop_back();
                    inputs.push_front(input);
                }
                let asum = weighted_sum(&avals, inputs);
                let bsum = weighted_sum(&bvals, outputs);
                let out = sat_add(asum, bsum);
                if b.len() > 0 {
                    let _evicted = outputs.pop_back();
                    outputs.push_front(out);
                }
                out
            },
            Filter::LowPass { x, prev_out } => {
                let c = x.read();
                let out = sat_add(mul_scaled(input, sat_sub(UNIT, c)), mul_scaled(*prev_out, c));
                *prev_out = out;
                out
            },
            Filter::HighPass { x, prev_in, prev_out } => {
                let c = x.read();
                let g = mul_scaled(sat_add(UNIT, c), HALF_UNIT);
                let asum = sat_add(mul_scaled(input, g), mul_scaled(*prev_in, sat_sub(0, g)));
                let out = sat_add(asum, mul_scaled(*prev_out, c));
                *prev_in = input;
                *prev_out = out;
                out
            },
            Filter::FourStage { x, s1, s2, s3, s4 } => {
                let c = x.read();
                let co = sat_sub(UNIT, c);
                let t1 = sat_add(mul_scaled(input, co), mul_scaled(*s1, c));
                let t2 = sat_add(mul_scaled(t1, co), mul_scaled(*s2, c));
                let t3 = sat_add(mul_scaled(t2, co), mul_scaled(*s3, c));
                let t4 = sat_add(mul_scaled(t3, co), mul_scaled(*s4, c));
                *s1 = t1;
                *s2 = t2;
                *s3 = t3;
                *s4 = t4;
                t4
            },
            Filter::BandPass { cos_center, band_width, in1, in2, out1, out2 } => {
                let cosv = cos_center.read();
                let bwv = band_width.read();
                let (r, k) = r_and_k_from_cos(cosv, bwv);
                let r2 = mul_scaled(r, r);
                let a0 = sat_sub(UNIT, k);
                let v = mul_scaled(sat_sub(k, r), cosv);
                let a1 = sat_add(v, v);
                let a2 = sat_sub(r2, k);
                let b1 = mul_scaled(sat_add(r, r), cosv);
                let b2 = sat_sub(0, r2);
                let asum = sat_add(
                    sat_add(mul_scaled(input, a0), mul_scaled(*in1, a1)),
                    mul_scaled(*in2, a2),
                );
                let bsum = sat_add(mul_scaled(*out1, b1), mul_scaled(*out2, b2));
                let out = sat_add(asum, bsum);
                *in2 = *in1;
                *in1 = input;
                *out2 = *out1;
                *out1 = out;
                out
            },
            Filter::Notch { cos_center, band_width, in1, in2, out1, out2 } => {
                let cosv = cos_center.read();
                let bwv = band_width.read();
                let (r, k) = r_and_k_from_cos(cosv, bwv);
                let r2 = mul_scaled(r, r);
                let w = mul_scaled(k, cosv);
                let a1 = sat_sub(0, sat_add(w, w));
                let b1 = mul_scaled(sat_add(r, r), cosv);
                let b2 = sat_sub(0, r2);
                let asum = sat_add(
                    sat_add(mul_scaled(input, k), mul_scaled(*in1, a1)),
                    mul_scaled(*in2, k),
                );
                let bsum = sat_add(mul_scaled(*out1, b1), mul_scaled(*out2, b2));
                let out = sat_add(asum, bsum);
                *in2 = *in1;
                *in1 = input;
                *out2 = *out1;
                *out1 = out;
                out
            },
        }
    }
}

impl Generator {
    /// Pull the next sample.
    #[verifier::rlimit(60)]
    pub fn tick(&mut self) -> (s: Sample)
        requires
            gen_wf(old(self)@),
        ensures
            final(self)@ == gen_step(old(self)@).0,
            s == gen_step(old(self)@).1,
            gen_wf(final(self)@),
        decreases *old(self),
    {
        match self {
            Generator::Constant(v) => *v,
            Generator::Square { rate, frequency, phase } => {
                let m: u64 = (*rate as u64) * (UNIT as u64);
                let p1: u64 = (*phase + (*frequency as u64)) % m;
                *phase = p1;
                if p1 > 0 && 2 * p1 < m {
                    UNIT
                } else {
                    -UNIT
                }
            },
            Generator::Sawtooth { rate, frequency, clock } => {
                let c1: u32 = (*clock + 1) % *rate;
                *clock = c1;
                let m: u128 = (*rate as u128) * (UNIT as u128);
                proof {
                    vstd::arithmetic::mul::lemma_mul_upper_bound(
                        c1 as int,
                        u32::MAX as int,
                        *frequency as int,
                        i64::MAX as int,
                    );
                }
                let q: u128 = (((c1 as u128) * (*frequency as u128)) % m) / (*rate as u128);
                if q > UNIT as u128 {
                    UNIT
                } else {
                    q as i64
                }
            },
            Generator::Metronome { rate, bpm, track, clock } => {
                let bv = bpm.read();
                let clock1: u64 = if *clock < u64::MAX {
                    *clock + 1
                } else {
                    *clock
                };
                let mut reset = false;
                if bv > 0 {
                    let q: u128 = (60u128 * (*rate as u128) * (UNIT as u128)) / (bv as u128);
                    if (clock1 as u128) > q {
                        reset = true;
                    }
                }
                if reset {
                    *clock = 0;
                    track.reset();
                } else {
                    *clock = clock1;
                }
                match track.next() {
                    Some(s) => s,
                    None => 0,
                }
            },
            Generator::Track { track } => {
                match track.next() {
                    Some(s) => s,
                    None => {
                        track.reset();
                        match track.next() {
                            Some(s) => s,
                            None => 0,
                        }
                    },
                }
            },
            Generator::Sum { left, right } => {
                let lv = left.tick();
                let rv = right.tick();
                sat_add(lv, rv)
            },
            Generator::Join2 { bias, left, right } => {
                let lv = left.tick();
                let rv = right.tick();
                let bv = bias.read();
                let b = sat_add(clamp_unit(bv), UNIT);
                let wl = mul_scaled(sat_sub(2 * UNIT, b), HALF_UNIT);
                let wr = mul_scaled(b, HALF_UNIT);
                sat_add(mul_scaled(wl, lv), mul_scaled(wr, rv))
            },
            Generator::Composed { source, filter } => {
                let sv = source.tick();
                filter.apply(sv)
            },
            Generator::Key { key } => key.read(),
        }
    }

    /// Bind a filter to this generator: the result pulls the source once per
    /// tick and applies the filter once to that sample.
    pub fn compose(self, filter: Filter) -> (g: Generator)
        ensures
            g@ == (GenModel::Composed { source: Box::new(self@), filter: Box::new(filter@) }),
    {
        Generator::Composed { source: Box::new(self), filter: Box::new(filter) }
    }
}

} // verus!

//! Filter constructors: gain and clipping, ramps, delay-line echoes, the
//! recursive filter engine and the filters derived from it, and the fixed
//! reverberation network.

use std::collections::VecDeque;

use vstd::prelude::*;

use crate::Sample;
use crate::control::Control;
use crate::graph::{
    CombDirection, Filter, FilterModel, Generator, GenModel, Pot, PotModel, filter_view, pot_view,
};
use crate::sample::{UNIT, sat, sat_sub};

verus! {

/// A sequence of all-zero samples.
pub open spec fn zeros(n: nat) -> Seq<i64> {
    Seq::new(n, |i: int| 0i64)
}

/// Models of a sequence of filters.
pub open spec fn filter_views(fs: Seq<Filter>) -> Seq<FilterModel> {
    fs.map_values(|f: Filter| filter_view(f))
}

/// The model of a parallel bank: each filter sees the same input and the
/// outputs are summed, left to right, over a silent base.
pub open spec fn par_fold(fs: Seq<FilterModel>) -> FilterModel
    decreases fs.len(),
{
    if fs.len() == 0 {
        FilterModel::Gain { scale: PotModel::Constant(0) }
    } else {
        FilterModel::Par { left: Box::new(fs[0]), right: Box::new(par_fold(fs.drop_first())) }
    }
}

/// The model of a comb filter with a zeroed delay line of `delay` ticks.
pub open spec fn comb_model(direction: CombDirection, delay: usize, decay: i64) -> FilterModel {
    FilterModel::Comb { direction, decay, buf: zeros(delay as nat) }
}

/// The model of an all-pass stage: a feed-forward comb into a feed-back comb
/// of equal delay and opposite decay.
pub open spec fn all_pass_model(delay: usize, decay: i64) -> FilterModel {
    FilterModel::Chain {
        first: Box::new(comb_model(CombDirection::FeedForward, delay, decay)),
        second: Box::new(comb_model(CombDirection::FeedBack, delay, sat(0 - decay) as i64)),
    }
}

/// A zeroed delay line of the given length.
fn zero_deque(n: usize) -> (d: VecDeque<Sample>)
    ensures
        d@ == zeros(n as nat),
{
    let mut d: VecDeque<Sample> = VecDeque::new();
    let mut i: usize = 0;
    while i < n
        invariant
            i <= n,
            d@.len() == i,
            forall|j: int| 0 <= j < i ==> d@[j] == 0i64,
        decreases n - i,
    {
        d.push_back(0);
        i += 1;
    }
    proof {
        assert(d@ =~= zeros(n as nat));
    }
    d
}

/// Apply the given filter to the given generator.
pub fn compose(generator: Generator, filter: Filter) -> (g: Generator)
    ensures
        g@ == (GenModel::Composed { source: Box::new(generator@), filter: Box::new(filter@) }),
{
    generator.compose(filter)
}

/// Scale the signal by the pot value; no clipping is performed.
pub fn gain(scale_factor: Pot) -> (f: Filter)
    ensures
        f@ == (FilterModel::Gain { scale: scale_factor@ }),
{
    Filter::Gain { scale: scale_factor }
}

/// Offset the signal by the pot value.
pub fn offset(offset_pot: Pot) -> (f: Filter)
    ensures
        f@ == (FilterModel::Offset { offset: offset_pot@ }),
{
    Filter::Offset { offset: offset_pot }
}

/// Clip the waveform by thresholding to the range between the two pot values.
pub fn clip(low: Pot, high: Pot) -> (f: Filter)
    ensures
        f@ == (FilterModel::Clip { low: low@, high: high@ }),
{
    Filter::Clip { low, high }
}

/// Ramp gain from zero to one over the given number of ticks.
pub fn ramp_up(ramp_steps: u64) -> (f: Filter)
    ensures
        f@ == (FilterModel::RampUp { steps: ramp_steps, elapsed: 0u64 }),
{
    Filter::RampUp { steps: ramp_steps, elapsed: 0 }
}

/// Ramp the signal to zero over `ramp_steps` ticks, starting after
/// `cliff_steps` ticks have elapsed.
pub fn ramp_down(cliff_steps: u64, ramp_steps: u64) -> (f: Filter)
    ensures
        f@ == (FilterModel::RampDown { cliff: cliff_steps, steps: ramp_steps, elapsed: 0u64 }),
{
    Filter::RampDown { cliff: cliff_steps, steps: ramp_steps, elapsed: 0 }
}

/// Comb echo filter over a zero-initialized delay line of `delay_ticks`
/// samples.
///
/// Feed-forward: `y(t) = x(t) + decay * x(t - k)`.
/// Feed-back: `y(t) = x(t) + decay * y(t - k)`.
pub fn comb(delay_ticks: usize, decay_factor: Sample, direction: CombDirection) -> (f: Filter)
    ensures
        f@ == comb_model(direction, delay_ticks, decay_factor),
{
    Filter::Comb { direction, decay: decay_factor, buf: zero_deque(delay_ticks) }
}

/// All-pass filter: a feed-forward comb and a feed-back comb of equal delay
/// and opposite decay in series.
pub fn all_pass(delay_ticks: usize, decay_factor: Sample) -> (f: Filter)
    ensures
        f@ == all_pass_model(delay_ticks, decay_factor),
{
    let forward = comb(delay_ticks, decay_factor, CombDirection::FeedForward);
    let back = comb(delay_ticks, sat_sub(0, decay_factor), CombDirection::FeedBack);
    Filter::Chain { first: Box::new(forward), second: Box::new(back) }
}

/// Sinusoidally attenuate the volume of the signal: amplitude modulation by
/// the supplied oscillator, one sample of it per tick. The caller renders the
/// modulating waveform (a sinusoid needs the floating-point edge outside the
/// library).
pub fn warble(modulation: Generator) -> (f: Filter)
    ensures
        f@ == (FilterModel::Gain { scale: PotModel::Gen(Box::new(modulation@)) }),
{
    let ghost m = modulation@;
    let scale = Pot::Gen(Box::new(modulation));
    proof {
        assert(pot_view(scale) == PotModel::Gen(Box::new(m)));
    }
    Filter::Gain { scale }
}

/// Apply the provided filters to the same input and sum the results.
pub fn parallel(filters: Vec<Filter>) -> (f: Filter)
    ensures
        f@ == par_fold(filter_views(filters@)),
    decreases filters@.len(),
{
    let mut fs = filters;
    if fs.len() == 0 {
        proof {
            assert(filter_views(fs@) =~= Seq::<FilterModel>::empty());
            assert(pot_view(Pot::Constant(0)) == PotModel::Constant(0i64));
            assert(filter_view(Filter::Gain { scale: Pot::Constant(0) }) == (FilterModel::Gain {
                scale: PotModel::Constant(0),
            }));
            assert(par_fold(filter_views(fs@)) == (FilterModel::Gain {
                scale: PotModel::Constant(0),
            }));
        }
        Filter::Gain { scale: Pot::Constant(0) }
    } else {
        let ghost all = fs@;
        let first = fs.remove(0);
        proof {
            assert(fs@ =~= all.drop_first());
        }
        let rest = parallel(fs);
        proof {
            assert(filter_views(all).drop_first() =~= filter_views(all.drop_first()));
            assert(filter_views(all)[0] == filter_view(all[0]));
        }
        let out = Filter::Par { left: Box::new(first), right: Box::new(rest) };
        proof {
            assert(out@ =~= par_fold(filter_views(all)));
        }
        out
    }
}

/// The general recursive (infinite-impulse-response) filter:
/// `y(n) = sum(a[i] * x(n - i)) + sum(b[j] * y(n - j))`, with coefficient
/// controls that are re-read every tick and zeroed histories of matching
/// lengths.
pub fn recursive(a_coeffs: Vec<Control>, b_coeffs: Vec<Control>) -> (f: Filter)
    ensures
        f@ == (FilterModel::Recursive {
            a: a_coeffs@,
            b: b_coeffs@,
            ins: zeros(a_coeffs@.len()),
            outs: zeros(b_coeffs@.len()),
        }),
{
    let ins = zero_deque(a_coeffs.len());
    let outs = zero_deque(b_coeffs.len());
    Filter::Recursive { a: a_coeffs, b: b_coeffs, inputs: ins, outputs: outs }
}

/// Single-pole low-pass filter: coefficients `(1 - x, x)` for a control `x`
/// on `[0, UNIT]`.
pub fn single_pole_low_pass(x: Pot) -> (f: Filter)
    ensures
        f@ == (FilterModel::LowPass { x: x@, prev_out: 0i64 }),
{
    Filter::LowPass { x, prev_out: 0 }
}

/// Single-pole high-pass filter: coefficients
/// `((1 + x) / 2, -(1 + x) / 2, x)` for a control `x` on `[0, UNIT]`.
pub fn single_pole_high_pass(x: Pot) -> (f: Filter)
    ensures
        f@ == (FilterModel::HighPass { x: x@, prev_in: 0i64, prev_out: 0i64 }),
{
    Filter::HighPass { x, prev_in: 0, prev_out: 0 }
}

/// Four single-pole low-pass stages in series sharing one control value,
/// which is read once per tick.
pub fn four_stage_low_pass(x: Pot) -> (f: Filter)
    ensures
        f@ == (FilterModel::FourStage { x: x@, s1: 0i64, s2: 0i64, s3: 0i64, s4: 0i64 }),
{
    Filter::FourStage { x, s1: 0, s2: 0, s3: 0, s4: 0 }
}

/// Band-pass filter around a center frequency.
///
/// The pots supply plain values: `cos_center` the cosine of `2 pi` times the
/// normalized center frequency (center frequency over sample rate), and
/// `band_width` the normalized bandwidth. A center frequency near zero
/// (cosine near one) makes the gain constant's denominator vanish and is the
/// caller's responsibility; at exactly zero the gain constant is taken as 0.
pub fn band_pass(cos_center: Pot, band_width: Pot) -> (f: Filter)
    ensures
        f@ == (FilterModel::BandPass {
            cos_center: cos_center@,
            band_width: band_width@,
            in1: 0i64,
            in2: 0i64,
            out1: 0i64,
            out2: 0i64,
        }),
{
    Filter::BandPass { cos_center, band_width, in1: 0, in2: 0, out1: 0, out2: 0 }
}

/// Notch filter: passes all but the frequencies near the center frequency.
/// The pots are as for [`band_pass`].
pub fn notch(cos_center: Pot, band_width: Pot) -> (f: Filter)
    ensures
        f@ == (FilterModel::Notch {
            cos_center: cos_center@,
            band_width: band_width@,
            in1: 0i64,
            in2: 0i64,
            out1: 0i64,
            out2: 0i64,
        }),
{
    Filter::Notch { cos_center, band_width, in1: 0, in2: 0, out1: 0, out2: 0 }
}

/// The reverberation network's shape: parallel feed-back combs, then
/// all-pass stages in series. Delays are in ticks.
pub struct ReverbConfig {
    /// Delay and decay of each parallel feed-back comb.
    pub combs: Vec<(usize, Sample)>,
    /// Delay and decay of each all-pass stage, applied in order.
    pub all_passes: Vec<(usize, Sample)>,
}

/// The classic fixed network: four feed-back combs near a tenth of a second,
/// then two short all-pass stages.
pub fn reverb_defaults(sample_rate: u32) -> (c: ReverbConfig)
    ensures
        c.combs@ == seq![
            (((sample_rate as int) * 9999 / 100000) as usize, 742000000i64),
            (((sample_rate as int) * 10414 / 100000) as usize, 733000000i64),
            (((sample_rate as int) * 11248 / 100000) as usize, 715000000i64),
            (((sample_rate as int) * 12085 / 100000) as usize, 697000000i64),
        ],
        c.all_passes@ == seq![
            (((sample_rate as int) * 2189 / 100000) as usize, 700000000i64),
            (((sample_rate as int) * 702 / 100000) as usize, 700000000i64),
        ],
{
    let r = sample_rate as u64;
    let mut combs: Vec<(usize, Sample)> = Vec::new();
    combs.push(((r * 9999 / 100000) as usize, 742000000));
    combs.push(((r * 10414 / 100000) as usize, 733000000));
    combs.push(((r * 11248 / 100000) as usize, 715000000));
    combs.push(((r * 12085 / 100000) as usize, 697000000));
    let mut all_passes: Vec<(usize, Sample)> = Vec::new();
    all_passes.push(((r * 2189 / 100000) as usize, 700000000));
    all_passes.push(((r * 702 / 100000) as usize, 700000000));
    proof {
        assert(combs@ =~= seq![
            (((sample_rate as int) * 9999 / 100000) as usize, 742000000i64),
            (((sample_rate as int) * 10414 / 100000) as usize, 733000000i64),
            (((sample_rate as int) * 11248 / 100000) as usize, 715000000i64),
            (((sample_rate as int) * 12085 / 100000) as usize, 697000000i64),
        ]);
        assert(all_passes@ =~= seq![
            (((sample_rate as int) * 2189 / 100000) as usize, 700000000i64),
            (((sample_rate as int) * 702 / 100000) as usize, 700000000i64),
        ]);
    }
    ReverbConfig { combs, all_passes }
}

/// Models of the parallel comb bank of a reverb configuration.
pub open spec fn reverb_comb_models(cs: Seq<(usize, i64)>) -> Seq<FilterModel> {
    cs.map_values(|c: (usize, i64)| comb_model(CombDirection::FeedBack, c.0, c.1))
}

/// A base filter chained through all-pass stages, in order.
pub open spec fn chain_all_passes(base: FilterModel, aps: Seq<(usize, i64)>) -> FilterModel
    decreases aps.len(),
{
    if aps.len() == 0 {
        base
    } else {
        chain_all_passes(
            FilterModel::Chain {
                first: Box::new(base),
                second: Box::new(all_pass_model(aps[0].0, aps[0].1)),
            },
            aps.drop_first(),
        )
    }
}

/// Reverberation: the configuration's feed-back combs in parallel, their sum
/// fed through its all-pass stages in series.
pub fn reverb(config: ReverbConfig) -> (f: Filter)
    ensures
        f@ == chain_all_passes(par_fold(reverb_comb_models(config.combs@)), config.all_passes@),
{
    let mut combs: Vec<Filter> = Vec::new();
    let mut i: usize = 0;
    while i < config.combs.len()
        invariant
            i <= config.combs@.len(),
            combs@.len() == i,
            forall|j: int| 0 <= j < i ==> filter_view(combs@[j]) == comb_model(
                CombDirection::FeedBack,
                config.combs@[j].0,
                config.combs@[j].1,
            ),
        decreases config.combs@.len() - i,
    {
        let (delay, decay) = config.combs[i];
        combs.push(comb(delay, decay, CombDirection::FeedBack));
        i += 1;
    }
    proof {
        assert(filter_views(combs@) =~= reverb_comb_models(config.combs@));
    }
    let mut acc = parallel(combs);
    proof {
        assert(config.all_passes@.skip(0) =~= config.all_passes@);
    }
    let mut j: usize = 0;
    while j < config.all_passes.len()
        invariant
            j <= config.all_passes@.len(),
            chain_all_passes(acc@, config.all_passes@.skip(j as int)) == chain_all_passes(
                par_fold(reverb_comb_models(config.combs@)),
                config.all_passes@,
            ),
        decreases config.all_passes@.len() - j,
    {
        let (delay, decay) = config.all_passes[j];
        let stage = all_pass(delay, decay);
        acc = Filter::Chain { first: Box::new(acc), second: Box::new(stage) };
        proof {
            assert(config.all_passes@.skip(j as int).drop_first() =~= config.all_passes@.skip(
                j as int + 1,
            ));
        }
        j += 1;
    }
    proof {
        assert(config.all_passes@.skip(config.all_passes@.len() as int) =~= Seq::<(
            usize,
            i64,
        )>::empty());
    }
    acc
}

} // verus!

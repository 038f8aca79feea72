//! Generator constructors: oscillators, silence, track playback, fan-in, and
//! turning tracks and keys into generators.

use vstd::prelude::*;

use crate::Sample;
use crate::graph::{GenModel, Generator, Pot, gen_view, gen_wf, gen_run};
use crate::keys::SimpleKey;
use crate::track::VecTrack;

verus! {

/// Models of a sequence of generators.
pub open spec fn gen_views(gs: Seq<Generator>) -> Seq<GenModel> {
    gs.map_values(|g: Generator| gen_view(g))
}

/// The model of an additive join: the generators' outputs summed left to
/// right over a silent base.
pub open spec fn sum_fold(gs: Seq<GenModel>) -> GenModel
    decreases gs.len(),
{
    if gs.len() == 0 {
        GenModel::Constant(0)
    } else {
        GenModel::Sum { left: Box::new(gs[0]), right: Box::new(sum_fold(gs.drop_first())) }
    }
}

/// Never creates any sound.
pub fn silence() -> (g: Generator)
    ensures
        g@ == GenModel::Constant(0),
        gen_wf(g@),
{
    Generator::Constant(0)
}

/// A generator that yields the same sample forever.
pub fn constant(value: Sample) -> (g: Generator)
    ensures
        g@ == GenModel::Constant(value),
        gen_wf(g@),
{
    Generator::Constant(value)
}

/// Square wave of the given frequency at maximum amplitude: `UNIT` over the
/// first half of each cycle, `-UNIT` over the second.
///
/// The frequency is a nonnegative fixed-point number of cycles per second.
pub fn square(sample_rate: u32, frequency: Sample) -> (g: Generator)
    requires
        sample_rate >= 1,
        frequency >= 0,
    ensures
        g@ == (GenModel::Square { rate: sample_rate, frequency, phase: 0u64 }),
        gen_wf(g@),
{
    let g = Generator::Square { rate: sample_rate, frequency, phase: 0 };
    proof {
        assert((0 as int) < (sample_rate as int) * (crate::sample::UNIT as int)) by (
        nonlinear_arith)
            requires
                sample_rate >= 1,
        ;
    }
    g
}

/// Sawtooth wave of the given frequency: the fractional part of
/// `frequency * clock / sample_rate`, rising from 0 toward `UNIT`.
///
/// The frequency is a nonnegative fixed-point number of cycles per second.
pub fn sawtooth(sample_rate: u32, frequency: Sample) -> (g: Generator)
    requires
        sample_rate >= 1,
        frequency >= 0,
    ensures
        g@ == (GenModel::Sawtooth { rate: sample_rate, frequency, clock: 0u32 }),
        gen_wf(g@),
{
    Generator::Sawtooth { rate: sample_rate, frequency, clock: 0 }
}

/// Play the track once per beat at the pot-controlled tempo, in beats per
/// minute as a fixed-point number; the track rewinds at each beat.
pub fn metronome(sample_rate: u32, bpm: Pot, track: VecTrack) -> (g: Generator)
    requires
        sample_rate >= 1,
    ensures
        g@ == (GenModel::Metronome { rate: sample_rate, bpm: bpm@, track: track@, clock: 0u64 }),
{
    Generator::Metronome { rate: sample_rate, bpm, track, clock: 0 }
}

/// Loop the provided track indefinitely, rewinding whenever it runs out.
pub fn repeat(track: VecTrack) -> (g: Generator)
    ensures
        g@ == (GenModel::Track { track: track@ }),
        gen_wf(g@),
{
    Generator::Track { track }
}

/// Join the provided generators into one that pulls every input once per
/// tick, in order, and yields their saturating sum.
pub fn join(generators: Vec<Generator>) -> (g: Generator)
    ensures
        g@ == sum_fold(gen_views(generators@)),
    decreases generators@.len(),
{
    let mut gs = generators;
    if gs.len() == 0 {
        proof {
            assert(gen_views(gs@) =~= Seq::<GenModel>::empty());
        }
        Generator::Constant(0)
    } else {
        let ghost all = gs@;
        let first = gs.remove(0);
        proof {
            assert(gs@ =~= all.drop_first());
        }
        let rest = join(gs);
        proof {
            assert(gen_views(all).drop_first() =~= gen_views(all.drop_first()));
            assert(gen_views(all)[0] == gen_view(all[0]));
        }
        Generator::Sum { left: Box::new(first), right: Box::new(rest) }
    }
}

/// Join two generators, mixed by the bias pot: bias at or below `-UNIT` is
/// all left, at or above `UNIT` all right, and 0 an even split.
pub fn join2(bias: Pot, left: Generator, right: Generator) -> (g: Generator)
    ensures
        g@ == (GenModel::Join2 {
            bias: bias@,
            left: Box::new(left@),
            right: Box::new(right@),
        }),
{
    Generator::Join2 { bias, left: Box::new(left), right: Box::new(right) }
}

impl VecTrack {
    /// Record the generator's first `length` samples as a track.
    pub fn from_generator(generator: Generator, length: usize) -> (t: VecTrack)
        requires
            gen_wf(gen_view(generator)),
        ensures
            t@.samples == gen_run(gen_view(generator), length as nat).1,
            t@.pos == 0,
    {
        let ghost g0 = gen_view(generator);
        let mut g = generator;
        let mut samples: Vec<Sample> = Vec::new();
        let mut i: usize = 0;
        while i < length
            invariant
                i <= length,
                gen_wf(g@),
                g@ == gen_run(g0, i as nat).0,
                samples@ == gen_run(g0, i as nat).1,
            decreases length - i,
        {
            let s = g.tick();
            samples.push(s);
            i += 1;
        }
        VecTrack::from_samples(samples)
    }
}

impl SimpleKey {
    /// Turn the key into a generator, consuming it.
    pub fn into_generator(self) -> (g: Generator)
        ensures
            g@ == (GenModel::Key { key: self@ }),
            gen_wf(g@),
    {
        Generator::Key { key: self }
    }
}

} // verus!

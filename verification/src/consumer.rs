//! The end consumer of an audio stream: drives the bound generator once per
//! output frame and writes the same sample to every channel slot of the
//! frame.

use vstd::prelude::*;

use vstd::arithmetic::div_mod::lemma_fundamental_div_mod_converse;

use crate::Sample;
use crate::graph::{GenModel, Generator, gen_run, gen_view, gen_wf};

verus! {

/// The number of frames needed to fill `n` sample slots at `ch` channels per
/// frame: a trailing partial frame counts.
pub open spec fn frames_for(n: int, ch: int) -> int {
    (n + ch - 1) / ch
}

/// Drives a mono generator into an interleaved output buffer: one generator
/// pull per frame, the same value written to each of the frame's channel
/// slots.
pub struct MonoConsumer {
    pub channels: usize,
    pub generator: Option<Generator>,
}

impl MonoConsumer {
    /// A consumer for the given channel count, not yet bound to a generator.
    pub fn new(channels: usize) -> (c: Self)
        requires
            channels >= 1,
        ensures
            c.channels == channels,
            c.generator is None,
    {
        MonoConsumer { channels, generator: None }
    }

    /// Bind the generator that will drive the stream.
    pub fn bind(self, generator: Generator) -> (c: Self)
        ensures
            c.channels == self.channels,
            c.generator == Some(generator),
    {
        MonoConsumer { channels: self.channels, generator: Some(generator) }
    }

    /// Fill the output buffer from the bound generator.
    ///
    /// The buffer holds interleaved frames of `channels` slots (the last one
    /// possibly partial). The generator is pulled exactly once per frame and
    /// that frame's sample is written to every one of its slots.
    pub fn fill(&mut self, output_buffer: &mut Vec<Sample>)
        requires
            old(self).channels >= 1,
            old(self).generator is Some,
            gen_wf(gen_view(old(self).generator.unwrap())),
        ensures
            final(self).channels == old(self).channels,
            final(output_buffer)@.len() == old(output_buffer)@.len(),
            ({
                let g0 = gen_view(old(self).generator.unwrap());
                let ch = old(self).channels as int;
                let n = old(output_buffer)@.len() as int;
                let frames = frames_for(n, ch);
                let (g1, outs) = gen_run(g0, frames as nat);
                &&& final(self).generator matches Some(g) && gen_view(g) == g1
                &&& forall|j: int|
                    0 <= j < n ==> final(output_buffer)@[j] == outs[j / ch]
            }),
    {
        let ghost g0 = gen_view(self.generator.unwrap());
        let ghost ch = self.channels as int;
        let ghost n = output_buffer@.len() as int;
        let channels = self.channels;
        let len = output_buffer.len();
        let gen = match &mut self.generator {
            Some(g) => g,
            None => {
                proof {
                    assert(false);
                }
                return ;
            },
        };
        let mut i: usize = 0;
        let ghost mut t: nat = 0nat;
        while i < len
            invariant
                1 <= channels,
                channels as int == ch,
                len == n,
                output_buffer@.len() == n,
                0 <= i <= len,
                i as int == if (t as int) * ch <= n {
                    (t as int) * ch
                } else {
                    n
                },
                t > 0 ==> ((t - 1) as int) * ch < n,
                gen_wf(gen@),
                gen@ == gen_run(g0, t).0,
                gen_run(g0, t).1.len() == t,
                forall|j: int| 0 <= j < i ==> output_buffer@[j] == gen_run(g0, t).1[j / ch],
            decreases len - i,
        {
            let s = gen.tick();
            proof {
                lemma_gen_run_len(g0, t);
                t = t + 1;
                lemma_gen_run_len(g0, t);
                assert(gen_run(g0, t).1 == gen_run(g0, (t - 1) as nat).1.push(s));
                assert(gen_run(g0, t).1[(t - 1) as int] == s);
                assert forall|j: int| 0 <= j < i implies gen_run(g0, t).1[
                    #[trigger] (j / (channels as int))
                ] == gen_run(g0, (t - 1) as nat).1[j / (channels as int)] by {
                    assert(0 <= j / (channels as int) < (t - 1) as int) by (nonlinear_arith)
                        requires
                            channels >= 1,
                            0 <= j,
                            j < ((t - 1) as int) * (channels as int),
                    ;
                }
            }
            let ghost frame_start = i as int;
            let mut c: usize = 0;
            while c < channels && i < len
                invariant
                    1 <= channels,
                    channels as int == ch,
                    len == n,
                    output_buffer@.len() == n,
                    frame_start == ((t - 1) as int) * ch,
                    frame_start < n,
                    0 <= c <= channels,
                    i as int == frame_start + c as int,
                    i <= len,
                    gen_run(g0, t).1.len() == t,
                    s == gen_run(g0, t).1[(t - 1) as int],
                    forall|j: int| 0 <= j < i ==> output_buffer@[j] == gen_run(g0, t).1[j / ch],
                decreases channels - c,
            {
                output_buffer.set(i, s);
                proof {
                    lemma_fundamental_div_mod_converse(
                        i as int,
                        ch,
                        (t - 1) as int,
                        c as int,
                    );
                }
                i += 1;
                c += 1;
            }
            proof {
                assert(((t - 1) as int) * ch + ch == (t as int) * ch) by (nonlinear_arith);
                if i < len {
                    assert(c == channels);
                    assert(i as int == (t as int) * ch);
                }
            }
        }
        proof {
            lemma_fill_frame_count(t as int, ch, n);
        }
    }
}

/// The outputs of a run are one sample per tick.
pub proof fn lemma_gen_run_len(g: GenModel, n: nat)
    ensures
        gen_run(g, n).1.len() == n,
    decreases n,
{
    if n > 0 {
        lemma_gen_run_len(g, (n - 1) as nat);
    }
}

/// A buffer of `n` slots at `ch` channels per frame takes `t` frames exactly
/// when the first `t - 1` frames do not cover it and `t` do.
proof fn lemma_fill_frame_count(t: int, ch: int, n: int)
    requires
        ch >= 1,
        n >= 0,
        t >= 0,
        t > 0 ==> (t - 1) * ch < n,
        (t * ch <= n) ==> t * ch == n,
        n > 0 ==> t > 0,
        n == 0 ==> t == 0,
    ensures
        t == frames_for(n, ch),
{
    if n == 0 {
        assert((ch - 1) / ch == 0) by (nonlinear_arith)
            requires
                ch >= 1,
        ;
    } else {
        if t * ch <= n {
            assert((n + ch - 1) / ch == t) by (nonlinear_arith)
                requires
                    ch >= 1,
                    t * ch == n,
            ;
        } else {
            assert((n + ch - 1) / ch == t) by (nonlinear_arith)
                requires
                    ch >= 1,
                    (t - 1) * ch < n,
                    n < t * ch,
            ;
        }
    }
}

} // verus!

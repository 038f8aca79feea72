//! The library's laws: properties of mixing, balancing, echo filters, the
//! recursive engine, composition and additive joins, proved over the graph's
//! ghost models.

use vstd::prelude::*;

use crate::control::Control;
use crate::filters::zeros;
use crate::generators::sum_fold;
use crate::graph::{
    CombDirection, FilterModel, GenModel, PotModel, comb_step, filter_step, gen_step, pot_step,
};
use crate::mux::{MuxModel, mux_apply};
use crate::sample::{
    UNIT, fxmul, lemma_fxmul_half_even, lemma_fxmul_unit, lemma_fxmul_zero, sat,
};

verus! {

/// A bias pinned all the way left mutes the right source: the mix yields
/// exactly the left source's sample, and both sources still advance one tick.
pub proof fn lemma_join2_full_left(l: GenModel, r: GenModel)
    ensures
        ({
            let (l1, lv) = gen_step(l);
            let (r1, rv) = gen_step(r);
            let g = GenModel::Join2 {
                bias: PotModel::Constant((-UNIT) as i64),
                left: Box::new(l),
                right: Box::new(r),
            };
            gen_step(g) == ((
                GenModel::Join2 {
                    bias: PotModel::Constant((-UNIT) as i64),
                    left: Box::new(l1),
                    right: Box::new(r1),
                },
                lv,
            ))
        }),
{
    let lv = gen_step(l).1;
    let rv = gen_step(r).1;
    assert(pot_step(PotModel::Constant((-UNIT) as i64)) == ((
        PotModel::Constant((-UNIT) as i64),
        (-UNIT) as i64,
    )));
    lemma_fxmul_unit(lv as int);
    lemma_fxmul_zero(rv as int);
}

/// A bias pinned all the way right mutes the left source: the mix yields
/// exactly the right source's sample.
pub proof fn lemma_join2_full_right(l: GenModel, r: GenModel)
    ensures
        ({
            let (l1, lv) = gen_step(l);
            let (r1, rv) = gen_step(r);
            let g = GenModel::Join2 {
                bias: PotModel::Constant(UNIT),
                left: Box::new(l),
                right: Box::new(r),
            };
            gen_step(g) == ((
                GenModel::Join2 {
                    bias: PotModel::Constant(UNIT),
                    left: Box::new(l1),
                    right: Box::new(r1),
                },
                rv,
            ))
        }),
{
    let lv = gen_step(l).1;
    let rv = gen_step(r).1;
    assert(pot_step(PotModel::Constant(UNIT)) == ((PotModel::Constant(UNIT), UNIT)));
    lemma_fxmul_unit(rv as int);
    lemma_fxmul_zero(lv as int);
}

/// A centered bias is an exact even mix: on samples of even parity the output
/// is exactly the per-tick average of the two sources. (On odd samples the
/// halves truncate toward zero before summing.)
pub proof fn lemma_join2_even_split(l: GenModel, r: GenModel)
    requires
        gen_step(l).1 % 2 == 0,
        gen_step(r).1 % 2 == 0,
    ensures
        ({
            let lv = gen_step(l).1;
            let rv = gen_step(r).1;
            let g = GenModel::Join2 {
                bias: PotModel::Constant(0),
                left: Box::new(l),
                right: Box::new(r),
            };
            gen_step(g).1 == (lv + rv) / 2
        }),
{
    let lv = gen_step(l).1;
    let rv = gen_step(r).1;
    assert(pot_step(PotModel::Constant(0)) == ((PotModel::Constant(0i64), 0i64)));
    lemma_fxmul_half_even(UNIT as int);
    lemma_fxmul_half_even(lv as int);
    lemma_fxmul_half_even(rv as int);
    assert((lv + rv) / 2 == lv / 2 + rv / 2) by (nonlinear_arith)
        requires
            lv % 2 == 0,
            rv % 2 == 0,
    ;
}

/// A neutral balance leaks nothing between the channels: both outputs equal
/// the corresponding inputs unchanged.
pub proof fn lemma_balance_neutral(l: i64, r: i64)
    ensures
        mux_apply(MuxModel::Balance(PotModel::Constant(0)), l, r) == ((
            MuxModel::Balance(PotModel::Constant(0)),
            l,
            r,
        )),
{
    lemma_fxmul_unit(l as int);
    lemma_fxmul_unit(r as int);
    lemma_fxmul_zero(l as int);
    lemma_fxmul_zero(r as int);
}

/// A balance pinned all the way left routes everything to the left channel:
/// the left output is the saturating sum of both inputs and the right output
/// is silence.
pub proof fn lemma_balance_full_left(l: i64, r: i64)
    ensures
        mux_apply(MuxModel::Balance(PotModel::Constant((-UNIT) as i64)), l, r) == ((
            MuxModel::Balance(PotModel::Constant((-UNIT) as i64)),
            sat(l + r) as i64,
            0i64,
        )),
{
    lemma_fxmul_unit(l as int);
    lemma_fxmul_unit(r as int);
    lemma_fxmul_zero(l as int);
    lemma_fxmul_zero(r as int);
}

/// A balance pinned all the way right routes everything to the right channel.
pub proof fn lemma_balance_full_right(l: i64, r: i64)
    ensures
        mux_apply(MuxModel::Balance(PotModel::Constant(UNIT)), l, r) == ((
            MuxModel::Balance(PotModel::Constant(UNIT)),
            0i64,
            sat(l + r) as i64,
        )),
{
    lemma_fxmul_unit(l as int);
    lemma_fxmul_unit(r as int);
    lemma_fxmul_zero(l as int);
    lemma_fxmul_zero(r as int);
}

/// A comb filter run over a sequence of inputs: the delay line afterwards,
/// and the outputs in order.
pub open spec fn comb_run(direction: CombDirection, decay: i64, buf: Seq<i64>, xs: Seq<i64>) -> (
    Seq<i64>,
    Seq<i64>,
)
    decreases xs.len(),
{
    if xs.len() == 0 {
        (buf, Seq::empty())
    } else {
        let (b1, o) = comb_step(direction, decay, buf, xs[0]);
        let (b2, os) = comb_run(direction, decay, b1, xs.drop_first());
        (b2, seq![o] + os)
    }
}

/// The feed-forward comb's difference equation: with a delay line holding
/// `k >= 1` queued inputs, every output is its input plus the decayed input
/// from `k` ticks earlier (the queued line standing in for ticks before the
/// run).
pub proof fn lemma_comb_ff_response(decay: i64, hist: Seq<i64>, xs: Seq<i64>)
    requires
        hist.len() >= 1,
    ensures
        ({
            let k = hist.len() as int;
            let outs = comb_run(CombDirection::FeedForward, decay, hist, xs).1;
            &&& outs.len() == xs.len()
            &&& forall|t: int|
                0 <= t < xs.len() ==> #[trigger] outs[t] == sat(
                    xs[t] + fxmul(
                        decay as int,
                        (if t < k {
                            hist[t]
                        } else {
                            xs[t - k]
                        }) as int,
                    ),
                ) as i64
        }),
    decreases xs.len(),
{
    let k = hist.len() as int;
    if xs.len() > 0 {
        let x0 = xs[0];
        let buf1 = hist.push(x0);
        let hist1 = buf1.drop_first();
        let xs1 = xs.drop_first();
        assert(hist1.len() == k);
        lemma_comb_ff_response(decay, hist1, xs1);
        let outs = comb_run(CombDirection::FeedForward, decay, hist, xs).1;
        let outs1 = comb_run(CombDirection::FeedForward, decay, hist1, xs1).1;
        assert forall|t: int| 0 <= t < xs.len() implies #[trigger] outs[t] == sat(
            xs[t] + fxmul(
                decay as int,
                (if t < k {
                    hist[t]
                } else {
                    xs[t - k]
                }) as int,
            ),
        ) as i64 by {
            if t == 0 {
                assert(buf1[0] == hist[0]);
            } else {
                let t1 = t - 1;
                assert(outs[t] == outs1[t1]);
                if t1 < k {
                    if t1 < k - 1 {
                        assert(hist1[t1] == hist[t]);
                    } else {
                        assert(hist1[t1] == x0);
                    }
                } else {
                    assert(xs1[t1 - k] == xs[t - k]);
                }
            }
        }
    }
}

/// The feed-back comb's difference equation: with a delay line holding
/// `k >= 1` queued outputs, every output is its input plus the decayed output
/// from `k` ticks earlier (the queued line standing in for ticks before the
/// run).
pub proof fn lemma_comb_fb_response(decay: i64, hist: Seq<i64>, xs: Seq<i64>)
    requires
        hist.len() >= 1,
    ensures
        ({
            let k = hist.len() as int;
            let outs = comb_run(CombDirection::FeedBack, decay, hist, xs).1;
            &&& outs.len() == xs.len()
            &&& forall|t: int|
                0 <= t < xs.len() ==> #[trigger] outs[t] == sat(
                    xs[t] + fxmul(
                        decay as int,
                        (if t < k {
                            hist[t]
                        } else {
                            outs[t - k]
                        }) as int,
                    ),
                ) as i64
        }),
    decreases xs.len(),
{
    let k = hist.len() as int;
    if xs.len() > 0 {
        let x0 = xs[0];
        let o = sat(x0 + fxmul(decay as int, hist[0] as int)) as i64;
        let hist1 = hist.drop_first().push(o);
        let xs1 = xs.drop_first();
        assert(hist1.len() == k);
        lemma_comb_fb_response(decay, hist1, xs1);
        let outs = comb_run(CombDirection::FeedBack, decay, hist, xs).1;
        let outs1 = comb_run(CombDirection::FeedBack, decay, hist1, xs1).1;
        assert(outs == seq![o] + outs1);
        assert forall|t: int| 0 <= t < xs.len() implies #[trigger] outs[t] == sat(
            xs[t] + fxmul(
                decay as int,
                (if t < k {
                    hist[t]
                } else {
                    outs[t - k]
                }) as int,
            ),
        ) as i64 by {
            if t == 0 {
            } else {
                let t1 = t - 1;
                assert(outs[t] == outs1[t1]);
                if t1 < k {
                    if t1 < k - 1 {
                        assert(hist1[t1] == hist[t]);
                    } else {
                        assert(hist1[t1] == o);
                        assert(o == outs[0]);
                        assert(t - k == 0);
                    }
                } else {
                    assert(outs1[t1 - k] == outs[t - k]);
                }
            }
        }
    }
}

/// A unit impulse: the fixed-point 1.0 at the first tick, silence after.
pub open spec fn impulse(n: nat) -> Seq<i64> {
    Seq::new(
        n,
        |i: int|
            if i == 0 {
                UNIT
            } else {
                0i64
            },
    )
}

/// A feed-forward comb of delay `k` and decay `a` on a unit impulse rings
/// exactly twice: the fixed-point 1.0 at the first tick, exactly `a` at tick
/// `k`, and silence everywhere else.
pub proof fn lemma_comb_ff_impulse(k: usize, decay: i64, n: nat)
    requires
        k >= 1,
    ensures
        ({
            let outs = comb_run(CombDirection::FeedForward, decay, zeros(k as nat), impulse(n)).1;
            &&& outs.len() == n
            &&& forall|t: int|
                0 <= t < n ==> #[trigger] outs[t] == (if t == 0 {
                    UNIT
                } else if t == k {
                    decay
                } else {
                    0i64
                })
        }),
{
    lemma_comb_ff_response(decay, zeros(k as nat), impulse(n));
    let outs = comb_run(CombDirection::FeedForward, decay, zeros(k as nat), impulse(n)).1;
    assert forall|t: int| 0 <= t < n implies #[trigger] outs[t] == (if t == 0 {
        UNIT
    } else if t == k {
        decay
    } else {
        0i64
    }) by {
        if t == 0 {
            lemma_fxmul_zero(decay as int);
        } else if t == k {
            lemma_fxmul_unit(decay as int);
        } else {
            lemma_fxmul_zero(decay as int);
        }
    }
}

/// Iterated fixed-point decay: `a` to the `m`-th power in the scaled,
/// truncating multiplication.
pub open spec fn fx_pow(a: i64, m: nat) -> i64
    decreases m,
{
    if m == 0 {
        UNIT
    } else {
        fxmul(a as int, fx_pow(a, (m - 1) as nat) as int) as i64
    }
}

/// A feed-back comb of delay `k` and decay `a` on a unit impulse rings
/// forever: echoes at ticks `0, k, 2k, ...` with amplitudes `1, a, a^2, ...`
/// (the powers taken in fixed point), and silence between the echoes.
pub proof fn lemma_comb_fb_impulse(k: usize, decay: i64, n: nat)
    requires
        k >= 1,
    ensures
        ({
            let outs = comb_run(CombDirection::FeedBack, decay, zeros(k as nat), impulse(n)).1;
            &&& outs.len() == n
            &&& forall|t: int|
                0 <= t < n ==> #[trigger] outs[t] == (if t % (k as int) == 0 {
                    fx_pow(decay, (t / (k as int)) as nat)
                } else {
                    0i64
                })
        }),
{
    lemma_comb_fb_response(decay, zeros(k as nat), impulse(n));
    let outs = comb_run(CombDirection::FeedBack, decay, zeros(k as nat), impulse(n)).1;
    assert forall|t: int| 0 <= t < n implies #[trigger] outs[t] == (if t % (k as int) == 0 {
        fx_pow(decay, (t / (k as int)) as nat)
    } else {
        0i64
    }) by {
        lemma_fb_impulse_closed(k as int, decay, n, t);
    }
}

/// The closed form of the feed-back impulse response, by strong induction
/// over the tick.
proof fn lemma_fb_impulse_closed(k: int, decay: i64, n: nat, t: int)
    requires
        k >= 1,
        0 <= t < n,
    ensures
        ({
            let outs = comb_run(CombDirection::FeedBack, decay, zeros(k as nat), impulse(n)).1;
            outs[t] == (if t % k == 0 {
                fx_pow(decay, (t / k) as nat)
            } else {
                0i64
            })
        }),
    decreases t,
{
    lemma_comb_fb_response(decay, zeros(k as nat), impulse(n));
    let outs = comb_run(CombDirection::FeedBack, decay, zeros(k as nat), impulse(n)).1;
    if t == 0 {
        lemma_fxmul_zero(decay as int);
        assert(0int % k == 0) by (nonlinear_arith)
            requires
                k >= 1,
        ;
        assert(0int / k == 0) by (nonlinear_arith)
            requires
                k >= 1,
        ;
    } else if t < k {
        lemma_fxmul_zero(decay as int);
        assert(t % k == t) by (nonlinear_arith)
            requires
                k >= 1,
                0 <= t < k,
        ;
    } else {
        lemma_fb_impulse_closed(k, decay, n, t - k);
        assert(t % k == (t - k) % k && t / k == (t - k) / k + 1) by (nonlinear_arith)
            requires
                k >= 1,
                t >= k,
        ;
        if (t - k) % k == 0 {
            assert(outs[t] == sat(0 + fxmul(decay as int, outs[t - k] as int)) as i64);
            assert(sat(fxmul(decay as int, outs[t - k] as int)) == fxmul(
                decay as int,
                outs[t - k] as int,
            ));
            assert((t / k) as nat == ((t - k) / k + 1) as nat);
        } else {
            lemma_fxmul_zero(decay as int);
        }
    }
}

/// A low-pass stage whose control reads zero passes its input through
/// unchanged.
pub proof fn lemma_low_pass_pass_through(prev: i64, x: i64)
    ensures
        filter_step(FilterModel::LowPass { x: PotModel::Constant(0), prev_out: prev }, x) == ((
            FilterModel::LowPass { x: PotModel::Constant(0), prev_out: x },
            x,
        )),
{
    assert(pot_step(PotModel::Constant(0)) == ((PotModel::Constant(0i64), 0i64)));
    lemma_fxmul_unit(x as int);
    lemma_fxmul_zero(prev as int);
}

/// A low-pass stage whose control reads one holds its own previous output,
/// ignoring the input.
pub proof fn lemma_low_pass_hold(prev: i64, x: i64)
    ensures
        filter_step(FilterModel::LowPass { x: PotModel::Constant(UNIT), prev_out: prev }, x) == ((
            FilterModel::LowPass { x: PotModel::Constant(UNIT), prev_out: prev },
            prev,
        )),
{
    assert(pot_step(PotModel::Constant(UNIT)) == ((PotModel::Constant(UNIT), UNIT)));
    lemma_fxmul_unit(prev as int);
    lemma_fxmul_zero(x as int);
}

/// A filter run over a sequence of inputs: the filter afterwards, and the
/// outputs in order.
pub open spec fn filter_run(f: FilterModel, xs: Seq<i64>) -> (FilterModel, Seq<i64>)
    decreases xs.len(),
{
    if xs.len() == 0 {
        (f, Seq::empty())
    } else {
        let (f1, o) = filter_step(f, xs[0]);
        let (f2, os) = filter_run(f1, xs.drop_first());
        (f2, seq![o] + os)
    }
}

/// The recursive engine's history lengths are invariant: across any number of
/// ticks the input history stays as long as the input coefficient vector and
/// the output history as long as the output coefficient vector, and the
/// coefficient controls themselves never change.
pub proof fn lemma_recursive_history_bounded(
    a: Seq<Control>,
    b: Seq<Control>,
    ins: Seq<i64>,
    outs: Seq<i64>,
    xs: Seq<i64>,
)
    requires
        ins.len() == a.len(),
        outs.len() == b.len(),
    ensures
        ({
            let f1 = filter_run(FilterModel::Recursive { a, b, ins, outs }, xs).0;
            f1 matches FilterModel::Recursive { a: a1, b: b1, ins: i1, outs: o1 } && a1 == a && b1
                == b && i1.len() == a.len() && o1.len() == b.len()
        }),
    decreases xs.len(),
{
    if xs.len() > 0 {
        let (f1, o) = filter_step(FilterModel::Recursive { a, b, ins, outs }, xs[0]);
        assert(f1 matches FilterModel::Recursive { a: a1, b: b1, ins: i1, outs: o1 } && a1 == a
            && b1 == b && i1.len() == a.len() && o1.len() == b.len());
        if let FilterModel::Recursive { a: a1, b: b1, ins: i1, outs: o1 } = f1 {
            lemma_recursive_history_bounded(a1, b1, i1, o1, xs.drop_first());
        }
    }
}

/// Composing a filter onto a generator computes, per tick, exactly the
/// filter applied by hand to the sample the generator yields that tick.
pub proof fn lemma_compose_per_tick(g: GenModel, f: FilterModel)
    ensures
        gen_step(GenModel::Composed { source: Box::new(g), filter: Box::new(f) }) == ({
            let (g1, s) = gen_step(g);
            let (f1, y) = filter_step(f, s);
            (GenModel::Composed { source: Box::new(g1), filter: Box::new(f1) }, y)
        }),
{
}

/// The plain mathematical sum of a sequence of samples.
pub open spec fn sum_of(cs: Seq<i64>) -> int
    decreases cs.len(),
{
    if cs.len() == 0 {
        0
    } else {
        cs[0] + sum_of(cs.drop_first())
    }
}

/// Constant generators for a sequence of values.
pub open spec fn constant_models(cs: Seq<i64>) -> Seq<GenModel> {
    cs.map_values(|c: i64| GenModel::Constant(c))
}

/// An additive join over constant sources yields their plain sum at every
/// tick, so long as no suffix of the additions saturates; the sum is a
/// property of the set of values alone, not of the order the sources are
/// pulled in.
pub proof fn lemma_join_constants(cs: Seq<i64>)
    requires
        forall|i: int| 0 <= i <= cs.len() ==> i64::MIN <= sum_of(#[trigger] cs.skip(i)) <= i64::MAX,
    ensures
        ({
            let g = sum_fold(constant_models(cs));
            &&& gen_step(g).0 == g
            &&& gen_step(g).1 == sum_of(cs)
        }),
    decreases cs.len(),
{
    assert(cs.skip(0) =~= cs);
    if cs.len() == 0 {
        assert(constant_models(cs) =~= Seq::<GenModel>::empty());
    } else {
        let rest = cs.drop_first();
        assert(rest =~= cs.skip(1));
        assert forall|i: int| 0 <= i <= rest.len() implies i64::MIN <= sum_of(
            #[trigger] rest.skip(i),
        ) <= i64::MAX by {
            assert(rest.skip(i) =~= cs.skip(i + 1));
        }
        lemma_join_constants(rest);
        assert(constant_models(cs).drop_first() =~= constant_models(rest));
        assert(constant_models(cs)[0] == GenModel::Constant(cs[0]));
        assert(constant_models(cs).len() == cs.len());
        assert(gen_step(GenModel::Constant(cs[0])) == ((GenModel::Constant(cs[0]), cs[0])));
        assert(sum_fold(constant_models(cs)) == (GenModel::Sum {
            left: Box::new(GenModel::Constant(cs[0])),
            right: Box::new(sum_fold(constant_models(rest))),
        }));
    }
}

} // verus!

//! The fan-out / multiplexing engine: two entangled generators over shared
//! state, with exactly-once evaluation of the shared sources per round
//! whatever order the two sides are pulled in.

use vstd::prelude::*;

use crate::Sample;
use crate::graph::{
    GenModel, Generator, Pot, PotModel, gen_step, gen_run, gen_view, gen_wf, pot_step, pot_wf,
};
use crate::sample::{UNIT, fxmul, max64, min64, mul_scaled, sat, sat_add, sat_sub};

verus! {

/// The smaller of two integers.
pub open spec fn min_i(a: int, b: int) -> int {
    if a <= b {
        a
    } else {
        b
    }
}

/// The larger of two integers.
pub open spec fn max_i(a: int, b: int) -> int {
    if a >= b {
        a
    } else {
        b
    }
}

/// The muxing function of an entangled pair: how the two sources' samples
/// combine into the two outputs of one round.
pub enum MuxFn {
    /// Duplicate the left source: both sides yield its sample.
    Fork,
    /// Route the sources between the channels by the balance pot, on
    /// `[-UNIT, UNIT]`: `-UNIT` sends everything left, `UNIT` everything
    /// right, 0 changes nothing.
    Balance(Pot),
}

/// Ghost model of a [`MuxFn`].
#[verifier::ext_equal]
pub enum MuxModel {
    Fork,
    Balance(PotModel),
}

/// The cell holding the side computed for the other channel in the current
/// round, if that side has not been pulled yet.
#[derive(Clone, Copy)]
pub enum Pending {
    /// No value pending: the next pull starts a fresh round.
    Empty,
    /// The left channel's value of the current round awaits its pull.
    ForLeft(Sample),
    /// The right channel's value of the current round awaits its pull.
    ForRight(Sample),
}

/// Model of a mux function.
pub open spec fn mux_view(m: MuxFn) -> MuxModel {
    match m {
        MuxFn::Fork => MuxModel::Fork,
        MuxFn::Balance(p) => MuxModel::Balance(p@),
    }
}

/// Well-formedness of a mux function's model.
pub open spec fn mux_wf(m: MuxModel) -> bool {
    match m {
        MuxModel::Fork => true,
        MuxModel::Balance(p) => pot_wf(p),
    }
}

/// One application of a mux function to the two sources' samples: the mux
/// function afterwards, and the left and right outputs.
pub open spec fn mux_apply(m: MuxModel, l: i64, r: i64) -> (MuxModel, i64, i64) {
    match m {
        MuxModel::Fork => (m, l, l),
        MuxModel::Balance(p) => {
            let (p1, bv) = pot_step(p);
            let lo = sat(
                fxmul(l as int, min_i(UNIT as int, sat(UNIT - bv))) + fxmul(
                    r as int,
                    max_i(0, sat(0 - bv)),
                ),
            ) as i64;
            let ro = sat(
                fxmul(l as int, max_i(0, bv as int)) + fxmul(
                    r as int,
                    min_i(UNIT as int, sat(bv + UNIT)),
                ),
            ) as i64;
            (MuxModel::Balance(p1), lo, ro)
        },
    }
}

/// Ghost model of an [`EntangledPair`].
#[verifier::ext_equal]
pub struct PairModel {
    pub left: GenModel,
    pub right: GenModel,
    pub mux: MuxModel,
    pub pending: Pending,
}

/// Well-formedness of a pair model.
pub open spec fn pair_wf(p: PairModel) -> bool {
    gen_wf(p.left) && gen_wf(p.right) && mux_wf(p.mux)
}

/// One pull on the left channel.
///
/// A value pending for the left channel is consumed. Otherwise a fresh round
/// runs: both sources are pulled once, the mux function is applied once, the
/// right output is cached and the left output returned.
pub open spec fn pair_pull_left(p: PairModel) -> (PairModel, i64) {
    match p.pending {
        Pending::ForLeft(v) => (PairModel { pending: Pending::Empty, ..p }, v),
        _ => {
            let (l1, lv) = gen_step(p.left);
            let (r1, rv) = gen_step(p.right);
            let (m1, lo, ro) = mux_apply(p.mux, lv, rv);
            (PairModel { left: l1, right: r1, mux: m1, pending: Pending::ForRight(ro) }, lo)
        },
    }
}

/// One pull on the right channel; the mirror image of [`pair_pull_left`].
pub open spec fn pair_pull_right(p: PairModel) -> (PairModel, i64) {
    match p.pending {
        Pending::ForRight(v) => (PairModel { pending: Pending::Empty, ..p }, v),
        _ => {
            let (l1, lv) = gen_step(p.left);
            let (r1, rv) = gen_step(p.right);
            let (m1, lo, ro) = mux_apply(p.mux, lv, rv);
            (PairModel { left: l1, right: r1, mux: m1, pending: Pending::ForLeft(lo) }, ro)
        },
    }
}

/// Two generators entangled over shared state: the underlying sources and the
/// mux function run exactly once per round, and the side pulled second
/// receives the value cached from the same round.
pub struct EntangledPair {
    pub left: Generator,
    pub right: Generator,
    pub mux: MuxFn,
    pub pending: Pending,
}

impl View for EntangledPair {
    type V = PairModel;

    open spec fn view(&self) -> PairModel {
        PairModel {
            left: gen_view(self.left),
            right: gen_view(self.right),
            mux: mux_view(self.mux),
            pending: self.pending,
        }
    }
}

impl MuxFn {
    /// Apply the mux function to one round's pair of source samples.
    fn apply(&mut self, l: Sample, r: Sample) -> (out: (Sample, Sample))
        requires
            mux_wf(mux_view(*old(self))),
        ensures
            mux_view(*final(self)) == mux_apply(mux_view(*old(self)), l, r).0,
            out.0 == mux_apply(mux_view(*old(self)), l, r).1,
            out.1 == mux_apply(mux_view(*old(self)), l, r).2,
            mux_wf(mux_view(*final(self))),
    {
        match self {
            MuxFn::Fork => (l, l),
            MuxFn::Balance(p) => {
                let bal = p.read();
                let lo = sat_add(
                    mul_scaled(l, min64(UNIT, sat_sub(UNIT, bal))),
                    mul_scaled(r, max64(0, sat_sub(0, bal))),
                );
                let ro = sat_add(
                    mul_scaled(l, max64(0, bal)),
                    mul_scaled(r, min64(UNIT, sat_add(bal, UNIT))),
                );
                (lo, ro)
            },
        }
    }
}

impl EntangledPair {
    /// Pull the left channel's next sample.
    pub fn pull_left(&mut self) -> (s: Sample)
        requires
            pair_wf(old(self)@),
        ensures
            final(self)@ == pair_pull_left(old(self)@).0,
            s == pair_pull_left(old(self)@).1,
            pair_wf(final(self)@),
    {
        match self.pending {
            Pending::ForLeft(v) => {
                self.pending = Pending::Empty;
                v
            },
            _ => {
                let lv = self.left.tick();
                let rv = self.right.tick();
                let (lo, ro) = self.mux.apply(lv, rv);
                self.pending = Pending::ForRight(ro);
                lo
            },
        }
    }

    /// Pull the right channel's next sample.
    pub fn pull_right(&mut self) -> (s: Sample)
        requires
            pair_wf(old(self)@),
        ensures
            final(self)@ == pair_pull_right(old(self)@).0,
            s == pair_pull_right(old(self)@).1,
            pair_wf(final(self)@),
    {
        match self.pending {
            Pending::ForRight(v) => {
                self.pending = Pending::Empty;
                v
            },
            _ => {
                let lv = self.left.tick();
                let rv = self.right.tick();
                let (lo, ro) = self.mux.apply(lv, rv);
                self.pending = Pending::ForLeft(lo);
                ro
            },
        }
    }
}

/// Multiplex the left and right sources into an entangled pair of channels
/// combined by the given mux function.
pub fn mux2(mux_function: MuxFn, left: Generator, right: Generator) -> (p: EntangledPair)
    ensures
        p@ == (PairModel {
            left: left@,
            right: right@,
            mux: mux_view(mux_function),
            pending: Pending::Empty,
        }),
{
    EntangledPair { left, right, mux: mux_function, pending: Pending::Empty }
}

/// Fork the provided generator into two entangled channels that yield the
/// same value at every round; the right source is silence.
pub fn fork(generator: Generator) -> (p: EntangledPair)
    ensures
        p@ == (PairModel {
            left: generator@,
            right: GenModel::Constant(0),
            mux: MuxModel::Fork,
            pending: Pending::Empty,
        }),
{
    mux2(MuxFn::Fork, generator, crate::generators::silence())
}

/// Adjust the left/right balance of two sources: pot values on
/// `[-UNIT, UNIT]`, where `-UNIT` routes all sound left, `UNIT` all sound
/// right, and 0 leaves both channels unchanged.
pub fn balance(balance_pot: Pot, left: Generator, right: Generator) -> (p: EntangledPair)
    ensures
        p@ == (PairModel {
            left: left@,
            right: right@,
            mux: MuxModel::Balance(balance_pot@),
            pending: Pending::Empty,
        }),
{
    mux2(MuxFn::Balance(balance_pot), left, right)
}

/// One full round on a pair: both sides pulled once, the given side first.
pub open spec fn pair_round(p: PairModel, left_first: bool) -> (PairModel, i64, i64) {
    if left_first {
        let (p1, lo) = pair_pull_left(p);
        let (p2, ro) = pair_pull_right(p1);
        (p2, lo, ro)
    } else {
        let (p1, ro) = pair_pull_right(p);
        let (p2, lo) = pair_pull_left(p1);
        (p2, lo, ro)
    }
}

/// The reference behaviour of `n` rounds: per round, each source steps
/// exactly once and the mux function applies exactly once to that round's
/// samples; the outputs are the per-round left/right pairs.
pub open spec fn rounds_ref(p: PairModel, n: nat) -> (PairModel, Seq<(i64, i64)>)
    decreases n,
{
    if n == 0 {
        (p, Seq::empty())
    } else {
        let (q, outs) = rounds_ref(p, (n - 1) as nat);
        let (l1, lv) = gen_step(q.left);
        let (r1, rv) = gen_step(q.right);
        let (m1, lo, ro) = mux_apply(q.mux, lv, rv);
        (
            PairModel { left: l1, right: r1, mux: m1, pending: Pending::Empty },
            outs.push((lo, ro)),
        )
    }
}

/// A pull sequence of round-robin rounds: per round, both sides pulled once,
/// in the order the entry gives (true: left first).
pub open spec fn run_rounds(p: PairModel, orders: Seq<bool>) -> (PairModel, Seq<(i64, i64)>)
    decreases orders.len(),
{
    if orders.len() == 0 {
        (p, Seq::empty())
    } else {
        let (q, outs) = run_rounds(p, orders.drop_last());
        let (p2, lo, ro) = pair_round(q, orders.last());
        (p2, outs.push((lo, ro)))
    }
}

/// Within one round started on an empty cell, the pull order is invisible:
/// either order steps each source exactly once, applies the mux function
/// exactly once, yields the same two outputs, and leaves the cell empty.
pub proof fn lemma_round_order_irrelevant(p: PairModel, left_first: bool)
    requires
        p.pending is Empty,
    ensures
        pair_round(p, left_first) == ({
            let (l1, lv) = gen_step(p.left);
            let (r1, rv) = gen_step(p.right);
            let (m1, lo, ro) = mux_apply(p.mux, lv, rv);
            (PairModel { left: l1, right: r1, mux: m1, pending: Pending::Empty }, lo, ro)
        }),
{
}

/// Exactly-once evaluation under round-robin pulling: over any sequence of
/// rounds on a pair whose cell starts empty, whichever side each round pulls
/// first, the run equals the reference behaviour — each source stepped
/// exactly once per round and the mux function applied exactly once per
/// round — and the cell is empty again after every round.
pub proof fn lemma_exactly_once_per_round(p: PairModel, orders: Seq<bool>)
    requires
        p.pending is Empty,
    ensures
        run_rounds(p, orders).0 == rounds_ref(p, orders.len()).0,
        run_rounds(p, orders).1 == rounds_ref(p, orders.len()).1,
    decreases orders.len(),
{
    if orders.len() > 0 {
        lemma_exactly_once_per_round(p, orders.drop_last());
        lemma_round_order_irrelevant(run_rounds(p, orders.drop_last()).0, orders.last());
    } else {
        assert(run_rounds(p, orders).1 =~= rounds_ref(p, orders.len()).1);
    }
}

/// After any number of reference rounds, each source has advanced by exactly
/// one step per round.
pub proof fn lemma_rounds_advance_sources(p: PairModel, n: nat)
    ensures
        rounds_ref(p, n).0.left == gen_run(p.left, n).0,
        rounds_ref(p, n).0.right == gen_run(p.right, n).0,
    decreases n,
{
    if n > 0 {
        lemma_rounds_advance_sources(p, (n - 1) as nat);
    }
}

/// A forked generator's two channels agree sample-for-sample: at every round
/// both outputs equal the source's sample for that round.
pub proof fn lemma_fork_outputs_identical(g: GenModel, n: nat)
    ensures
        ({
            let p = PairModel {
                left: g,
                right: GenModel::Constant(0),
                mux: MuxModel::Fork,
                pending: Pending::Empty,
            };
            let outs = rounds_ref(p, n).1;
            let source_outs = gen_run(g, n).1;
            &&& outs.len() == n
            &&& source_outs.len() == n
            &&& forall|i: int|
                0 <= i < n ==> #[trigger] outs[i].0 == source_outs[i] && outs[i].1
                    == source_outs[i]
        }),
    decreases n,
{
    let p = PairModel {
        left: g,
        right: GenModel::Constant(0),
        mux: MuxModel::Fork,
        pending: Pending::Empty,
    };
    if n > 0 {
        lemma_fork_outputs_identical(g, (n - 1) as nat);
        lemma_rounds_advance_sources(p, (n - 1) as nat);
        lemma_fork_keeps_mux(p, (n - 1) as nat);
    }
}

/// The fork mux never changes: after any number of rounds it is still the
/// fork, and the right source is still silence.
pub proof fn lemma_fork_keeps_mux(p: PairModel, n: nat)
    requires
        p.mux == MuxModel::Fork,
        p.right == GenModel::Constant(0),
    ensures
        rounds_ref(p, n).0.mux == MuxModel::Fork,
        rounds_ref(p, n).0.right == GenModel::Constant(0),
    decreases n,
{
    if n > 0 {
        lemma_fork_keeps_mux(p, (n - 1) as nat);
    }
}

} // verus!

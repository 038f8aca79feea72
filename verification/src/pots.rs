//! Pot constructors: wrapping generators as control sources.

use vstd::prelude::*;

use crate::Sample;
use crate::filters::{gain, offset};
use crate::graph::{FilterModel, GenModel, Generator, Pot, PotModel};
use crate::sample::{HALF_UNIT, UNIT, fxmul, mul_scaled, sat, sat_sub};

verus! {

/// Modulate the value read through the held generator: each read pulls one
/// sample from it.
pub fn generator_pot(generator: Generator) -> (p: Pot)
    ensures
        p@ == PotModel::Gen(Box::new(generator@)),
{
    Pot::Gen(Box::new(generator))
}

/// A pot oscillating between `low` and `high`, driven by a source that spans
/// `[-UNIT, UNIT]`: the source's output is shifted up by one, scaled by half
/// the range, and offset to `low`.
pub fn range_pot(source: Generator, low: Sample, high: Sample) -> (p: Pot)
    ensures
        p@ == PotModel::Gen(
            Box::new(
                (GenModel::Composed {
                    source: Box::new(
                        (GenModel::Composed {
                            source: Box::new(
                                (GenModel::Composed {
                                    source: Box::new(source@),
                                    filter: Box::new(
                                        (FilterModel::Offset { offset: PotModel::Constant(UNIT) }),
                                    ),
                                }),
                            ),
                            filter: Box::new(
                                (FilterModel::Gain {
                                    scale: PotModel::Constant(
                                        fxmul(sat(high - low), HALF_UNIT as int) as i64,
                                    ),
                                }),
                            ),
                        }),
                    ),
                    filter: Box::new((FilterModel::Offset { offset: PotModel::Constant(low) })),
                }),
            ),
        ),
{
    let half_range = mul_scaled(sat_sub(high, low), HALF_UNIT);
    let g = source.compose(offset(Pot::Constant(UNIT))).compose(
        gain(Pot::Constant(half_range)),
    ).compose(offset(Pot::Constant(low)));
    Pot::Gen(Box::new(g))
}

} // verus!

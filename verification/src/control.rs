//! Plain control values: coefficient controls, switch states and envelope
//! curves.
//!
//! Unlike a [`crate::graph::Pot`], none of these advances any other node when
//! read, so they may be read any number of times within one tick.

use vstd::prelude::*;

use crate::Sample;

verus! {

/// A scalar control for filter coefficients: a constant, or an externally
/// fed cache holding the last value received.
#[derive(Debug, Copy, Clone, Eq, PartialEq, Structural)]
pub enum Control {
    /// Always the same value.
    Constant(Sample),
    /// The most recent externally fed value; [`Control::feed`] replaces it.
    Cached(Sample),
}

/// The value a control currently reads as.
pub open spec fn control_value(c: Control) -> i64 {
    match c {
        Control::Constant(v) => v,
        Control::Cached(v) => v,
    }
}

impl Control {
    /// Read the control value; reading never changes the control.
    pub fn read(&self) -> (v: Sample)
        ensures
            v == control_value(*self),
    {
        match self {
            Control::Constant(v) => *v,
            Control::Cached(v) => *v,
        }
    }

    /// Replace the cached value of an externally fed control; a constant
    /// ignores the feed.
    pub fn feed(&mut self, v: Sample) -> (accepted: bool)
        ensures
            accepted <==> (*old(self)) is Cached,
            accepted ==> *final(self) == Control::Cached(v),
            !accepted ==> *final(self) == *old(self),
    {
        match self {
            Control::Cached(_) => {
                *self = Control::Cached(v);
                true
            },
            _ => false,
        }
    }
}

/// A switch-state control: a constant, or an externally fed cache.
#[derive(Debug, Copy, Clone, Eq, PartialEq, Structural)]
pub enum BoolPot {
    /// Always the same state.
    Constant(bool),
    /// The most recent externally fed state; [`BoolPot::feed`] replaces it.
    Cached(bool),
}

/// The state a switch control currently reads as.
pub open spec fn bool_pot_value(p: BoolPot) -> bool {
    match p {
        BoolPot::Constant(v) => v,
        BoolPot::Cached(v) => v,
    }
}

impl BoolPot {
    /// Read the switch state; reading never changes the control.
    pub fn read(&self) -> (v: bool)
        ensures
            v == bool_pot_value(*self),
    {
        match self {
            BoolPot::Constant(v) => *v,
            BoolPot::Cached(v) => *v,
        }
    }

    /// Replace the cached state of an externally fed control; a constant
    /// ignores the feed.
    pub fn feed(&mut self, v: bool) -> (accepted: bool)
        ensures
            accepted <==> (*old(self)) is Cached,
            accepted ==> *final(self) == BoolPot::Cached(v),
            !accepted ==> *final(self) == *old(self),
    {
        match self {
            BoolPot::Cached(_) => {
                *self = BoolPot::Cached(v);
                true
            },
            _ => false,
        }
    }
}

/// Ghost model of a [`Curve`].
pub enum CurveModel {
    Constant(i64),
    Table(Seq<i64>),
}

/// The curve's value at the given sample index: a table yields its entry, or
/// silence past its end.
pub open spec fn curve_at(c: CurveModel, idx: u64) -> i64 {
    match c {
        CurveModel::Constant(v) => v,
        CurveModel::Table(t) => if idx < t.len() {
            t[idx as int]
        } else {
            0
        },
    }
}

/// A gain profile over time, usually on `[0, UNIT]`, describing a signal's
/// strength a given number of ticks after an event: constant, or a table
/// indexed by tick (silent past its end).
pub enum Curve {
    /// The same strength at every index.
    Constant(Sample),
    /// Strength per tick index; zero past the end of the table.
    Table(Vec<Sample>),
}

impl View for Curve {
    type V = CurveModel;

    open spec fn view(&self) -> CurveModel {
        match *self {
            Curve::Constant(v) => CurveModel::Constant(v),
            Curve::Table(ref t) => CurveModel::Table(t@),
        }
    }
}

impl Curve {
    /// The curve's value at the given sample index.
    pub fn read(&self, sample_index: u64) -> (v: Sample)
        ensures
            v == curve_at(self@, sample_index),
    {
        match self {
            Curve::Constant(v) => *v,
            Curve::Table(t) => {
                if sample_index < t.len() as u64 {
                    t[sample_index as usize]
                } else {
                    0
                }
            },
        }
    }
}

} // verus!

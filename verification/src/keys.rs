//! A key: a switched sample track with attack and sustain envelopes.

use vstd::prelude::*;

use crate::Sample;
use crate::control::{BoolPot, Curve, CurveModel, bool_pot_value, curve_at};
use crate::sample::{count_up, fxmul, mul_scaled};
use crate::track::{TrackModel, VecTrack, track_next_s};

verus! {

/// Ghost model of a [`SimpleKey`].
pub struct KeyModel {
    pub track: TrackModel,
    pub active: BoolPot,
    pub attack: CurveModel,
    pub sustain: CurveModel,
    pub n_since_activated: u64,
    pub n_since_deactivated: u64,
}

/// One tick of a key.
///
/// The tick that first finds the switch closed rewinds the track and restarts
/// the attack envelope; the tick that first finds it open restarts the
/// sustain envelope. The track sample (silence once it has run out) is scaled
/// by the envelope value at the number of ticks since the switch change.
pub open spec fn key_step(k: KeyModel) -> (KeyModel, i64) {
    let is_active = bool_pot_value(k.active);
    let track1 = if is_active && k.n_since_activated == 0 {
        TrackModel { samples: k.track.samples, pos: 0 }
    } else {
        k.track
    };
    let nd0 = if is_active && k.n_since_activated == 0 {
        0u64
    } else {
        k.n_since_deactivated
    };
    let na0 = if !is_active && k.n_since_deactivated == 0 {
        0u64
    } else {
        k.n_since_activated
    };
    let (track2, out_opt) = track_next_s(track1);
    let s = match out_opt {
        Some(v) => v,
        None => 0i64,
    };
    if is_active {
        let out = fxmul(s as int, curve_at(k.attack, k.n_since_activated) as int) as i64;
        (
            KeyModel {
                track: track2,
                n_since_activated: count_up(k.n_since_activated),
                n_since_deactivated: nd0,
                ..k
            },
            out,
        )
    } else {
        let out = fxmul(s as int, curve_at(k.sustain, k.n_since_deactivated) as int) as i64;
        (
            KeyModel {
                track: track2,
                n_since_activated: na0,
                n_since_deactivated: count_up(k.n_since_deactivated),
                ..k
            },
            out,
        )
    }
}

/// A real-world key or button: a sample track gated by a switch, shaped by an
/// attack envelope while closed and a sustain envelope after release.
pub struct SimpleKey {
    pub track: VecTrack,
    pub active: BoolPot,
    pub attack: Curve,
    pub sustain: Curve,
    pub n_since_activated: u64,
    pub n_since_deactivated: u64,
}

impl View for SimpleKey {
    type V = KeyModel;

    open spec fn view(&self) -> KeyModel {
        KeyModel {
            track: self.track@,
            active: self.active,
            attack: self.attack@,
            sustain: self.sustain@,
            n_since_activated: self.n_since_activated,
            n_since_deactivated: self.n_since_deactivated,
        }
    }
}

impl SimpleKey {
    /// A key over the given track, switch and envelopes, initially at rest.
    pub fn new(track: VecTrack, active: BoolPot, attack: Curve, sustain: Curve) -> (k: Self)
        ensures
            k@ == (KeyModel {
                track: track@,
                active: active,
                attack: attack@,
                sustain: sustain@,
                n_since_activated: 0u64,
                n_since_deactivated: 0u64,
            }),
    {
        SimpleKey {
            track,
            active,
            attack,
            sustain,
            n_since_activated: 0,
            n_since_deactivated: 0,
        }
    }

    /// Set the switch state for the following ticks.
    pub fn set_active(&mut self, active: bool) -> (accepted: bool)
        ensures
            accepted <==> old(self)@.active is Cached,
            accepted ==> final(self)@ == (KeyModel { active: BoolPot::Cached(active), ..old(self)@ }),
            !accepted ==> final(self)@ == old(self)@,
    {
        self.active.feed(active)
    }

    /// Produce the key's next sample.
    pub fn read(&mut self) -> (s: Sample)
        ensures
            final(self)@ == key_step(old(self)@).0,
            s == key_step(old(self)@).1,
    {
        let is_active = self.active.read();
        let n_act = self.n_since_activated;
        let n_deact = self.n_since_deactivated;
        if is_active && n_act == 0 {
            self.track.reset();
            self.n_since_deactivated = 0;
        } else if !is_active && n_deact == 0 {
            self.n_since_activated = 0;
        }
        let next_sample = match self.track.next() {
            Some(v) => v,
            None => 0,
        };
        if is_active {
            if n_act < u64::MAX {
                self.n_since_activated = n_act + 1;
            } else {
                self.n_since_activated = n_act;
            }
            mul_scaled(next_sample, self.attack.read(n_act))
        } else {
            if n_deact < u64::MAX {
                self.n_since_deactivated = n_deact + 1;
            } else {
                self.n_since_deactivated = n_deact;
            }
            mul_scaled(next_sample, self.sustain.read(n_deact))
        }
    }
}

} // verus!

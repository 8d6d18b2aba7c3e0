//! The decisions of the doorbell's polling loop.
//!
//! Each poll the caller samples the bell button, the test button and the
//! mute switch, draws a random number, and hands them to `poll`.  The
//! returned step says which message to dispatch, if any, whether to ring
//! the chime, and how long to pause before the next poll.  A press is a
//! falling edge of either button.  The mute switch is active low: the chime
//! sounds only while its line reads high.
use vstd::prelude::*;
use crate::pin_state::{PinState, falls};

verus! {

/// Pause between polls while nothing happens, in milliseconds.
pub const IDLE_POLL_MS: u32 = 50;

/// Pause after a press, in milliseconds, during which edges go unseen.
pub const COOLDOWN_MS: u32 = 1000;

/// What the caller does after one poll, in this order: dispatch the
/// message with this index in the pool, ring the chime (enable line high,
/// play the burst, enable line low), then pause.
#[derive(Clone, Copy, Debug, PartialEq, Eq, Structural)]
pub struct Step {
    pub message: Option<usize>,
    pub ring: bool,
    pub pause_ms: u32,
}

/// Whether a poll sees a press: a falling edge of either button.
pub open spec fn pressed(bell_before: bool, test_before: bool, bell: bool, test_bell: bool) -> bool {
    falls(bell_before, bell) || falls(test_before, test_bell)
}

pub open spec fn step_for(
    halted: bool,
    press: bool,
    mute: bool,
    random: u32,
    pool_len: usize,
) -> Step {
    if !halted && press {
        Step { message: Some((random as int % pool_len as int) as usize), ring: mute, pause_ms: COOLDOWN_MS }
    } else {
        Step { message: None, ring: false, pause_ms: IDLE_POLL_MS }
    }
}

/// The edge memories of the three inputs, and whether a fault has stopped
/// the loop.
pub struct Controller {
    bell: PinState,
    test_bell: PinState,
    mute: PinState,
    halted: bool,
}

impl Controller {
    pub closed spec fn bell_level(&self) -> bool {
        self.bell@
    }

    pub closed spec fn test_level(&self) -> bool {
        self.test_bell@
    }

    pub closed spec fn mute_level(&self) -> bool {
        self.mute@
    }

    pub closed spec fn halted(&self) -> bool {
        self.halted
    }

    /// A running controller that has seen every line low.
    pub fn new() -> (r: Controller)
        ensures
            !r.bell_level(),
            !r.test_level(),
            !r.mute_level(),
            !r.halted(),
    {
        Controller {
            bell: PinState::new(),
            test_bell: PinState::new(),
            mute: PinState::new(),
            halted: false,
        }
    }

    /// One poll on the sampled levels; `random` picks the message among
    /// `pool_len` candidates.
    pub fn poll(&mut self, bell: bool, test_bell: bool, mute: bool, random: u32, pool_len: usize) -> (r:
        Step)
        requires
            pool_len > 0,
        ensures
            r == step_for(
                old(self).halted(),
                pressed(old(self).bell_level(), old(self).test_level(), bell, test_bell),
                mute,
                random,
                pool_len,
            ),
            final(self).halted() == old(self).halted(),
            old(self).halted() ==> final(self).bell_level() == old(self).bell_level()
                && final(self).test_level() == old(self).test_level() && final(self).mute_level()
                == old(self).mute_level(),
            !old(self).halted() ==> {
                &&& final(self).bell_level() == bell
                &&& final(self).test_level() == if falls(old(self).bell_level(), bell) {
                    old(self).test_level()
                } else {
                    test_bell
                }
                &&& final(self).mute_level() == if pressed(
                    old(self).bell_level(),
                    old(self).test_level(),
                    bell,
                    test_bell,
                ) {
                    mute
                } else {
                    old(self).mute_level()
                }
            },
    {
        if self.halted {
            return Step { message: None, ring: false, pause_ms: IDLE_POLL_MS };
        }
        let press = self.bell.falling_edge(bell) || self.test_bell.falling_edge(test_bell);
        if press {
            let index = (random as usize) % pool_len;
            let ring = self.mute.is_high(mute);
            Step { message: Some(index), ring, pause_ms: COOLDOWN_MS }
        } else {
            Step { message: None, ring: false, pause_ms: IDLE_POLL_MS }
        }
    }
}

/// Stops `controller` after a fault: from then on no poll dispatches or
/// rings, and the recorded levels stay as they were.
pub fn panic(controller: &mut Controller)
    ensures
        final(controller).halted(),
        final(controller).bell_level() == old(controller).bell_level(),
        final(controller).test_level() == old(controller).test_level(),
        final(controller).mute_level() == old(controller).mute_level(),
{
    controller.halted = true;
}

/// A falling edge on the bell button of a running controller brings
/// exactly one dispatch, of a message within the pool, and rings the chime
/// once unless the mute switch is asserted (low), in which case it rings
/// not at all.
pub proof fn press_dispatches_once(
    bell_before: bool,
    test_before: bool,
    bell: bool,
    test_bell: bool,
    mute: bool,
    random: u32,
    pool_len: usize,
)
    requires
        pool_len > 0,
        falls(bell_before, bell),
    ensures
        ({
            let s = step_for(false, pressed(bell_before, test_before, bell, test_bell), mute, random, pool_len);
            &&& s.message is Some
            &&& s.message.unwrap() < pool_len
            &&& s.ring == mute
        }),
{
}

} // verus!

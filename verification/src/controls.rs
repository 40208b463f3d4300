//! Decisions of the frame loop: what the joystick and the buttons ask for,
//! and which noise bit a pair of joystick samples yields.

use vstd::prelude::*;
use crate::randy::{EntropyState, Randy};

verus! {

/// A horizontal sample below this value steers left.
pub const LEFT_BELOW: u32 = 50;

/// A horizontal sample above this value steers right.
pub const RIGHT_ABOVE: u32 = 4000;

/// A vertical sample below this value drops the piece.
pub const DOWN_BELOW: u32 = 10;

/// Pin of the button that rotates counter-clockwise; pressed reads low.
pub const CCW_BUTTON: u32 = 0x80;

/// Pin of the button that rotates clockwise; pressed reads low.
pub const CW_BUTTON: u32 = 0x40;

/// Pin of the joystick's push button, which restarts the game; pressed
/// reads low.
pub const RESET_BUTTON: u32 = 0x10;

/// What the player asks for in one frame.
#[derive(Clone, Copy, Debug, PartialEq, Eq, Structural)]
pub struct Controls {
    pub left: bool,
    pub right: bool,
    pub down: bool,
    pub cw_rotate: bool,
    pub ccw_rotate: bool,
}

/// What the player asks for after new readings. A joystick axis without a
/// fresh sample keeps what it asked for before; the buttons are read anew
/// every frame.
pub open spec fn controls_after(
    before: Controls,
    horizontal: Option<u32>,
    vertical: Option<u32>,
    buttons: u32,
) -> Controls {
    Controls {
        left: match horizontal {
            Some(reading) => reading < LEFT_BELOW,
            None => before.left,
        },
        right: match horizontal {
            Some(reading) => reading > RIGHT_ABOVE,
            None => before.right,
        },
        down: match vertical {
            Some(reading) => reading < DOWN_BELOW,
            None => before.down,
        },
        cw_rotate: buttons & CW_BUTTON == 0,
        ccw_rotate: buttons & CCW_BUTTON == 0,
    }
}

/// The noise bit of a pair of samples: `1` when exactly one of them is odd.
pub open spec fn noise_of(horizontal: u32, vertical: u32) -> nat {
    ((horizontal % 2 + vertical % 2) % 2) as nat
}

impl Controls {
    /// Nothing is asked for.
    pub fn new() -> (controls: Controls)
        ensures
            controls == (Controls {
                left: false,
                right: false,
                down: false,
                cw_rotate: false,
                ccw_rotate: false,
            }),
    {
        Controls { left: false, right: false, down: false, cw_rotate: false, ccw_rotate: false }
    }

    /// Takes in the readings of one frame: the joystick samples that are
    /// ready and the port that the two rotation buttons sit on.
    pub fn update(&mut self, horizontal: Option<u32>, vertical: Option<u32>, buttons: u32)
        ensures
            *final(self) == controls_after(*old(self), horizontal, vertical, buttons),
            horizontal is Some ==> !(final(self).left && final(self).right),
    {
        match horizontal {
            Some(reading) => {
                self.left = false;
                self.right = false;
                if reading < LEFT_BELOW {
                    self.left = true;
                } else if reading > RIGHT_ABOVE {
                    self.right = true;
                }
            },
            None => {},
        }
        match vertical {
            Some(reading) => {
                self.down = reading < DOWN_BELOW;
            },
            None => {},
        }
        self.ccw_rotate = buttons & CCW_BUTTON == 0;
        self.cw_rotate = buttons & CW_BUTTON == 0;
    }
}

/// Tells whether the player asks for a new game.
pub fn reset_selected(port: u32) -> (selected: bool)
    ensures
        selected == (port & RESET_BUTTON == 0),
{
    port & RESET_BUTTON == 0
}

/// The noise bit of a pair of samples: the lowest bits of the two, one
/// held against the other.
pub fn noise_bit(horizontal: u32, vertical: u32) -> (bit: usize)
    ensures
        bit == noise_of(horizontal, vertical),
        bit <= 1,
{
    let bit: u32 = (horizontal ^ vertical) & 1;
    assert(bit == (horizontal % 2 + vertical % 2) % 2) by (bit_vector)
        requires
            bit == (horizontal ^ vertical) & 1,
    ;
    bit as usize
}

/// Feeds the extractor from the joystick: a frame in which both axes have
/// a fresh sample yields one noise bit, any other frame yields none.
pub fn harvest(rng: &mut Randy, horizontal: Option<u32>, vertical: Option<u32>)
    requires
        old(rng).wf(),
    ensures
        final(rng).wf(),
        final(rng)@ == harvested(old(rng)@, horizontal, vertical),
{
    match (horizontal, vertical) {
        (Some(x), Some(y)) => {
            rng.add_bit(noise_bit(x, y));
        },
        _ => {},
    }
}

/// The extractor's state after a frame's joystick samples were offered.
pub open spec fn harvested(
    state: EntropyState,
    horizontal: Option<u32>,
    vertical: Option<u32>,
) -> EntropyState {
    match (horizontal, vertical) {
        (Some(x), Some(y)) => state.add_bit(noise_of(x, y)),
        _ => state,
    }
}

} // verus!

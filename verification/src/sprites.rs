//! A particle that bounces between the two ends of a strip.
//!
//! Position, falloff and speeds are binary32 bit patterns. A sprite orders
//! and clamps them; sums and products of the numbers are the caller's, who
//! hands their patterns in.

use vstd::prelude::*;
use crate::bits::{
    at_least, clamp_to_unit, clamp_unit, floor_at, is_negative, is_unit, magnitude, POS_INFINITY,
    SIGN_BIT, UNIT_ONE,
};

verus! {

/// The pattern of 0.0001, the least magnitude of a speed.
pub const MIN_SPEED: u32 = 0x38D1_B717;

/// The pattern of 0.001, the least top speed.
pub const MIN_TOP_SPEED: u32 = 0x3A83_126F;

/// The magnitude `m` brought into the range from `MIN_SPEED` to `top`;
/// `MIN_SPEED` where `m` is not a number.
pub open spec fn speed_magnitude(m: u32, top: u32) -> u32 {
    if m < MIN_SPEED || m > POS_INFINITY {
        MIN_SPEED
    } else if m > top {
        top
    } else {
        m
    }
}

/// The speed that a sprite starts with: the least speed, forwards, for a
/// zero of either sign; else the sign of `speed` with its magnitude brought
/// into range.
pub open spec fn start_speed(speed: u32, top: u32) -> u32 {
    if magnitude(speed) == 0 {
        MIN_SPEED
    } else if is_negative(speed) {
        (SIGN_BIT + speed_magnitude(magnitude(speed), top)) as u32
    } else {
        speed_magnitude(speed, top)
    }
}

/// What a sprite holds.
pub struct SpriteBits {
    pub pos: u32,
    pub falloff: u32,
    pub speed: u32,
    pub max_speed: u32,
}

/// Position in the unit interval, falloff at least 1, top speed at least
/// 0.001, and a speed whose magnitude is at least 0.0001 and at most the
/// top speed. Falloff and top speed may be infinite; nothing is not a number.
pub open spec fn sprite_in_range(s: SpriteBits) -> bool {
    &&& is_unit(s.pos)
    &&& UNIT_ONE <= s.falloff <= POS_INFINITY
    &&& MIN_TOP_SPEED <= s.max_speed <= POS_INFINITY
    &&& MIN_SPEED <= magnitude(s.speed) <= s.max_speed
}

/// Whether a sprite that would come to `advanced` has reached the end that
/// it moves towards: 1 when it moves forwards, 0 when it moves backwards.
pub open spec fn bounces(s: SpriteBits, advanced: u32) -> bool {
    if is_negative(s.speed) {
        clamp_unit(advanced) == 0
    } else {
        clamp_unit(advanced) == UNIT_ONE
    }
}

/// The sprite one step later. `advanced` stands for position plus speed and
/// is clamped to the unit interval. At the end that the sprite moves towards
/// it turns round, with `rebound` brought into the range of speeds as its
/// new magnitude.
pub open spec fn stepped(s: SpriteBits, advanced: u32, rebound: u32) -> SpriteBits {
    let turned = speed_magnitude(at_least(rebound, MIN_SPEED), s.max_speed);
    SpriteBits {
        pos: clamp_unit(advanced),
        speed: if !bounces(s, advanced) {
            s.speed
        } else if is_negative(s.speed) {
            turned
        } else {
            (SIGN_BIT + turned) as u32
        },
        ..s
    }
}

fn clamp_speed(m: u32, top: u32) -> (r: u32)
    ensures
        r == speed_magnitude(m, top),
{
    if m < MIN_SPEED || m > POS_INFINITY {
        MIN_SPEED
    } else if m > top {
        top
    } else {
        m
    }
}

/// A bouncing particle.
#[derive(Debug, Copy, Clone)]
pub struct Sprite {
    pos: u32,
    falloff: u32,
    speed: u32,
    max_speed: u32,
}

impl View for Sprite {
    type V = SpriteBits;

    closed spec fn view(&self) -> SpriteBits {
        SpriteBits {
            pos: self.pos,
            falloff: self.falloff,
            speed: self.speed,
            max_speed: self.max_speed,
        }
    }
}

impl Sprite {
    /// Every field is in its range.
    #[verifier::type_invariant]
    pub open spec fn well_formed(self) -> bool {
        sprite_in_range(self@)
    }

    /// A sprite from any four patterns, each brought into its range.
    pub fn new(pos: u32, falloff: u32, speed: u32, max_speed: u32) -> (s: Self)
        ensures
            s@ == (SpriteBits {
                pos: clamp_unit(pos),
                falloff: at_least(falloff, UNIT_ONE),
                speed: start_speed(speed, at_least(max_speed, MIN_TOP_SPEED)),
                max_speed: at_least(max_speed, MIN_TOP_SPEED),
            }),
            s.well_formed(),
    {
        let top: u32 = floor_at(max_speed, MIN_TOP_SPEED);
        let start: u32 = if speed == 0 || speed == SIGN_BIT {
            MIN_SPEED
        } else if speed >= SIGN_BIT {
            SIGN_BIT + clamp_speed(speed - SIGN_BIT, top)
        } else {
            clamp_speed(speed, top)
        };
        Sprite {
            pos: clamp_to_unit(pos),
            falloff: floor_at(falloff, UNIT_ONE),
            speed: start,
            max_speed: top,
        }
    }

    /// Whether the step to `advanced` ends at the bound that the sprite
    /// moves towards, so that `run` will turn it round.
    pub fn hits_bound(&self, advanced: u32) -> (b: bool)
        ensures
            b == bounces(self@, advanced),
    {
        let pos: u32 = clamp_to_unit(advanced);
        if self.speed >= SIGN_BIT {
            pos == 0
        } else {
            pos == UNIT_ONE
        }
    }

    /// One step. `advanced` is the pattern of position plus speed. `rebound`
    /// is that of a random number in the unit interval times the top speed;
    /// it is read only where the sprite turns round.
    pub fn run(&mut self, advanced: u32, rebound: u32)
        ensures
            final(self)@ == stepped(old(self)@, advanced, rebound),
            final(self).well_formed(),
    {
        proof {
            use_type_invariant(&*self);
        }
        let turn: bool = self.hits_bound(advanced);
        let speed: u32 = if !turn {
            self.speed
        } else if self.speed >= SIGN_BIT {
            clamp_speed(floor_at(rebound, MIN_SPEED), self.max_speed)
        } else {
            SIGN_BIT + clamp_speed(floor_at(rebound, MIN_SPEED), self.max_speed)
        };
        *self = Sprite {
            pos: clamp_to_unit(advanced),
            falloff: self.falloff,
            speed,
            max_speed: self.max_speed,
        };
    }

    /// The position.
    pub fn get_pos(&self) -> (pos: u32)
        ensures
            pos == self@.pos,
            is_unit(pos),
    {
        proof {
            use_type_invariant(self);
        }
        self.pos
    }

    /// How fast the light of the sprite falls off with distance.
    pub fn get_falloff(&self) -> (falloff: u32)
        ensures
            falloff == self@.falloff,
            UNIT_ONE <= falloff <= POS_INFINITY,
    {
        proof {
            use_type_invariant(self);
        }
        self.falloff
    }

    /// The speed: the step of one tick, negative when the sprite moves
    /// backwards.
    pub fn get_speed(&self) -> (speed: u32)
        ensures
            speed == self@.speed,
            MIN_SPEED <= magnitude(speed) <= self@.max_speed,
    {
        proof {
            use_type_invariant(self);
        }
        self.speed
    }

    /// The top speed.
    pub fn get_max_speed(&self) -> (top: u32)
        ensures
            top == self@.max_speed,
            MIN_TOP_SPEED <= top <= POS_INFINITY,
    {
        proof {
            use_type_invariant(self);
        }
        self.max_speed
    }
}

/// A step keeps a sprite in range, whatever is handed in: its position
/// stays in the unit interval, and the magnitude of its speed stays between
/// 0.0001 and its top speed, which does not change.
pub proof fn lemma_step_in_range(s: SpriteBits, advanced: u32, rebound: u32)
    requires
        sprite_in_range(s),
    ensures
        sprite_in_range(stepped(s, advanced, rebound)),
        stepped(s, advanced, rebound).max_speed == s.max_speed,
        stepped(s, advanced, rebound).falloff == s.falloff,
{
}

/// The sprite after a run of steps, each a pair of what was handed in as
/// `advanced` and as `rebound`.
pub open spec fn stepped_all(s: SpriteBits, steps: Seq<(u32, u32)>) -> SpriteBits
    decreases steps.len(),
{
    if steps.len() == 0 {
        s
    } else {
        stepped(stepped_all(s, steps.drop_last()), steps.last().0, steps.last().1)
    }
}

/// However many steps a sprite takes, and whatever is handed in at each, it
/// stays in range and keeps its falloff and its top speed.
pub proof fn lemma_steps_in_range(s: SpriteBits, steps: Seq<(u32, u32)>)
    requires
        sprite_in_range(s),
    ensures
        sprite_in_range(stepped_all(s, steps)),
        stepped_all(s, steps).max_speed == s.max_speed,
        stepped_all(s, steps).falloff == s.falloff,
    decreases steps.len(),
{
    if steps.len() > 0 {
        lemma_steps_in_range(s, steps.drop_last());
        lemma_step_in_range(stepped_all(s, steps.drop_last()), steps.last().0, steps.last().1);
    }
}

/// A sprite turns round only at the bound it moves towards: forwards at 1,
/// from where it goes backwards, and backwards at 0, from where it goes
/// forwards. Anywhere else it keeps its speed.
pub proof fn lemma_step_direction(s: SpriteBits, advanced: u32, rebound: u32)
    requires
        sprite_in_range(s),
    ensures
        ({
            let next = stepped(s, advanced, rebound);
            &&& is_negative(next.speed) != is_negative(s.speed) <==> bounces(s, advanced)
            &&& bounces(s, advanced) && !is_negative(s.speed) ==> next.pos == UNIT_ONE
            &&& bounces(s, advanced) && is_negative(s.speed) ==> next.pos == 0
            &&& !bounces(s, advanced) ==> next.speed == s.speed
        }),
{
}

} // verus!

//! Sprite animations: how many frames a strip has, how long each one is shown,
//! which frame an entity shows now, and the registry that names the strips.

use vstd::prelude::*;
use crate::units::SECOND;

verus! {

/// An animation as drawn: the number of frames in the strip and the time each
/// frame stays on screen, in microseconds.
#[derive(Clone, Copy, Debug, PartialEq, Eq, Structural)]
pub struct SpriteAnimation {
    pub len: usize,
    pub frame_time: u64,
}

impl SpriteAnimation {
    /// An animation has at least one frame, and each frame takes some time.
    pub open spec fn wf(self) -> bool {
        self.len > 0 && self.frame_time > 0
    }

    /// Whole frames that go by in `time` microseconds.
    pub open spec fn frames(self, time: int) -> int {
        time / (self.frame_time as int)
    }

    /// What is left of `time` microseconds once the whole frames are taken out.
    pub open spec fn carried(self, time: int) -> int {
        time % (self.frame_time as int)
    }

    /// The frame on screen once `frames` frames have gone by, counted from the
    /// frame `index`. The strip is played round and round.
    pub open spec fn frame_after(self, index: usize, frames: int) -> int {
        if frames == 0 {
            index as int
        } else {
            (index + frames) % (self.len as int)
        }
    }

    /// An animation of `len` frames played at `fps` frames per second. A frame
    /// lasts the whole number of microseconds in one `fps`-th of a second.
    pub fn new(len: usize, fps: usize) -> (animation: SpriteAnimation)
        requires
            len > 0,
            0 < fps <= SECOND,
        ensures
            animation.len == len,
            animation.frame_time == SECOND / (fps as u64),
            animation.wf(),
    {
        proof {
            vstd::arithmetic::div_mod::lemma_div_is_ordered(fps as int, SECOND as int, fps as int);
            vstd::arithmetic::div_mod::lemma_div_by_self(fps as int);
        }
        SpriteAnimation { len, frame_time: SECOND / (fps as u64) }
    }
}

/// Time since the frame on screen came up, in microseconds.
#[derive(Clone, Copy, Debug, PartialEq, Eq, Structural)]
pub struct FrameTime(pub u64);

/// What an animated entity carries: its animation and the time its current
/// frame has been shown.
#[derive(Clone, Copy, Debug, PartialEq, Eq, Structural)]
pub struct AnimationBundle {
    pub animation: SpriteAnimation,
    pub frame_time: FrameTime,
}

impl AnimationBundle {
    /// The bundle of an entity whose first frame has just come up.
    pub fn new(animation: SpriteAnimation) -> (bundle: AnimationBundle)
        ensures
            bundle.animation == animation,
            bundle.frame_time == FrameTime(0),
    {
        AnimationBundle { animation, frame_time: FrameTime(0) }
    }
}

/// Lets `delta` microseconds go by for one animated entity. The time is added
/// to what the current frame has been shown; every whole frame in the sum moves
/// `index` one frame on, round the strip, and the rest is kept for later.
pub fn animate_sprite(index: &mut usize, animation: &SpriteAnimation, frame_time: &mut FrameTime, delta: u64)
    requires
        animation.wf(),
    ensures
        *final(index) == animation.frame_after(*old(index), animation.frames(old(frame_time).0 + delta)),
        final(frame_time).0 == animation.carried(old(frame_time).0 + delta),
        final(frame_time).0 < animation.frame_time,
        *old(index) < animation.len ==> *final(index) < animation.len,
        *old(index) < animation.len ==> *final(index) == (*old(index) + animation.frames(
            old(frame_time).0 + delta,
        )) % (animation.len as int),
        animation.frames(old(frame_time).0 + delta) * animation.frame_time + final(frame_time).0 == old(
            frame_time,
        ).0 + delta,
{
    let total: u128 = frame_time.0 as u128 + delta as u128;
    let frame: u128 = animation.frame_time as u128;
    let len: u128 = animation.len as u128;
    proof {
        vstd::arithmetic::div_mod::lemma_fundamental_div_mod(total as int, frame as int);
        vstd::arithmetic::div_mod::lemma_mod_bound(total as int, frame as int);
        vstd::arithmetic::mul::lemma_mul_is_commutative(total as int / frame as int, frame as int);
    }
    if total >= frame {
        let frames: u128 = total / frame;
        proof {
            vstd::arithmetic::div_mod::lemma_mod_bound(*index as int + frames as int, len as int);
            assert(frames >= 1) by (nonlinear_arith)
                requires
                    total >= frame,
                    frame > 0,
                    frames == total / frame,
            ;
        }
        *index = ((*index as u128 + frames) % len) as usize;
        frame_time.0 = (total % frame) as u64;
    } else {
        proof {
            vstd::arithmetic::div_mod::lemma_basic_div(total as int, frame as int);
            vstd::arithmetic::div_mod::lemma_small_mod(total as nat, frame as nat);
            if *index < len {
                vstd::arithmetic::div_mod::lemma_small_mod(*index as nat, len as nat);
            }
        }
        frame_time.0 = total as u64;
    }
}

/// How the time is cut into ticks makes no difference to an animation: two
/// ticks of `first` and `second` microseconds leave the frame and the time
/// carried over where one tick of `first + second` microseconds leaves them.
pub proof fn lemma_animation_adds_up(animation: SpriteAnimation, index: usize, shown: u64, first: u64, second: u64)
    requires
        animation.wf(),
        index < animation.len,
    ensures
        animation.carried(animation.carried(shown + first) + second) == animation.carried(
            shown + first + second,
        ),
        animation.frame_after(
            animation.frame_after(index, animation.frames(shown + first)) as usize,
            animation.frames(animation.carried(shown + first) + second),
        ) == animation.frame_after(index, animation.frames(shown + first + second)),
{
    let frame = animation.frame_time as int;
    let len = animation.len as int;
    let early = animation.frames(shown + first);
    let rest = animation.carried(shown + first) + second;
    let late = animation.frames(rest);
    vstd::arithmetic::div_mod::lemma_fundamental_div_mod(shown + first, frame);
    vstd::arithmetic::div_mod::lemma_mod_bound(shown + first, frame);
    vstd::arithmetic::div_mod::lemma_div_pos_is_pos(shown + first, frame);
    vstd::arithmetic::div_mod::lemma_div_pos_is_pos(rest, frame);
    vstd::arithmetic::div_mod::lemma_mod_multiples_vanish(early, rest, frame);
    vstd::arithmetic::div_mod::lemma_hoist_over_denominator(rest, early, frame as nat);
    vstd::arithmetic::mul::lemma_mul_is_commutative(early, frame);
    assert(shown + first + second == frame * early + rest);
    assert(animation.frames(shown + first + second) == early + late);
    if early != 0 && late != 0 {
        vstd::arithmetic::div_mod::lemma_mod_bound(index + early, len);
        vstd::arithmetic::div_mod::lemma_add_mod_noop_right(late, index + early, len);
    } else if early != 0 {
        vstd::arithmetic::div_mod::lemma_mod_bound(index + early, len);
    }
}

} // verus!

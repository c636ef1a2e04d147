//! The animations of the player character and where each one lies on the
//! sprite sheet.

use crate::animation::sprite::AnimationLookup;
use crate::animation::{
    frames_from_indices, Animation, AnimationView, FrameRate, Mode, NANOS_PER_SECOND,
};
use vstd::prelude::*;

verus! {

/// Nanoseconds that a frame lasts at 12 frames per second.
pub const FRAME_AT_12_FPS: u64 = 83_333_333;

/// Nanoseconds that a frame lasts at 26 frames per second.
pub const FRAME_AT_26_FPS: u64 = 38_461_538;

/// Every animation of the player character.
#[derive(Debug, Clone, Copy, Eq, Hash)]
pub enum PlayerAnimation {
    /// Standing still.
    Idle,
    /// Running.
    Run,
    /// Coming to a halt.
    RunStop,
    /// A dash.
    Dash,
    /// An attack out of a dash.
    DashAttack,
    /// The first attack of the chain.
    Attack1,
    /// The second attack of the chain.
    Attack2,
    /// The third attack of the chain.
    Attack3,
}

impl PartialEq for PlayerAnimation {
    fn eq(&self, other: &Self) -> (same: bool) {
        match (*self, *other) {
            (PlayerAnimation::Idle, PlayerAnimation::Idle) => true,
            (PlayerAnimation::Run, PlayerAnimation::Run) => true,
            (PlayerAnimation::RunStop, PlayerAnimation::RunStop) => true,
            (PlayerAnimation::Dash, PlayerAnimation::Dash) => true,
            (PlayerAnimation::DashAttack, PlayerAnimation::DashAttack) => true,
            (PlayerAnimation::Attack1, PlayerAnimation::Attack1) => true,
            (PlayerAnimation::Attack2, PlayerAnimation::Attack2) => true,
            (PlayerAnimation::Attack3, PlayerAnimation::Attack3) => true,
            _ => false,
        }
    }
}

impl vstd::std_specs::cmp::PartialEqSpecImpl for PlayerAnimation {
    open spec fn obeys_eq_spec() -> bool {
        true
    }

    open spec fn eq_spec(&self, other: &Self) -> bool {
        *self == *other
    }
}

impl Default for PlayerAnimation {
    fn default() -> (animation: Self)
        ensures
            animation == PlayerAnimation::Idle,
    {
        PlayerAnimation::Idle
    }
}

/// The sprite indices from `first` to `last`, both included.
pub open spec fn sprite_run(first: usize, last: usize) -> Seq<usize> {
    Seq::new((last - first + 1) as nat, |i: int| (first + i) as usize)
}

fn sprite_indices(first: usize, last: usize) -> (indices: Vec<usize>)
    requires
        first <= last,
    ensures
        indices@ == sprite_run(first, last),
{
    let mut indices: Vec<usize> = Vec::new();
    let mut next: usize = first;
    while next < last
        invariant
            first <= next <= last,
            indices@.len() == next - first,
            forall|i: int| 0 <= i < indices@.len() ==> indices@[i] == first + i,
        decreases last - next,
    {
        indices.push(next);
        next += 1;
    }
    indices.push(last);
    indices
}

impl PlayerAnimation {
    /// The first sprite of this animation on the sheet.
    pub open spec fn first_sprite(self) -> usize {
        match self {
            PlayerAnimation::Idle => 0,
            PlayerAnimation::Run => 20,
            PlayerAnimation::RunStop => 30,
            PlayerAnimation::Dash => 80,
            PlayerAnimation::DashAttack => 80,
            PlayerAnimation::Attack1 => 90,
            PlayerAnimation::Attack2 => 100,
            PlayerAnimation::Attack3 => 110,
        }
    }

    /// The last sprite of this animation on the sheet.
    pub open spec fn last_sprite(self) -> usize {
        match self {
            PlayerAnimation::Idle => 5,
            PlayerAnimation::Run => 25,
            PlayerAnimation::RunStop => 33,
            PlayerAnimation::Dash => 89,
            PlayerAnimation::DashAttack => 89,
            PlayerAnimation::Attack1 => 95,
            PlayerAnimation::Attack2 => 108,
            PlayerAnimation::Attack3 => 116,
        }
    }

    /// The frames per second at which this animation plays: the dash is
    /// faster than the others.
    pub open spec fn frames_per_second(self) -> u32 {
        match self {
            PlayerAnimation::Dash => 26,
            _ => 12,
        }
    }

    /// How long each frame of this animation lasts, in nanoseconds.
    pub open spec fn frame_duration(self) -> u64 {
        match self {
            PlayerAnimation::Dash => FRAME_AT_26_FPS,
            _ => FRAME_AT_12_FPS,
        }
    }

    /// The frames of every animation last the whole nanoseconds of their
    /// fraction of a second.
    pub proof fn lemma_frame_duration(self)
        ensures
            self.frame_duration() == NANOS_PER_SECOND / (self.frames_per_second() as u64),
    {
        assert(NANOS_PER_SECOND / 12 == FRAME_AT_12_FPS);
        assert(NANOS_PER_SECOND / 26 == FRAME_AT_26_FPS);
    }

    /// Whether this animation plays once and locks out other requests
    /// until it has ended: the dashes and the attacks do.
    pub open spec fn is_action(self) -> bool {
        match self {
            PlayerAnimation::Idle | PlayerAnimation::Run | PlayerAnimation::RunStop => false,
            _ => true,
        }
    }

    fn build(first: usize, last: usize, fps: u32, once: bool) -> (animation: Animation)
        requires
            first <= last,
            fps == 12 || fps == 26,
        ensures
            animation@ == (AnimationView {
                frames: frames_from_indices(
                    sprite_run(first, last),
                    if fps == 12 {
                        FRAME_AT_12_FPS as nat
                    } else {
                        FRAME_AT_26_FPS as nat
                    },
                ),
                mode: if once {
                    Mode::Once
                } else {
                    Mode::RepeatFrom(0)
                },
            }),
    {
        assert(NANOS_PER_SECOND / 12 == FRAME_AT_12_FPS);
        assert(NANOS_PER_SECOND / 26 == FRAME_AT_26_FPS);
        let frame_rate = FrameRate::from_fps(fps).unwrap();
        let animation = Animation::from_indices(sprite_indices(first, last), frame_rate).unwrap();
        if once {
            animation.once()
        } else {
            animation
        }
    }
}

impl AnimationLookup<PlayerAnimation> for PlayerAnimation {
    open spec fn animation_of(key: PlayerAnimation) -> AnimationView {
        AnimationView {
            frames: frames_from_indices(
                sprite_run(key.first_sprite(), key.last_sprite()),
                key.frame_duration() as nat,
            ),
            mode: if key.is_action() {
                Mode::Once
            } else {
                Mode::RepeatFrom(0)
            },
        }
    }

    proof fn keys_compare_by_value() {
    }

    fn get_animation(anim_enum: &PlayerAnimation) -> (animation: Animation) {
        match anim_enum {
            PlayerAnimation::Idle => PlayerAnimation::build(0, 5, 12, false),
            PlayerAnimation::Run => PlayerAnimation::build(20, 25, 12, false),
            PlayerAnimation::RunStop => PlayerAnimation::build(30, 33, 12, false),
            PlayerAnimation::DashAttack => PlayerAnimation::build(80, 89, 12, true),
            PlayerAnimation::Dash => PlayerAnimation::build(80, 89, 26, true),
            PlayerAnimation::Attack1 => PlayerAnimation::build(90, 95, 12, true),
            PlayerAnimation::Attack2 => PlayerAnimation::build(100, 108, 12, true),
            PlayerAnimation::Attack3 => PlayerAnimation::build(110, 116, 12, true),
        }
    }
}

} // verus!

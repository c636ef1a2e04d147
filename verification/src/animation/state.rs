//! The playback cursor of one animation instance and the rule by which
//! elapsed time moves it through the frames.

use super::laws::lemma_advance_settles;
use super::{Animation, AnimationView, Frame, Mode};
use vstd::prelude::*;

verus! {

/// The mathematical content of a [`State`].
pub struct Playback {
    /// Position in the frame list. The frame shown is the one at this
    /// position taken modulo the number of frames.
    pub cursor: nat,
    /// Sprite index of the frame that was current when time last advanced.
    pub sprite: nat,
    /// Nanoseconds accumulated since the current frame was entered.
    pub elapsed: nat,
    /// Whether a ping-pong animation is on its way back to the first frame.
    pub backward: bool,
    /// Whether a play-once animation has passed its last frame.
    pub ended: bool,
}

impl Playback {
    /// The playback of an animation that has just started.
    pub open spec fn fresh() -> Playback {
        Playback { cursor: 0, sprite: 0, elapsed: 0, backward: false, ended: false }
    }

    /// The frame under the cursor.
    pub open spec fn frame(self, animation: AnimationView) -> Frame {
        animation.frames[(self.cursor % animation.frames.len()) as int]
    }

    /// Whether the cursor has reached the last frame.
    pub open spec fn on_last_frame(self, animation: AnimationView) -> bool {
        self.cursor >= animation.frames.len() - 1
    }

    /// Where playback stands after crossing one frame boundary. Time is not
    /// touched.
    ///
    /// In a ping-pong animation of a single frame the cursor stays where it
    /// is and only the direction flips at each boundary.
    pub open spec fn cross(self, animation: AnimationView) -> Playback {
        match animation.mode {
            Mode::Once => if self.on_last_frame(animation) {
                Playback { ended: true, ..self }
            } else {
                Playback { cursor: self.cursor + 1, ..self }
            },
            Mode::RepeatFrom(loop_from) => if self.on_last_frame(animation) {
                Playback { cursor: loop_from as nat, ..self }
            } else {
                Playback { cursor: self.cursor + 1, ..self }
            },
            Mode::PingPong => if self.backward {
                if self.cursor == 0 {
                    Playback {
                        backward: false,
                        cursor: if animation.frames.len() > 1 {
                            1
                        } else {
                            0
                        },
                        ..self
                    }
                } else {
                    Playback { cursor: (self.cursor - 1) as nat, ..self }
                }
            } else if self.on_last_frame(animation) {
                Playback {
                    backward: true,
                    cursor: if self.cursor > 0 {
                        (self.cursor - 1) as nat
                    } else {
                        0
                    },
                    ..self
                }
            } else {
                Playback { cursor: self.cursor + 1, ..self }
            },
        }
    }

    /// Whether the accumulated time carries playback over the end of the
    /// current frame. An ended playback crosses no boundary.
    pub open spec fn is_due(self, animation: AnimationView) -> bool {
        !self.ended && self.elapsed >= self.frame(animation).duration
    }

    /// Spends the accumulated time: crosses frame boundaries, paying each
    /// frame's duration, until the time left falls within the current frame
    /// or the animation has ended; then records the sprite of that frame.
    pub open spec fn settle(self, animation: AnimationView) -> Playback
        decreases self.elapsed,
        when animation.is_playable()
    {
        if self.is_due(animation) {
            Playback {
                elapsed: (self.elapsed - self.frame(animation).duration) as nat,
                ..self.cross(animation)
            }.settle(animation)
        } else {
            Playback { sprite: self.frame(animation).index as nat, ..self }
        }
    }

    /// Playback after `delta` more nanoseconds have passed.
    pub open spec fn advance(self, animation: AnimationView, delta: nat) -> Playback {
        Playback { elapsed: self.elapsed + delta, ..self }.settle(animation)
    }
}

/// The playback state of one animation instance.
#[derive(Debug, Clone, Copy)]
pub struct State {
    animation_frame_index: usize,
    sprite_frame_index: usize,
    elapsed_in_frame: u64,
    going_backward: bool,
    is_ended: bool,
}

impl View for State {
    type V = Playback;

    closed spec fn view(&self) -> Playback {
        Playback {
            cursor: self.animation_frame_index as nat,
            sprite: self.sprite_frame_index as nat,
            elapsed: self.elapsed_in_frame as nat,
            backward: self.going_backward,
            ended: self.is_ended,
        }
    }
}

impl Default for State {
    fn default() -> (state: Self)
        ensures
            state@ == Playback::fresh(),
    {
        State::new()
    }
}

impl State {
    /// Creates the state of an animation that has just started.
    #[must_use]
    pub fn new() -> (state: Self)
        ensures
            state@ == Playback::fresh(),
    {
        State {
            animation_frame_index: 0,
            sprite_frame_index: 0,
            elapsed_in_frame: 0,
            going_backward: false,
            is_ended: false,
        }
    }

    /// Restarts from the first frame, as if the animation had just started.
    pub fn reset(&mut self)
        ensures
            final(self)@ == Playback::fresh(),
    {
        *self = State::new();
    }

    /// The sprite index of the current frame, as of the last update.
    #[must_use]
    pub fn frame_index(&self) -> (index: usize)
        ensures
            index == self@.sprite,
    {
        self.sprite_frame_index
    }

    /// Whether a play-once animation has passed its last frame.
    #[must_use]
    pub fn is_ended(&self) -> (ended: bool)
        ensures
            ended == self@.ended,
    {
        self.is_ended
    }

    /// The position of the current frame in the animation's frame list.
    pub fn frame_cursor(&self) -> (cursor: usize)
        ensures
            cursor == self@.cursor,
    {
        self.animation_frame_index
    }

    /// Nanoseconds accumulated since the current frame was entered.
    pub fn elapsed_in_frame(&self) -> (elapsed: u64)
        ensures
            elapsed == self@.elapsed,
    {
        self.elapsed_in_frame
    }

    /// Whether a ping-pong animation is on its way back to the first frame.
    pub fn is_going_backward(&self) -> (backward: bool)
        ensures
            backward == self@.backward,
    {
        self.going_backward
    }

    fn frame(&self, frames: &Vec<Frame>) -> (frame: Frame)
        requires
            frames@.len() > 0,
        ensures
            frame == frames@[(self@.cursor % frames@.len()) as int],
    {
        frames[self.animation_frame_index % frames.len()]
    }

    /// Advances playback of `animation` by `delta` nanoseconds.
    ///
    /// The animation must have frames, and the accumulated time must stay
    /// representable.
    pub fn update(&mut self, animation: &Animation, delta: u64)
        requires
            animation@.frames.len() > 0,
            old(self)@.elapsed + delta <= u64::MAX,
        ensures
            final(self)@ == old(self)@.advance(animation@, delta as nat),
            final(self)@.sprite == final(self)@.frame(animation@).index,
            !final(self)@.ended ==> final(self)@.elapsed < final(self)@.frame(animation@).duration,
            final(self)@.elapsed <= old(self)@.elapsed + delta,
            old(self)@.ended ==> final(self)@.ended,
    {
        let frames = animation.frames();
        let mode = animation.mode();
        let ghost target = self@.advance(animation@, delta as nat);
        self.elapsed_in_frame = self.elapsed_in_frame + delta;
        let mut frame = self.frame(frames);
        while !self.is_ended && self.elapsed_in_frame >= frame.duration
            invariant
                animation@.is_playable(),
                frames@ == animation@.frames,
                mode == animation@.mode,
                frame == self@.frame(animation@),
                self@.settle(animation@) == target,
            decreases self.elapsed_in_frame,
        {
            let on_last_frame = self.animation_frame_index >= frames.len() - 1;
            match mode {
                Mode::RepeatFrom(loop_from) => {
                    if on_last_frame {
                        self.animation_frame_index = loop_from;
                    } else {
                        self.animation_frame_index += 1;
                    }
                },
                Mode::PingPong => {
                    if self.going_backward {
                        if self.animation_frame_index == 0 {
                            self.going_backward = false;
                            if frames.len() > 1 {
                                self.animation_frame_index = 1;
                            }
                        } else {
                            self.animation_frame_index -= 1;
                        }
                    } else if on_last_frame {
                        self.going_backward = true;
                        if self.animation_frame_index > 0 {
                            self.animation_frame_index -= 1;
                        }
                    } else {
                        self.animation_frame_index += 1;
                    }
                },
                Mode::Once => {
                    if on_last_frame {
                        self.is_ended = true;
                    } else {
                        self.animation_frame_index += 1;
                    }
                },
            }
            self.elapsed_in_frame -= frame.duration;
            frame = self.frame(frames);
        }
        self.sprite_frame_index = frame.index;
        proof {
            lemma_advance_settles(animation@, old(self)@, delta as nat);
        }
    }
}


} // verus!

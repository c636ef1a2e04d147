//! Animation descriptions: frames, playback modes and frame rates.
//!
//! An [`Animation`] is an immutable list of timed frames together with a
//! playback [`Mode`]. Durations are whole nanoseconds.

pub mod laws;
pub mod sprite;
pub mod state;

use vstd::prelude::*;

verus! {

/// Why an animation description was rejected.
#[derive(Debug, Copy, Clone, PartialEq, Eq, Structural)]
pub enum ConstructionError {
    /// A frame would be displayed for no time at all.
    ZeroDuration,
    /// A total duration was to be shared among no frames.
    EmptyRange,
    /// A frame rate of no frames per second.
    ZeroFps,
}

/// How playback proceeds once the last frame has been shown.
#[derive(Debug, Copy, Clone, PartialEq, Eq, Structural)]
pub enum Mode {
    /// Play forward once, then hold the last frame.
    Once,
    /// Play forward; after the last frame continue from the given frame.
    RepeatFrom(usize),
    /// Play forward to the last frame, then backward to the first, forever.
    PingPong,
}

impl Default for Mode {
    fn default() -> (mode: Self)
        ensures
            mode == Mode::RepeatFrom(0),
    {
        Mode::RepeatFrom(0)
    }
}

/// Nanoseconds in a second.
pub const NANOS_PER_SECOND: u64 = 1_000_000_000;

/// A single animation frame.
#[derive(Debug, Copy, Clone, PartialEq, Eq, Structural)]
pub struct Frame {
    /// Index in the sprite atlas.
    pub index: usize,
    /// How long the frame is displayed, in nanoseconds.
    pub duration: u64,
}

impl Frame {
    /// A frame can be played only if it is displayed for some time.
    pub open spec fn is_valid(self) -> bool {
        self.duration > 0
    }

    /// Creates a frame, rejecting a zero duration.
    #[must_use]
    pub fn new(index: usize, duration: u64) -> (made: Result<Frame, ConstructionError>)
        ensures
            match made {
                Ok(frame) => duration > 0 && frame == (Frame { index, duration }),
                Err(error) => duration == 0 && error == ConstructionError::ZeroDuration,
            },
    {
        if duration == 0 {
            Err(ConstructionError::ZeroDuration)
        } else {
            Ok(Frame { index, duration })
        }
    }
}

/// The mathematical content of an [`Animation`].
pub struct AnimationView {
    pub frames: Seq<Frame>,
    pub mode: Mode,
}

impl AnimationView {
    /// Every frame is displayed for some time.
    pub open spec fn is_valid(self) -> bool {
        forall|i: int| 0 <= i < self.frames.len() ==> (#[trigger] self.frames[i]).is_valid()
    }

    /// Valid and with at least one frame: playback can advance through it.
    pub open spec fn is_playable(self) -> bool {
        self.frames.len() > 0 && self.is_valid()
    }
}

/// The mathematical content of a [`FrameRate`].
pub struct FrameRateView {
    /// Nanoseconds: of one frame, or of the whole animation.
    pub duration: nat,
    /// Whether `duration` is that of the whole animation.
    pub is_total: bool,
}

impl FrameRateView {
    /// How long each of `count` frames lasts at this rate.
    pub open spec fn frame_duration(self, count: nat) -> nat {
        if self.is_total {
            self.duration / count
        } else {
            self.duration
        }
    }

    /// Why `count` frames cannot be built at this rate, if they cannot.
    pub open spec fn rejection(self, count: nat) -> Option<ConstructionError> {
        if self.is_total && count == 0 {
            Some(ConstructionError::EmptyRange)
        } else if count > 0 && self.frame_duration(count) == 0 {
            Some(ConstructionError::ZeroDuration)
        } else {
            None
        }
    }
}

/// How fast the frames of an animation follow each other.
#[derive(Debug, Copy, Clone, PartialEq, Eq, Structural)]
#[must_use]
pub struct FrameRate {
    frame_duration: u64,
    is_total_duration: bool,
}

impl View for FrameRate {
    type V = FrameRateView;

    closed spec fn view(&self) -> FrameRateView {
        FrameRateView { duration: self.frame_duration as nat, is_total: self.is_total_duration }
    }
}

impl FrameRate {
    /// Frame rate defined by whole frames per second: each frame lasts
    /// the whole nanoseconds of that fraction of a second. Rejected if
    /// `fps` is zero.
    pub fn from_fps(fps: u32) -> (made: Result<FrameRate, ConstructionError>)
        ensures
            match made {
                Ok(rate) => fps > 0 && rate@ == (FrameRateView {
                    duration: (NANOS_PER_SECOND / fps as u64) as nat,
                    is_total: false,
                }),
                Err(error) => fps == 0 && error == ConstructionError::ZeroFps,
            },
    {
        if fps == 0 {
            Err(ConstructionError::ZeroFps)
        } else {
            Ok(
                FrameRate {
                    frame_duration: NANOS_PER_SECOND / (fps as u64),
                    is_total_duration: false,
                },
            )
        }
    }

    /// Frame rate defined by the duration of each frame, in nanoseconds.
    pub fn from_frame_duration(duration: u64) -> (rate: Self)
        ensures
            rate@ == (FrameRateView { duration: duration as nat, is_total: false }),
    {
        FrameRate { frame_duration: duration, is_total_duration: false }
    }

    /// Frame rate defined by the duration of the whole animation, in
    /// nanoseconds. How long a frame lasts then depends on their number.
    pub fn from_total_duration(duration: u64) -> (rate: Self)
        ensures
            rate@ == (FrameRateView { duration: duration as nat, is_total: true }),
    {
        FrameRate { frame_duration: duration, is_total_duration: true }
    }
}

/// One frame for each of `indices`, each lasting `duration` nanoseconds.
pub open spec fn frames_from_indices(indices: Seq<usize>, duration: nat) -> Seq<Frame> {
    Seq::new(indices.len(), |i: int| Frame { index: indices[i], duration: duration as u64 })
}

/// An ordered list of frames and the mode in which they are played.
///
/// Every animation is valid: none of its frames has a zero duration. It is
/// never changed once built, except for its mode by the builder methods.
pub struct Animation {
    frames: Vec<Frame>,
    mode: Mode,
}

impl View for Animation {
    type V = AnimationView;

    closed spec fn view(&self) -> AnimationView {
        AnimationView { frames: self.frames@, mode: self.mode }
    }
}

impl Animation {
    #[verifier::type_invariant]
    spec fn all_frames_valid(self) -> bool {
        self@.is_valid()
    }

    /// Creates an animation from explicit frames, in the default mode.
    /// Rejected if any frame has a zero duration.
    #[must_use]
    pub fn from_frames(frames: Vec<Frame>) -> (made: Result<Animation, ConstructionError>)
        ensures
            match made {
                Ok(animation) => {
                    &&& animation@.frames == frames@
                    &&& animation@.mode == Mode::RepeatFrom(0)
                    &&& animation@.is_valid()
                },
                Err(error) => {
                    &&& error == ConstructionError::ZeroDuration
                    &&& exists|i: int| 0 <= i < frames.len() && !(#[trigger] frames@[i]).is_valid()
                },
            },
    {
        let mut i: usize = 0;
        while i < frames.len()
            invariant
                i <= frames.len(),
                forall|j: int| 0 <= j < i ==> (#[trigger] frames@[j]).is_valid(),
            decreases frames.len() - i,
        {
            if frames[i].duration == 0 {
                return Err(ConstructionError::ZeroDuration);
            }
            i += 1;
        }
        Ok(Animation { frames, mode: Mode::RepeatFrom(0) })
    }

    /// Creates an animation with one frame for each of `indices`, in the
    /// default mode. With a per-frame rate every frame lasts that long; with a
    /// total duration the frames share it evenly, each lasting the whole
    /// quotient. Rejected where a frame would last no time, or where a total
    /// duration meets no frame.
    pub fn from_indices(indices: Vec<usize>, frame_rate: FrameRate) -> (made: Result<
        Animation,
        ConstructionError,
    >)
        ensures
            match made {
                Ok(animation) => {
                    &&& frame_rate@.rejection(indices@.len()) is None
                    &&& animation@.frames == frames_from_indices(
                        indices@,
                        frame_rate@.frame_duration(indices@.len()),
                    )
                    &&& animation@.mode == Mode::RepeatFrom(0)
                    &&& animation@.is_valid()
                },
                Err(error) => frame_rate@.rejection(indices@.len()) == Some(error),
            },
    {
        let count = indices.len();
        let duration = if frame_rate.is_total_duration {
            if count == 0 {
                return Err(ConstructionError::EmptyRange);
            }
            frame_rate.frame_duration / (count as u64)
        } else {
            frame_rate.frame_duration
        };
        if count > 0 && duration == 0 {
            return Err(ConstructionError::ZeroDuration);
        }
        let mut frames: Vec<Frame> = Vec::new();
        let mut i: usize = 0;
        while i < count
            invariant
                i <= count,
                count == indices@.len(),
                count > 0 ==> duration > 0,
                frames@ == frames_from_indices(indices@.take(i as int), duration as nat),
            decreases count - i,
        {
            frames.push(Frame { index: indices[i], duration });
            i += 1;
        }
        Ok(Animation { frames, mode: Mode::RepeatFrom(0) })
    }

    /// The same frames, played once and then held on the last one.
    #[must_use]
    pub fn once(self) -> (out: Self)
        ensures
            out@ == (AnimationView { mode: Mode::Once, ..self@ }),
    {
        proof {
            use_type_invariant(&self);
        }
        Animation { frames: self.frames, mode: Mode::Once }
    }

    /// The same frames, repeated forever from the first one.
    #[must_use]
    pub fn repeat(self) -> (out: Self)
        ensures
            out@ == (AnimationView { mode: Mode::RepeatFrom(0), ..self@ }),
    {
        proof {
            use_type_invariant(&self);
        }
        Animation { frames: self.frames, mode: Mode::RepeatFrom(0) }
    }

    /// The same frames, repeated forever, looping back to `frame_index` after
    /// the last one.
    #[must_use]
    pub fn repeat_from(self, frame_index: usize) -> (out: Self)
        ensures
            out@ == (AnimationView { mode: Mode::RepeatFrom(frame_index), ..self@ }),
    {
        proof {
            use_type_invariant(&self);
        }
        Animation { frames: self.frames, mode: Mode::RepeatFrom(frame_index) }
    }

    /// The same frames, played back and forth between the first and the last.
    #[must_use]
    pub fn ping_pong(self) -> (out: Self)
        ensures
            out@ == (AnimationView { mode: Mode::PingPong, ..self@ }),
    {
        proof {
            use_type_invariant(&self);
        }
        Animation { frames: self.frames, mode: Mode::PingPong }
    }

    /// The frames, in playing order.
    pub fn frames(&self) -> (frames: &Vec<Frame>)
        ensures
            frames@ == self@.frames,
            self@.is_valid(),
    {
        proof {
            use_type_invariant(self);
        }
        &self.frames
    }

    /// The playback mode.
    pub fn mode(&self) -> (mode: Mode)
        ensures
            mode == self@.mode,
    {
        self.mode
    }

    /// Whether there is anything to play. An animation that has frames is
    /// playable, since none of its frames has a zero duration.
    pub fn has_frames(&self) -> (some: bool)
        ensures
            some == (self@.frames.len() > 0),
            some == self@.is_playable(),
    {
        proof {
            use_type_invariant(self);
        }
        self.frames.len() > 0
    }
}

} // verus!

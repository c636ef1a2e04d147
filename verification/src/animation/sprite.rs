//! Animation selection for one entity: which animation plays, whether it
//! may be interrupted, and what follows it.

use super::state::{Playback, State};
use super::{Animation, AnimationView, Mode};
use vstd::prelude::*;
use vstd::std_specs::cmp::PartialEqSpec;

verus! {

/// The table that gives each animation key its animation.
///
/// `T` is an enumeration of all the animations of one kind of entity. The
/// table is total and fixed: the same key always yields the same animation.
pub trait AnimationLookup<T: PartialEq> {
    /// The animation that the table holds for `key`.
    spec fn animation_of(key: T) -> AnimationView;

    /// Keys are plain identities: `==` on them is equality of values.
    proof fn keys_compare_by_value()
        ensures
            T::obeys_eq_spec(),
            forall|a: T, b: T| #[trigger] a.eq_spec(&b) <==> a == b,
    ;

    /// Looks up the animation of `anim_enum`.
    fn get_animation(anim_enum: &T) -> (animation: Animation)
        ensures
            animation@ == Self::animation_of(*anim_enum),
    ;
}

/// The mathematical content of an [`AnimationSpriteSheet`].
pub struct SheetView<T> {
    /// The animation that is playing.
    pub current: T,
    /// The animation to start when the current one ends while locked.
    pub queued: Option<T>,
    /// Whether the current animation refuses to be replaced.
    pub locked: bool,
    /// Number of columns of the sprite sheet.
    pub column_count: nat,
    /// Where playback of the current animation stands.
    pub playback: Playback,
}

impl<T: PartialEq + AnimationLookup<T>> SheetView<T> {
    /// The animation that is playing, as the table gives it.
    pub open spec fn animation(self) -> AnimationView {
        T::animation_of(self.current)
    }

    /// The effect of asking for animation `key`: nothing if it is already
    /// playing or the sheet is locked; otherwise `key` starts afresh and
    /// locks the sheet exactly if it plays once.
    pub open spec fn set_animation(self, key: T) -> Self {
        if self.current == key || self.locked {
            self
        } else {
            SheetView {
                current: key,
                locked: T::animation_of(key).mode == Mode::Once,
                playback: Playback::fresh(),
                ..self
            }
        }
    }

    /// The effect of asking for each of `keys` in turn.
    pub open spec fn set_animations(self, keys: Seq<T>) -> Self
        decreases keys.len(),
    {
        if keys.len() == 0 {
            self
        } else {
            self.set_animation(keys[0]).set_animations(keys.skip(1))
        }
    }

    /// The effect of `delta` nanoseconds passing.
    pub open spec fn update_state(self, delta: nat) -> Self {
        SheetView { playback: self.playback.advance(self.animation(), delta), ..self }
    }

    /// Whether the sheet holds its animation against replacement for now:
    /// it is locked and the animation has not ended.
    pub open spec fn is_held(self) -> bool {
        self.locked && !self.playback.ended
    }

    /// The effect of releasing a lock whose animation has ended: the sheet
    /// is unlocked and the queued animation is asked for and leaves the
    /// queue; with nothing queued, playback restarts. A sheet that is not
    /// locked, or whose animation has not ended, stays as it is.
    pub open spec fn release(self) -> Self {
        if self.locked && self.playback.ended {
            let unlocked = SheetView { locked: false, ..self };
            match self.queued {
                Some(next) => SheetView { queued: None, ..unlocked.set_animation(next) },
                None => SheetView { playback: Playback::fresh(), ..unlocked },
            }
        } else {
            self
        }
    }

    /// One simulation tick: time passes, then an ended lock is released.
    pub open spec fn tick(self, delta: nat) -> Self {
        self.update_state(delta).release()
    }
}

/// The animation selector of one entity.
pub struct AnimationSpriteSheet<T> {
    /// The animation that is playing.
    pub current_animation: T,
    /// The animation to start when the current one ends while locked.
    pub queued_animation: Option<T>,
    /// Whether the current animation refuses to be replaced.
    pub locked: bool,
    /// Number of columns of the sprite sheet.
    pub column_count: usize,
    /// Where playback of the current animation stands.
    pub state: State,
}

impl<T> View for AnimationSpriteSheet<T> {
    type V = SheetView<T>;

    open spec fn view(&self) -> SheetView<T> {
        SheetView {
            current: self.current_animation,
            queued: self.queued_animation,
            locked: self.locked,
            column_count: self.column_count as nat,
            playback: self.state@,
        }
    }
}

impl<T: Default> Default for AnimationSpriteSheet<T> {
    /// A sheet that plays the default animation of `T` from its start,
    /// unlocked and with nothing queued.
    fn default() -> (sheet: Self)
        ensures
            sheet@ == (SheetView {
                current: sheet@.current,
                queued: None,
                locked: false,
                column_count: 0,
                playback: Playback::fresh(),
            }),
    {
        AnimationSpriteSheet {
            current_animation: T::default(),
            queued_animation: None,
            locked: false,
            column_count: 0,
            state: State::new(),
        }
    }
}

impl<T: Copy + PartialEq + AnimationLookup<T>> AnimationSpriteSheet<T> {
    /// Creates a sheet that plays `animation` from its start, unlocked and
    /// with nothing queued.
    pub fn new(animation: T, column_count: usize) -> (sheet: Self)
        ensures
            sheet@ == (SheetView {
                current: animation,
                queued: None,
                locked: false,
                column_count: column_count as nat,
                playback: Playback::fresh(),
            }),
    {
        AnimationSpriteSheet {
            current_animation: animation,
            queued_animation: None,
            locked: false,
            column_count,
            state: State::new(),
        }
    }

    /// Asks for `animation` to play. Nothing happens if it is already
    /// playing or if the sheet is locked. Otherwise it starts from its first
    /// frame, and locks the sheet exactly if it plays once.
    pub fn set_animation(&mut self, animation: T)
        ensures
            final(self)@ == old(self)@.set_animation(animation),
            old(self)@.current == animation || old(self)@.locked ==> final(self)@ == old(self)@,
    {
        proof {
            T::keys_compare_by_value();
        }
        if self.current_animation == animation || self.locked {
            return ;
        }
        self.locked = match self.get_animation(animation).mode() {
            Mode::Once => true,
            _ => false,
        };
        self.current_animation = animation;
        self.state.reset();
    }

    /// Looks up the animation that is playing.
    pub fn get_current_animation(&self) -> (animation: Animation)
        ensures
            animation@ == self@.animation(),
    {
        T::get_animation(&self.current_animation)
    }

    /// Looks up the animation of `animation`.
    pub fn get_animation(&self, animation: T) -> (found: Animation)
        ensures
            found@ == T::animation_of(animation),
    {
        T::get_animation(&animation)
    }

    /// Advances playback of the current animation by `duration`
    /// nanoseconds.
    ///
    /// The current animation must have frames, and the accumulated time
    /// must stay representable.
    pub fn update_state(&mut self, duration: u64)
        requires
            old(self)@.animation().frames.len() > 0,
            old(self)@.playback.elapsed + duration <= u64::MAX,
        ensures
            final(self)@ == old(self)@.update_state(duration as nat),
    {
        let animation = self.get_current_animation();
        self.state.update(&animation, duration);
    }

    /// Releases the lock if the locked animation has ended, starting the
    /// queued animation if there is one and restarting playback if not.
    /// Returns whether the game may go on to ask for an animation: `false`
    /// exactly if a locked animation is still playing.
    pub fn release(&mut self) -> (open: bool)
        ensures
            final(self)@ == old(self)@.release(),
            open == !old(self)@.is_held(),
    {
        if self.locked {
            if self.state.is_ended() {
                self.locked = false;
                match self.queued_animation {
                    Some(next) => {
                        self.set_animation(next);
                        self.queued_animation = None;
                    },
                    None => {
                        self.state.reset();
                    },
                }
            } else {
                return false;
            }
        }
        true
    }

    /// One simulation tick: advances playback by `delta` nanoseconds, then
    /// releases an ended lock. Returns whether the game may go on to ask
    /// for an animation: `false` exactly if a locked animation is still
    /// playing.
    ///
    /// The current animation must have frames, and the accumulated time
    /// must stay representable.
    pub fn tick(&mut self, delta: u64) -> (open: bool)
        requires
            old(self)@.animation().frames.len() > 0,
            old(self)@.playback.elapsed + delta <= u64::MAX,
        ensures
            final(self)@ == old(self)@.tick(delta as nat),
            open == !old(self)@.update_state(delta as nat).is_held(),
    {
        self.update_state(delta);
        self.release()
    }
}

/// Asking for the animation that is already playing changes nothing: the
/// cursor and the time accumulated in the frame stay as they are.
pub proof fn lemma_current_animation_is_kept<T: PartialEq + AnimationLookup<T>>(
    sheet: SheetView<T>,
    key: T,
)
    requires
        key == sheet.current,
    ensures
        sheet.set_animation(key) == sheet,
{
}

/// Asking twice for the same animation is asking once.
pub proof fn lemma_asking_again_changes_nothing<T: PartialEq + AnimationLookup<T>>(
    sheet: SheetView<T>,
    key: T,
)
    ensures
        sheet.set_animation(key).set_animation(key) == sheet.set_animation(key),
{
}

/// A locked sheet ignores every request: however many animations are asked
/// for, and whichever, the sheet stays exactly as it is.
pub proof fn lemma_locked_sheet_ignores_requests<T: PartialEq + AnimationLookup<T>>(
    sheet: SheetView<T>,
    keys: Seq<T>,
)
    requires
        sheet.locked,
    ensures
        sheet.set_animations(keys) == sheet,
    decreases keys.len(),
{
    if keys.len() > 0 {
        lemma_locked_sheet_ignores_requests(sheet, keys.skip(1));
    }
}

/// The passing of time alone never replaces, locks, unlocks or queues an
/// animation.
pub proof fn lemma_time_moves_playback_only<T: PartialEq + AnimationLookup<T>>(
    sheet: SheetView<T>,
    delta: nat,
)
    ensures
        sheet.update_state(delta) == (SheetView {
            playback: sheet.update_state(delta).playback,
            ..sheet
        }),
{
}

/// While a locked animation has not ended, a tick leaves the selection
/// alone: the animation, the lock and the queue stay as they are.
pub proof fn lemma_lock_holds_until_end<T: PartialEq + AnimationLookup<T>>(
    sheet: SheetView<T>,
    delta: nat,
)
    requires
        sheet.locked,
        !sheet.playback.advance(sheet.animation(), delta).ended,
    ensures
        sheet.tick(delta) == sheet.update_state(delta),
        sheet.tick(delta).current == sheet.current,
        sheet.tick(delta).locked,
        sheet.tick(delta).queued == sheet.queued,
{
}

/// The tick in which a locked animation ends starts the queued animation:
/// it becomes the current one and plays from its first frame, the queue is
/// emptied, and the sheet is locked again exactly if the new animation
/// plays once. This is stated of a queued animation other than the one
/// that has ended.
pub proof fn lemma_queued_animation_starts<T: PartialEq + AnimationLookup<T>>(
    sheet: SheetView<T>,
    next: T,
    delta: nat,
)
    requires
        sheet.locked,
        sheet.queued == Some(next),
        next != sheet.current,
        sheet.playback.advance(sheet.animation(), delta).ended,
    ensures
        sheet.tick(delta) == (SheetView {
            current: next,
            queued: None,
            locked: T::animation_of(next).mode == Mode::Once,
            playback: Playback::fresh(),
            ..sheet
        }),
{
}

/// The tick in which a locked animation ends with nothing queued unlocks
/// the sheet and restarts playback, so that the last frame does not stay
/// on display.
pub proof fn lemma_ended_animation_restarts<T: PartialEq + AnimationLookup<T>>(
    sheet: SheetView<T>,
    delta: nat,
)
    requires
        sheet.locked,
        sheet.queued is None,
        sheet.playback.advance(sheet.animation(), delta).ended,
    ensures
        sheet.tick(delta) == (SheetView {
            locked: false,
            playback: Playback::fresh(),
            ..sheet
        }),
{
}

/// The queue is emptied in exactly one situation: in the tick in which the
/// current animation ends while the sheet is locked. In every other tick it
/// stays as it is.
pub proof fn lemma_queue_is_consumed_at_end_only<T: PartialEq + AnimationLookup<T>>(
    sheet: SheetView<T>,
    delta: nat,
)
    ensures
        sheet.tick(delta).queued == if sheet.locked && sheet.playback.advance(
            sheet.animation(),
            delta,
        ).ended {
            None
        } else {
            sheet.queued
        },
{
}

/// A sheet is unlocked by the end of its animation and by nothing else: a
/// sheet that was locked before a tick and is not after it has seen its
/// animation end in that tick.
pub proof fn lemma_unlocked_by_end_only<T: PartialEq + AnimationLookup<T>>(
    sheet: SheetView<T>,
    delta: nat,
)
    requires
        sheet.locked,
        !sheet.tick(delta).locked,
    ensures
        sheet.playback.advance(sheet.animation(), delta).ended,
{
}

/// After a tick a locked sheet is never left on an animation that has
/// ended: the end of a locked animation is always acted on in the tick in
/// which it comes.
pub proof fn lemma_tick_acts_on_the_end<T: PartialEq + AnimationLookup<T>>(
    sheet: SheetView<T>,
    delta: nat,
)
    ensures
        sheet.tick(delta).locked ==> !sheet.tick(delta).playback.ended,
{
}

} // verus!

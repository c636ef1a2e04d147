//! What holds of playback in every animation: how time adds up over ticks,
//! where the cursor goes at the ends of the frame list, and when an
//! animation ends.

use super::state::Playback;
use super::{AnimationView, Frame, Mode};
use vstd::prelude::*;

verus! {

/// The time it takes to play the frames from position `from` up to, but
/// not including, position `to`.
pub open spec fn time_between(frames: Seq<Frame>, from: nat, to: nat) -> nat
    decreases to - from,
{
    if from >= to || from >= frames.len() {
        0
    } else {
        frames[from as int].duration as nat + time_between(frames, from + 1, to)
    }
}

/// The sum of the spans of time in `deltas`.
pub open spec fn total(deltas: Seq<nat>) -> nat
    decreases deltas.len(),
{
    if deltas.len() == 0 {
        0
    } else {
        deltas[0] + total(deltas.skip(1))
    }
}

impl Playback {
    /// Playback after each span of time in `deltas` has passed in turn.
    pub open spec fn advance_all(self, animation: AnimationView, deltas: Seq<nat>) -> Playback
        decreases deltas.len(),
    {
        if deltas.len() == 0 {
            self
        } else {
            self.advance(animation, deltas[0]).advance_all(animation, deltas.skip(1))
        }
    }
}

/// A cursor within the frame list stands on the frame at its own position.
pub proof fn lemma_frame_in_range(animation: AnimationView, playback: Playback)
    requires
        playback.cursor < animation.frames.len(),
    ensures
        playback.frame(animation) == animation.frames[playback.cursor as int],
{
    vstd::arithmetic::div_mod::lemma_small_mod(playback.cursor, animation.frames.len());
}

/// The sprite recorded before time is spent has no influence on the
/// outcome.
proof fn lemma_settle_ignores_sprite(animation: AnimationView, playback: Playback, sprite: nat)
    requires
        animation.is_playable(),
    ensures
        (Playback { sprite, ..playback }).settle(animation) == playback.settle(animation),
    decreases playback.elapsed,
{
    if playback.is_due(animation) {
        let paid = (playback.elapsed - playback.frame(animation).duration) as nat;
        lemma_settle_ignores_sprite(
            animation,
            Playback { elapsed: paid, ..playback.cross(animation) },
            sprite,
        );
    }
}

/// Time that is added before the accumulated time is spent may as well be
/// added after.
proof fn lemma_settle_then_add(animation: AnimationView, playback: Playback, delta: nat)
    requires
        animation.is_playable(),
    ensures
        playback.settle(animation).advance(animation, delta) == playback.advance(animation, delta),
    decreases playback.elapsed,
{
    if playback.is_due(animation) {
        let paid = (playback.elapsed - playback.frame(animation).duration) as nat;
        lemma_settle_then_add(
            animation,
            Playback { elapsed: paid, ..playback.cross(animation) },
            delta,
        );
    } else {
        lemma_settle_ignores_sprite(
            animation,
            Playback { elapsed: playback.elapsed + delta, ..playback },
            playback.frame(animation).index as nat,
        );
    }
}

proof fn lemma_settle_settles(animation: AnimationView, playback: Playback)
    requires
        animation.is_playable(),
    ensures
        ({
            let after = playback.settle(animation);
            &&& after.sprite == after.frame(animation).index
            &&& !after.ended ==> after.elapsed < after.frame(animation).duration
            &&& after.elapsed <= playback.elapsed
            &&& playback.ended ==> after.ended
            &&& animation.mode != Mode::Once && !playback.ended ==> !after.ended
        }),
    decreases playback.elapsed,
{
    if playback.is_due(animation) {
        let paid = (playback.elapsed - playback.frame(animation).duration) as nat;
        lemma_settle_settles(animation, Playback { elapsed: paid, ..playback.cross(animation) });
    }
}

proof fn lemma_settle_stays_in_range(animation: AnimationView, playback: Playback)
    requires
        animation.is_playable(),
        playback.cursor < animation.frames.len(),
        animation.mode matches Mode::RepeatFrom(loop_from) ==> loop_from < animation.frames.len(),
    ensures
        playback.settle(animation).cursor < animation.frames.len(),
    decreases playback.elapsed,
{
    if playback.is_due(animation) {
        let paid = (playback.elapsed - playback.frame(animation).duration) as nat;
        lemma_settle_stays_in_range(
            animation,
            Playback { elapsed: paid, ..playback.cross(animation) },
        );
    }
}

/// Time adds up: advancing by `first` and then by `second` nanoseconds
/// leaves playback where advancing once by their sum does. No part of a
/// span of time is lost at a frame boundary.
pub proof fn lemma_advance_adds_up(
    animation: AnimationView,
    playback: Playback,
    first: nat,
    second: nat,
)
    requires
        animation.is_playable(),
    ensures
        playback.advance(animation, first).advance(animation, second) == playback.advance(
            animation,
            first + second,
        ),
{
    lemma_settle_then_add(
        animation,
        Playback { elapsed: playback.elapsed + first, ..playback },
        second,
    );
}

/// However a span of time is cut into ticks, playback ends up where one
/// tick of the whole span takes it.
pub proof fn lemma_ticks_add_up(animation: AnimationView, playback: Playback, deltas: Seq<nat>)
    requires
        animation.is_playable(),
        deltas.len() > 0,
    ensures
        playback.advance_all(animation, deltas) == playback.advance(animation, total(deltas)),
    decreases deltas.len(),
{
    let rest = deltas.skip(1);
    if rest.len() == 0 {
        assert(playback.advance(animation, deltas[0]).advance_all(animation, rest)
            == playback.advance(animation, deltas[0]));
    } else {
        lemma_ticks_add_up(animation, playback.advance(animation, deltas[0]), rest);
        lemma_advance_adds_up(animation, playback, deltas[0], total(rest));
    }
}

/// After any advance the recorded sprite is that of the frame under the
/// cursor, and unless the animation has ended the time left falls within
/// that frame. No time is gained, and an animation that had ended is still
/// ended.
pub proof fn lemma_advance_settles(animation: AnimationView, playback: Playback, delta: nat)
    requires
        animation.is_playable(),
    ensures
        ({
            let after = playback.advance(animation, delta);
            &&& after.sprite == after.frame(animation).index
            &&& !after.ended ==> after.elapsed < after.frame(animation).duration
            &&& after.elapsed <= playback.elapsed + delta
            &&& playback.ended ==> after.ended
        }),
{
    lemma_settle_settles(animation, Playback { elapsed: playback.elapsed + delta, ..playback });
}

/// Time that does not reach the end of the current frame only accumulates:
/// the cursor stays and no boundary is crossed. The same holds of any time
/// once the animation has ended.
pub proof fn lemma_advance_within_frame(animation: AnimationView, playback: Playback, delta: nat)
    requires
        animation.is_playable(),
        playback.ended || playback.elapsed + delta < playback.frame(animation).duration,
    ensures
        playback.advance(animation, delta) == (Playback {
            elapsed: playback.elapsed + delta,
            sprite: playback.frame(animation).index as nat,
            ..playback
        }),
{
}

/// Time that reaches the end of the current frame crosses its boundary:
/// playback goes on from the start of the frame on the other side, with
/// the time that is left once the duration of the frame is paid.
pub proof fn lemma_advance_crosses_boundary(
    animation: AnimationView,
    playback: Playback,
    delta: nat,
)
    requires
        animation.is_playable(),
        !playback.ended,
        playback.elapsed + delta >= playback.frame(animation).duration,
    ensures
        playback.advance(animation, delta) == (Playback {
            elapsed: 0,
            ..playback.cross(animation)
        }).advance(
            animation,
            (playback.elapsed + delta - playback.frame(animation).duration) as nat,
        ),
{
}

/// Time that reaches the end of the current frame but not of the next one
/// crosses exactly one boundary and carries the remainder over.
pub proof fn lemma_advance_over_one_boundary(
    animation: AnimationView,
    playback: Playback,
    delta: nat,
)
    requires
        animation.is_playable(),
        !playback.ended,
        playback.elapsed + delta >= playback.frame(animation).duration,
        ({
            let crossed = playback.cross(animation);
            let left = playback.elapsed + delta - playback.frame(animation).duration;
            crossed.ended || left < crossed.frame(animation).duration
        }),
    ensures
        playback.advance(animation, delta) == ({
            let crossed = playback.cross(animation);
            Playback {
                elapsed: (playback.elapsed + delta - playback.frame(animation).duration) as nat,
                sprite: crossed.frame(animation).index as nat,
                ..crossed
            }
        }),
{
    lemma_advance_crosses_boundary(animation, playback, delta);
}

/// Playing a single frame takes its duration.
pub proof fn lemma_time_of_one_frame(frames: Seq<Frame>, position: nat)
    requires
        position < frames.len(),
    ensures
        time_between(frames, position, position + 1) == frames[position as int].duration,
{
    assert(time_between(frames, position + 1, position + 1) == 0);
}

/// Playing from `from` to `to` takes the time that it takes to play from
/// `from` to a position `middle` between them and on from there to `to`.
pub proof fn lemma_time_between_splits(frames: Seq<Frame>, from: nat, middle: nat, to: nat)
    requires
        from <= middle <= to <= frames.len(),
    ensures
        time_between(frames, from, to) == time_between(frames, from, middle) + time_between(
            frames,
            middle,
            to,
        ),
    decreases middle - from,
{
    if from < middle {
        lemma_time_between_splits(frames, from + 1, middle, to);
    }
}

/// On its way forward playback passes over every frame whose time is up:
/// with the time that it takes to play the frames from the cursor up to
/// position `to`, playback goes on from the start of the frame at `to`
/// with the rest of the time. This holds in every mode, up to the last
/// frame.
pub proof fn lemma_skips_forward(
    animation: AnimationView,
    playback: Playback,
    delta: nat,
    to: nat,
)
    requires
        animation.is_playable(),
        !playback.ended,
        animation.mode == Mode::PingPong ==> !playback.backward,
        playback.cursor <= to < animation.frames.len(),
        playback.elapsed + delta >= time_between(animation.frames, playback.cursor, to),
    ensures
        playback.advance(animation, delta) == (Playback {
            cursor: to,
            elapsed: 0,
            ..playback
        }).advance(
            animation,
            (playback.elapsed + delta - time_between(animation.frames, playback.cursor, to)) as nat,
        ),
    decreases to - playback.cursor,
{
    lemma_frame_in_range(animation, playback);
    if playback.cursor < to {
        lemma_advance_crosses_boundary(animation, playback, delta);
        let left = (playback.elapsed + delta - playback.frame(animation).duration) as nat;
        lemma_skips_forward(
            animation,
            Playback { elapsed: 0, ..playback.cross(animation) },
            left,
            to,
        );
    }
}

/// On its way forward playback shows each frame for its duration, in
/// order: the time that it takes to play the frames from the cursor up to
/// position `to` brings the cursor there, and what is left of the time is
/// spent in that frame. This holds in every mode, up to the last frame.
pub proof fn lemma_plays_forward(
    animation: AnimationView,
    playback: Playback,
    delta: nat,
    to: nat,
)
    requires
        animation.is_playable(),
        !playback.ended,
        animation.mode == Mode::PingPong ==> !playback.backward,
        playback.cursor <= to < animation.frames.len(),
        playback.elapsed + delta >= time_between(animation.frames, playback.cursor, to),
        playback.elapsed + delta - time_between(animation.frames, playback.cursor, to)
            < animation.frames[to as int].duration,
    ensures
        playback.advance(animation, delta) == (Playback {
            cursor: to,
            elapsed: (playback.elapsed + delta - time_between(
                animation.frames,
                playback.cursor,
                to,
            )) as nat,
            sprite: animation.frames[to as int].index as nat,
            ..playback
        }),
    decreases to - playback.cursor,
{
    lemma_frame_in_range(animation, playback);
    if playback.cursor < to {
        lemma_advance_crosses_boundary(animation, playback, delta);
        let left = (playback.elapsed + delta - playback.frame(animation).duration) as nat;
        lemma_plays_forward(
            animation,
            Playback { elapsed: 0, ..playback.cross(animation) },
            left,
            to,
        );
    }
}

/// A repeating animation that crosses the boundary of its last frame
/// continues at its loop index, with the time left over carried along.
pub proof fn lemma_repeat_wraps_to_loop_index(
    animation: AnimationView,
    playback: Playback,
    delta: nat,
    loop_from: usize,
)
    requires
        animation.is_playable(),
        animation.mode == Mode::RepeatFrom(loop_from),
        !playback.ended,
        playback.cursor == animation.frames.len() - 1,
        loop_from < animation.frames.len(),
        playback.elapsed + delta >= animation.frames.last().duration,
        playback.elapsed + delta - animation.frames.last().duration
            < animation.frames[loop_from as int].duration,
    ensures
        playback.advance(animation, delta) == (Playback {
            cursor: loop_from as nat,
            elapsed: (playback.elapsed + delta - animation.frames.last().duration) as nat,
            sprite: animation.frames[loop_from as int].index as nat,
            ..playback
        }),
{
    lemma_frame_in_range(animation, playback);
    lemma_frame_in_range(animation, playback.cross(animation));
    lemma_advance_over_one_boundary(animation, playback, delta);
}

proof fn lemma_settle_stays_in_loop(animation: AnimationView, playback: Playback, loop_from: usize)
    requires
        animation.is_playable(),
        animation.mode == Mode::RepeatFrom(loop_from),
        loop_from <= playback.cursor < animation.frames.len(),
    ensures
        loop_from <= playback.settle(animation).cursor < animation.frames.len(),
    decreases playback.elapsed,
{
    if playback.is_due(animation) {
        let paid = (playback.elapsed - playback.frame(animation).duration) as nat;
        lemma_settle_stays_in_loop(
            animation,
            Playback { elapsed: paid, ..playback.cross(animation) },
            loop_from,
        );
    }
}

/// A repeating animation is periodic: once the cursor is within the part
/// that repeats, the time that it takes to play that part once brings
/// playback back to where it stands.
pub proof fn lemma_repeat_is_periodic(
    animation: AnimationView,
    playback: Playback,
    delta: nat,
    loop_from: usize,
)
    requires
        animation.is_playable(),
        animation.mode == Mode::RepeatFrom(loop_from),
        !playback.ended,
        loop_from <= playback.cursor < animation.frames.len(),
    ensures
        playback.advance(
            animation,
            delta + time_between(animation.frames, loop_from as nat, animation.frames.len()),
        ) == playback.advance(animation, delta),
{
    let frames = animation.frames;
    let last = (frames.len() - 1) as nat;
    let cycle = time_between(frames, loop_from as nat, frames.len());
    let now = playback.advance(animation, delta);
    lemma_advance_adds_up(animation, playback, delta, cycle);
    lemma_advance_settles(animation, playback, delta);
    lemma_only_once_ends(animation, playback, delta);
    lemma_settle_stays_in_loop(
        animation,
        Playback { elapsed: playback.elapsed + delta, ..playback },
        loop_from,
    );
    lemma_frame_in_range(animation, now);
    // The cycle takes playback to the last frame, over its boundary to the
    // loop index, and on to the frame where it stands.
    lemma_time_between_splits(frames, loop_from as nat, now.cursor, frames.len());
    lemma_time_between_splits(frames, now.cursor, last, frames.len());
    lemma_time_of_one_frame(frames, last);
    lemma_skips_forward(animation, now, cycle, last);
    let at_last = Playback { cursor: last, elapsed: 0, ..now };
    let after_last = (now.elapsed + cycle - time_between(frames, now.cursor, last)) as nat;
    lemma_frame_in_range(animation, at_last);
    lemma_advance_crosses_boundary(animation, at_last, after_last);
    let at_loop = Playback { elapsed: 0, ..at_last.cross(animation) };
    let after_loop = (after_last - frames[last as int].duration) as nat;
    lemma_skips_forward(animation, at_loop, after_loop, now.cursor);
    let back = Playback { cursor: now.cursor, elapsed: 0, ..at_loop };
    lemma_advance_within_frame(animation, back, now.elapsed);
    assert(now.advance(animation, cycle) == now);
}

/// On its way backward a ping-pong animation passes over every frame
/// whose time is up: with the time that it takes to play the frames from
/// the cursor down to the one after position `to`, playback goes on from
/// the start of the frame at `to` with the rest of the time.
pub proof fn lemma_skips_backward(
    animation: AnimationView,
    playback: Playback,
    delta: nat,
    to: nat,
)
    requires
        animation.is_playable(),
        animation.mode == Mode::PingPong,
        !playback.ended,
        playback.backward,
        to <= playback.cursor < animation.frames.len(),
        playback.elapsed + delta >= time_between(animation.frames, to + 1, playback.cursor + 1),
    ensures
        playback.advance(animation, delta) == (Playback {
            cursor: to,
            elapsed: 0,
            ..playback
        }).advance(
            animation,
            (playback.elapsed + delta - time_between(
                animation.frames,
                to + 1,
                playback.cursor + 1,
            )) as nat,
        ),
    decreases playback.cursor - to,
{
    let frames = animation.frames;
    lemma_frame_in_range(animation, playback);
    if playback.cursor > to {
        lemma_time_between_splits(frames, to + 1, playback.cursor, playback.cursor + 1);
        lemma_time_of_one_frame(frames, playback.cursor);
        lemma_advance_crosses_boundary(animation, playback, delta);
        let left = (playback.elapsed + delta - playback.frame(animation).duration) as nat;
        lemma_skips_backward(
            animation,
            Playback { elapsed: 0, ..playback.cross(animation) },
            left,
            to,
        );
    }
}

/// The time that a ping-pong animation takes to go forth and back once:
/// the first and the last frame are shown once, the frames between them
/// twice.
pub open spec fn ping_pong_period(frames: Seq<Frame>) -> nat {
    frames[0].duration as nat + frames.last().duration as nat + 2 * time_between(
        frames,
        1,
        (frames.len() - 1) as nat,
    )
}

impl Playback {
    /// Whether playback stands where a ping-pong animation of `count` frames
    /// that is under way can stand: on its way forward it has left the
    /// first frame, and on its way backward the last.
    pub open spec fn is_under_way(self, count: nat) -> bool {
        &&& self.cursor < count
        &&& !self.ended
        &&& if self.backward {
            self.cursor + 1 < count
        } else {
            self.cursor >= 1
        }
    }
}

proof fn lemma_settle_stays_under_way(animation: AnimationView, playback: Playback)
    requires
        animation.is_playable(),
        animation.mode == Mode::PingPong,
        animation.frames.len() >= 2,
        playback.is_under_way(animation.frames.len()),
    ensures
        playback.settle(animation).is_under_way(animation.frames.len()),
    decreases playback.elapsed,
{
    if playback.is_due(animation) {
        let paid = (playback.elapsed - playback.frame(animation).duration) as nat;
        lemma_settle_stays_under_way(
            animation,
            Playback { elapsed: paid, ..playback.cross(animation) },
        );
    }
}

/// A ping-pong animation goes forth to its last frame, over its boundary
/// to the frame before it, and back to its first frame.
proof fn lemma_ping_pong_goes_forth_and_back(
    animation: AnimationView,
    playback: Playback,
    delta: nat,
)
    requires
        animation.is_playable(),
        animation.mode == Mode::PingPong,
        animation.frames.len() >= 2,
        !playback.ended,
        !playback.backward,
        1 <= playback.cursor < animation.frames.len(),
        playback.elapsed == 0,
        delta >= time_between(animation.frames, playback.cursor, animation.frames.len())
            + time_between(animation.frames, 1, (animation.frames.len() - 1) as nat),
    ensures
        playback.advance(animation, delta) == (Playback {
            cursor: 0,
            backward: true,
            ..playback
        }).advance(
            animation,
            (delta - time_between(animation.frames, playback.cursor, animation.frames.len())
                - time_between(animation.frames, 1, (animation.frames.len() - 1) as nat)) as nat,
        ),
{
    let frames = animation.frames;
    let last = (frames.len() - 1) as nat;
    lemma_time_between_splits(frames, playback.cursor, last, frames.len());
    lemma_time_of_one_frame(frames, last);
    lemma_skips_forward(animation, playback, delta, last);
    let at_last = Playback { cursor: last, elapsed: 0, ..playback };
    let after_last = (delta - time_between(frames, playback.cursor, last)) as nat;
    lemma_frame_in_range(animation, at_last);
    lemma_advance_crosses_boundary(animation, at_last, after_last);
    let turned = Playback { elapsed: 0, ..at_last.cross(animation) };
    let after_turn = (after_last - frames[last as int].duration) as nat;
    lemma_skips_backward(animation, turned, after_turn, 0);
}

/// A ping-pong animation goes back to its first frame, over its boundary
/// to the second frame, and forth to its last frame.
proof fn lemma_ping_pong_goes_back_and_forth(
    animation: AnimationView,
    playback: Playback,
    delta: nat,
)
    requires
        animation.is_playable(),
        animation.mode == Mode::PingPong,
        animation.frames.len() >= 2,
        !playback.ended,
        playback.backward,
        playback.cursor + 1 < animation.frames.len(),
        playback.elapsed == 0,
        delta >= time_between(animation.frames, 0, playback.cursor + 1) + time_between(
            animation.frames,
            1,
            (animation.frames.len() - 1) as nat,
        ),
    ensures
        playback.advance(animation, delta) == (Playback {
            cursor: (animation.frames.len() - 1) as nat,
            backward: false,
            ..playback
        }).advance(
            animation,
            (delta - time_between(animation.frames, 0, playback.cursor + 1) - time_between(
                animation.frames,
                1,
                (animation.frames.len() - 1) as nat,
            )) as nat,
        ),
{
    let frames = animation.frames;
    let last = (frames.len() - 1) as nat;
    lemma_time_between_splits(frames, 0, 1, playback.cursor + 1);
    lemma_time_of_one_frame(frames, 0);
    lemma_skips_backward(animation, playback, delta, 0);
    let at_first = Playback { cursor: 0, elapsed: 0, ..playback };
    let after_first = (delta - time_between(frames, 1, playback.cursor + 1)) as nat;
    lemma_frame_in_range(animation, at_first);
    lemma_advance_crosses_boundary(animation, at_first, after_first);
    let turned = Playback { elapsed: 0, ..at_first.cross(animation) };
    let after_turn = (after_first - frames[0].duration) as nat;
    lemma_skips_forward(animation, turned, after_turn, last);
}

/// A ping-pong animation is periodic: once it is under way, the time that
/// it takes to go forth and back once brings playback back to where it
/// stands.
pub proof fn lemma_ping_pong_is_periodic(
    animation: AnimationView,
    playback: Playback,
    delta: nat,
)
    requires
        animation.is_playable(),
        animation.mode == Mode::PingPong,
        animation.frames.len() >= 2,
        playback.is_under_way(animation.frames.len()),
    ensures
        playback.advance(animation, delta + ping_pong_period(animation.frames))
            == playback.advance(animation, delta),
{
    let frames = animation.frames;
    let last = (frames.len() - 1) as nat;
    let period = ping_pong_period(frames);
    let inner = time_between(frames, 1, last);
    let now = playback.advance(animation, delta);
    lemma_advance_adds_up(animation, playback, delta, period);
    lemma_advance_settles(animation, playback, delta);
    lemma_settle_stays_under_way(
        animation,
        Playback { elapsed: playback.elapsed + delta, ..playback },
    );
    lemma_frame_in_range(animation, now);
    lemma_time_of_one_frame(frames, 0);
    lemma_time_of_one_frame(frames, last);
    let start = Playback { elapsed: 0, ..now };
    if now.backward {
        // Back to the first frame and forth to the last, then back to here.
        lemma_time_between_splits(frames, 0, 1, now.cursor + 1);
        lemma_time_between_splits(frames, 1, now.cursor + 1, last);
        lemma_ping_pong_goes_back_and_forth(animation, start, now.elapsed + period);
        let at_last = Playback { cursor: last, backward: false, ..start };
        let after = (now.elapsed + period - time_between(frames, 0, now.cursor + 1) - inner) as nat;
        lemma_frame_in_range(animation, at_last);
        lemma_advance_crosses_boundary(animation, at_last, after);
        let turned = Playback { elapsed: 0, ..at_last.cross(animation) };
        let after_turn = (after - frames[last as int].duration) as nat;
        lemma_skips_backward(animation, turned, after_turn, now.cursor);
        let back = Playback { cursor: now.cursor, elapsed: 0, ..turned };
        lemma_advance_within_frame(animation, back, now.elapsed);
    } else {
        // Forth to the last frame and back to the first, then forth to here.
        lemma_time_between_splits(frames, now.cursor, last, frames.len());
        lemma_time_between_splits(frames, 1, now.cursor, last);
        lemma_ping_pong_goes_forth_and_back(animation, start, now.elapsed + period);
        let at_first = Playback { cursor: 0, backward: true, ..start };
        let after = (now.elapsed + period - time_between(frames, now.cursor, frames.len())
            - inner) as nat;
        lemma_frame_in_range(animation, at_first);
        lemma_advance_crosses_boundary(animation, at_first, after);
        let turned = Playback { elapsed: 0, ..at_first.cross(animation) };
        let after_turn = (after - frames[0].duration) as nat;
        lemma_skips_forward(animation, turned, after_turn, now.cursor);
        let back = Playback { cursor: now.cursor, elapsed: 0, ..turned };
        lemma_advance_within_frame(animation, back, now.elapsed);
    }
    assert(now.advance(animation, period) == now);
}

/// A ping-pong animation moving forward that crosses the boundary of its
/// last frame turns round: it steps back to the frame before the last and
/// does not wrap to the first.
pub proof fn lemma_ping_pong_turns_at_last_frame(
    animation: AnimationView,
    playback: Playback,
    delta: nat,
)
    requires
        animation.is_playable(),
        animation.mode == Mode::PingPong,
        animation.frames.len() >= 2,
        !playback.ended,
        !playback.backward,
        playback.cursor == animation.frames.len() - 1,
        playback.elapsed + delta >= animation.frames.last().duration,
        playback.elapsed + delta - animation.frames.last().duration
            < animation.frames[animation.frames.len() - 2].duration,
    ensures
        playback.advance(animation, delta) == (Playback {
            cursor: (animation.frames.len() - 2) as nat,
            backward: true,
            elapsed: (playback.elapsed + delta - animation.frames.last().duration) as nat,
            sprite: animation.frames[animation.frames.len() - 2].index as nat,
            ..playback
        }),
{
    lemma_frame_in_range(animation, playback);
    lemma_frame_in_range(animation, playback.cross(animation));
    lemma_advance_over_one_boundary(animation, playback, delta);
}

/// A ping-pong animation moving backward that crosses the boundary of its
/// first frame turns round again and steps to the second frame.
pub proof fn lemma_ping_pong_turns_at_first_frame(
    animation: AnimationView,
    playback: Playback,
    delta: nat,
)
    requires
        animation.is_playable(),
        animation.mode == Mode::PingPong,
        animation.frames.len() >= 2,
        !playback.ended,
        playback.backward,
        playback.cursor == 0,
        playback.elapsed + delta >= animation.frames[0].duration,
        playback.elapsed + delta - animation.frames[0].duration < animation.frames[1].duration,
    ensures
        playback.advance(animation, delta) == (Playback {
            cursor: 1,
            backward: false,
            elapsed: (playback.elapsed + delta - animation.frames[0].duration) as nat,
            sprite: animation.frames[1].index as nat,
            ..playback
        }),
{
    lemma_frame_in_range(animation, playback);
    lemma_frame_in_range(animation, playback.cross(animation));
    lemma_advance_over_one_boundary(animation, playback, delta);
}

/// A play-once animation that crosses the boundary of its last frame has
/// ended, and stays on that frame.
pub proof fn lemma_once_ends_after_last_frame(
    animation: AnimationView,
    playback: Playback,
    delta: nat,
)
    requires
        animation.is_playable(),
        animation.mode == Mode::Once,
        !playback.ended,
        playback.cursor == animation.frames.len() - 1,
        playback.elapsed + delta >= animation.frames.last().duration,
    ensures
        playback.advance(animation, delta) == (Playback {
            ended: true,
            elapsed: (playback.elapsed + delta - animation.frames.last().duration) as nat,
            sprite: animation.frames.last().index as nat,
            ..playback
        }),
{
    lemma_frame_in_range(animation, playback);
    lemma_advance_over_one_boundary(animation, playback, delta);
}

/// A play-once animation ends exactly when its time is up: from a cursor
/// within the frame list it has ended after an advance if and only if the
/// time accumulated covers all the frames from the cursor to the last. It
/// has then ended on its last frame.
pub proof fn lemma_once_ends_when_time_is_up(
    animation: AnimationView,
    playback: Playback,
    delta: nat,
)
    requires
        animation.is_playable(),
        animation.mode == Mode::Once,
        !playback.ended,
        playback.cursor < animation.frames.len(),
    ensures
        ({
            let after = playback.advance(animation, delta);
            let needed = time_between(animation.frames, playback.cursor, animation.frames.len());
            &&& after.ended <==> playback.elapsed + delta >= needed
            &&& after.ended ==> after == Playback {
                ended: true,
                cursor: (animation.frames.len() - 1) as nat,
                elapsed: (playback.elapsed + delta - needed) as nat,
                sprite: animation.frames.last().index as nat,
                ..playback
            }
        }),
    decreases animation.frames.len() - playback.cursor,
{
    let frames = animation.frames;
    lemma_frame_in_range(animation, playback);
    if playback.elapsed + delta < playback.frame(animation).duration {
        lemma_advance_within_frame(animation, playback, delta);
    } else if playback.cursor == frames.len() - 1 {
        lemma_time_of_one_frame(frames, playback.cursor);
        lemma_once_ends_after_last_frame(animation, playback, delta);
    } else {
        lemma_advance_crosses_boundary(animation, playback, delta);
        let left = (playback.elapsed + delta - playback.frame(animation).duration) as nat;
        lemma_once_ends_when_time_is_up(
            animation,
            Playback { elapsed: 0, ..playback.cross(animation) },
            left,
        );
    }
}

/// An animation that has ended stays ended, on the same frame, whatever
/// time passes.
pub proof fn lemma_ended_stays_ended(animation: AnimationView, playback: Playback, delta: nat)
    requires
        animation.is_playable(),
        playback.ended,
    ensures
        playback.advance(animation, delta) == (Playback {
            elapsed: playback.elapsed + delta,
            sprite: playback.frame(animation).index as nat,
            ..playback
        }),
{
}

/// A play-once animation that has ended on its last frame stays ended and
/// goes on showing the sprite of that frame, through any number of ticks.
pub proof fn lemma_once_stays_on_last_frame(
    animation: AnimationView,
    playback: Playback,
    deltas: Seq<nat>,
)
    requires
        animation.is_playable(),
        playback.ended,
        playback.cursor == animation.frames.len() - 1,
        playback.sprite == animation.frames.last().index,
    ensures
        ({
            let after = playback.advance_all(animation, deltas);
            &&& after.ended
            &&& after.cursor == playback.cursor
            &&& after.sprite == animation.frames.last().index
        }),
    decreases deltas.len(),
{
    if deltas.len() > 0 {
        lemma_frame_in_range(animation, playback);
        lemma_once_stays_on_last_frame(
            animation,
            playback.advance(animation, deltas[0]),
            deltas.skip(1),
        );
    }
}

/// Only a play-once animation ever ends.
pub proof fn lemma_only_once_ends(animation: AnimationView, playback: Playback, delta: nat)
    requires
        animation.is_playable(),
        animation.mode != Mode::Once,
        !playback.ended,
    ensures
        !playback.advance(animation, delta).ended,
{
    lemma_settle_settles(animation, Playback { elapsed: playback.elapsed + delta, ..playback });
}

/// A cursor that lies within the frame list stays within it, provided a
/// repeating animation loops back to one of its own frames.
pub proof fn lemma_cursor_stays_in_range(animation: AnimationView, playback: Playback, delta: nat)
    requires
        animation.is_playable(),
        playback.cursor < animation.frames.len(),
        animation.mode matches Mode::RepeatFrom(loop_from) ==> loop_from < animation.frames.len(),
    ensures
        playback.advance(animation, delta).cursor < animation.frames.len(),
{
    lemma_settle_stays_in_range(
        animation,
        Playback { elapsed: playback.elapsed + delta, ..playback },
    );
}

/// In an animation of a single frame the cursor never leaves that frame,
/// whatever the mode and however much time passes: a ping-pong animation
/// only flips its direction, a repeating one loops onto the same frame.
pub proof fn lemma_single_frame_keeps_cursor(
    animation: AnimationView,
    playback: Playback,
    delta: nat,
)
    requires
        animation.is_playable(),
        animation.frames.len() == 1,
        playback.cursor == 0,
        animation.mode matches Mode::RepeatFrom(loop_from) ==> loop_from == 0,
    ensures
        playback.advance(animation, delta).cursor == 0,
        playback.advance(animation, delta).sprite == animation.frames[0].index,
{
    lemma_cursor_stays_in_range(animation, playback, delta);
    lemma_advance_settles(animation, playback, delta);
}

} // verus!

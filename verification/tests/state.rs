use sprite_animation::animation::state::State;
use sprite_animation::animation::{Animation, Frame, FrameRate};

const UNIT: u64 = 1_000_000_000;

fn even(sprites: &[usize], duration: u64) -> Animation {
    Animation::from_indices(sprites.to_vec(), FrameRate::from_frame_duration(duration)).unwrap()
}

fn snapshot(state: &State) -> (usize, usize, u64, bool, bool) {
    (
        state.frame_cursor(),
        state.frame_index(),
        state.elapsed_in_frame(),
        state.is_going_backward(),
        state.is_ended(),
    )
}

#[test]
fn new_state_is_at_the_start() {
    assert_eq!(snapshot(&State::new()), (0, 0, 0, false, false));
    assert_eq!(snapshot(&State::default()), (0, 0, 0, false, false));
}

#[test]
fn reset_restores_the_start() {
    let animation = even(&[10, 11, 12], UNIT).ping_pong();
    let mut state = State::new();
    state.update(&animation, 3 * UNIT + 5);
    assert_eq!(snapshot(&state), (1, 11, 5, true, false));
    state.reset();
    assert_eq!(snapshot(&state), (0, 0, 0, false, false));
}

#[test]
fn reset_replays_an_ended_animation() {
    let animation = even(&[10, 11], UNIT).once();
    let mut state = State::new();
    state.update(&animation, 5 * UNIT);
    assert!(state.is_ended());
    state.reset();
    assert_eq!(snapshot(&state), (0, 0, 0, false, false));
    state.update(&animation, UNIT);
    assert_eq!(snapshot(&state), (1, 11, 0, false, false));
}

#[test]
fn update_without_time_shows_the_current_frame() {
    let animation = even(&[10, 11, 12], UNIT);
    let mut state = State::new();
    state.update(&animation, 0);
    assert_eq!(snapshot(&state), (0, 10, 0, false, false));
}

#[test]
fn time_within_a_frame_accumulates() {
    let animation = even(&[10, 11, 12], UNIT);
    let mut state = State::new();
    state.update(&animation, UNIT / 4);
    assert_eq!(snapshot(&state), (0, 10, UNIT / 4, false, false));
    state.update(&animation, UNIT / 4);
    assert_eq!(snapshot(&state), (0, 10, UNIT / 2, false, false));
    state.update(&animation, UNIT / 2 - 1);
    assert_eq!(snapshot(&state), (0, 10, UNIT - 1, false, false));
    state.update(&animation, 1);
    assert_eq!(snapshot(&state), (1, 11, 0, false, false));
}

#[test]
fn repeat_wraps_round_with_the_time_left_over() {
    let animation = even(&[10, 11, 12], UNIT);
    let mut state = State::new();
    state.update(&animation, 3 * UNIT + UNIT / 2);
    assert_eq!(state.frame_cursor(), 0);
    assert_eq!(state.elapsed_in_frame(), UNIT / 2);
    assert_eq!(state.frame_index(), 10);
    assert!(!state.is_ended());
}

#[test]
fn repeat_wraps_round_in_small_steps_too() {
    let animation = even(&[10, 11, 12], UNIT);
    let mut state = State::new();
    for _ in 0..7 {
        state.update(&animation, UNIT / 2);
    }
    assert_eq!(snapshot(&state), (0, 10, UNIT / 2, false, false));
}

#[test]
fn one_update_equals_many_that_add_up() {
    let frames = vec![
        Frame { index: 3, duration: 7 },
        Frame { index: 4, duration: 2 },
        Frame { index: 5, duration: 11 },
        Frame { index: 6, duration: 1 },
    ];
    let steps: [u64; 9] = [0, 1, 6, 13, 2, 40, 3, 3, 19];
    let animations = [
        Animation::from_frames(frames.clone()).unwrap(),
        Animation::from_frames(frames.clone()).unwrap().repeat_from(2),
        Animation::from_frames(frames.clone()).unwrap().ping_pong(),
        Animation::from_frames(frames.clone()).unwrap().once(),
    ];
    for animation in &animations {
        let mut stepped = State::new();
        let mut total = 0;
        for step in steps {
            stepped.update(animation, step);
            total += step;
            let mut whole = State::new();
            whole.update(animation, total);
            assert_eq!(snapshot(&stepped), snapshot(&whole));
        }
    }
}

#[test]
fn frames_of_different_durations_are_crossed_in_one_update() {
    let animation = Animation::from_frames(vec![
        Frame { index: 3, duration: 7 },
        Frame { index: 4, duration: 2 },
        Frame { index: 5, duration: 11 },
    ])
    .unwrap();
    let mut state = State::new();
    state.update(&animation, 7 + 2 + 4);
    assert_eq!(snapshot(&state), (2, 5, 4, false, false));
    state.update(&animation, 7 + 7 + 2);
    assert_eq!(snapshot(&state), (2, 5, 0, false, false));
}

#[test]
fn repeat_from_loops_back_to_its_index() {
    let animation = even(&[10, 11, 12, 13], UNIT).repeat_from(2);
    let mut state = State::new();
    state.update(&animation, 3 * UNIT);
    assert_eq!(snapshot(&state), (3, 13, 0, false, false));
    state.update(&animation, UNIT);
    assert_eq!(snapshot(&state), (2, 12, 0, false, false));
    state.update(&animation, 2 * UNIT + 9);
    assert_eq!(snapshot(&state), (2, 12, 9, false, false));
}

#[test]
fn repeat_from_beyond_the_frames_shows_the_frame_modulo_their_number() {
    let animation = even(&[10, 11, 12], UNIT).repeat_from(7);
    let mut state = State::new();
    state.update(&animation, 3 * UNIT);
    assert_eq!(snapshot(&state), (7, 11, 0, false, false));
    state.update(&animation, 5 * UNIT + 1);
    assert_eq!(snapshot(&state), (7, 11, 1, false, false));
}

#[test]
fn ping_pong_turns_round_at_the_last_frame() {
    let d = 40;
    let animation = even(&[0, 1, 2, 3], d).ping_pong();
    let mut state = State::new();
    state.update(&animation, 3 * d);
    assert_eq!(snapshot(&state), (3, 3, 0, false, false));
    state.update(&animation, d);
    assert_eq!(snapshot(&state), (2, 2, 0, true, false));
}

#[test]
fn ping_pong_turns_round_at_the_first_frame() {
    let d = 40;
    let animation = even(&[0, 1, 2, 3], d).ping_pong();
    let mut state = State::new();
    state.update(&animation, 6 * d);
    assert_eq!(snapshot(&state), (0, 0, 0, true, false));
    state.update(&animation, d);
    assert_eq!(snapshot(&state), (1, 1, 0, false, false));
}

#[test]
fn ping_pong_visits_the_frames_back_and_forth() {
    let d = 40;
    let animation = even(&[0, 1, 2, 3], d).ping_pong();
    let mut state = State::new();
    let mut seen = Vec::new();
    for _ in 0..14 {
        state.update(&animation, d);
        seen.push(state.frame_index());
    }
    assert_eq!(seen, vec![1, 2, 3, 2, 1, 0, 1, 2, 3, 2, 1, 0, 1, 2]);
}

#[test]
fn ping_pong_of_two_frames_alternates() {
    let animation = even(&[5, 6], 10).ping_pong();
    let mut state = State::new();
    let mut seen = Vec::new();
    for _ in 0..6 {
        state.update(&animation, 10);
        seen.push((state.frame_cursor(), state.is_going_backward()));
    }
    assert_eq!(
        seen,
        vec![(1, false), (0, true), (1, false), (0, true), (1, false), (0, true)]
    );
}

#[test]
fn ping_pong_of_one_frame_keeps_its_cursor() {
    let animation = even(&[5], 10).ping_pong();
    let mut state = State::new();
    state.update(&animation, 10);
    assert_eq!(snapshot(&state), (0, 5, 0, true, false));
    state.update(&animation, 10);
    assert_eq!(snapshot(&state), (0, 5, 0, false, false));
    state.update(&animation, 1_000_000 * 10 + 3);
    assert_eq!(snapshot(&state), (0, 5, 3, false, false));
}

#[test]
fn repeat_of_one_frame_keeps_its_cursor() {
    let animation = even(&[5], 10);
    let mut state = State::new();
    state.update(&animation, 1_000_001 * 10 + 7);
    assert_eq!(snapshot(&state), (0, 5, 7, false, false));
}

#[test]
fn once_ends_after_its_last_frame_and_stays_there() {
    let animation = even(&[20, 21, 22, 23, 24], UNIT).once();
    let mut state = State::new();
    state.update(&animation, 4 * UNIT);
    assert_eq!(snapshot(&state), (4, 24, 0, false, false));
    state.update(&animation, UNIT - 1);
    assert!(!state.is_ended());
    state.update(&animation, 1);
    assert!(state.is_ended());
    assert_eq!(state.frame_index(), 24);
    assert_eq!(state.frame_cursor(), 4);
    for _ in 0..5 {
        state.update(&animation, 3 * UNIT);
        assert!(state.is_ended());
        assert_eq!(state.frame_index(), 24);
        assert_eq!(state.frame_cursor(), 4);
    }
}

#[test]
fn once_ends_in_one_long_update() {
    let animation = even(&[20, 21, 22, 23, 24], UNIT).once();
    let mut state = State::new();
    state.update(&animation, 100 * UNIT);
    assert_eq!(snapshot(&state), (4, 24, 95 * UNIT, false, true));
}

#[test]
fn once_keeps_the_time_that_passes_after_its_end() {
    let animation = even(&[20, 21], 10).once();
    let mut state = State::new();
    state.update(&animation, 25);
    assert_eq!(snapshot(&state), (1, 21, 5, false, true));
    state.update(&animation, 100);
    assert_eq!(snapshot(&state), (1, 21, 105, false, true));
}

#[test]
fn once_of_one_frame_ends_after_it() {
    let animation = even(&[9], 10).once();
    let mut state = State::new();
    state.update(&animation, 9);
    assert_eq!(snapshot(&state), (0, 9, 9, false, false));
    state.update(&animation, 1);
    assert_eq!(snapshot(&state), (0, 9, 0, false, true));
}

#[test]
fn a_state_taken_to_a_shorter_animation_shows_the_frame_modulo_its_length() {
    let long = even(&[0, 1, 2, 3, 4, 5], 10);
    let short = even(&[40, 41, 42, 43], 10);
    let mut state = State::new();
    state.update(&long, 50);
    assert_eq!(snapshot(&state), (5, 5, 0, false, false));
    state.update(&short, 3);
    assert_eq!(snapshot(&state), (5, 41, 3, false, false));
    state.update(&short, 7);
    assert_eq!(snapshot(&state), (0, 40, 0, false, false));
}

#[test]
fn the_longest_times_are_taken() {
    let animation = Animation::from_frames(vec![
        Frame { index: 1, duration: u64::MAX },
        Frame { index: 2, duration: 1 },
    ])
    .unwrap();
    let mut state = State::new();
    state.update(&animation, u64::MAX - 1);
    assert_eq!(snapshot(&state), (0, 1, u64::MAX - 1, false, false));
    state.update(&animation, 1);
    assert_eq!(snapshot(&state), (1, 2, 0, false, false));
}

#[test]
fn a_state_can_be_copied() {
    let animation = even(&[10, 11, 12], UNIT);
    let mut state = State::new();
    state.update(&animation, UNIT + 3);
    let copy = state;
    state.update(&animation, UNIT);
    assert_eq!(snapshot(&copy), (1, 11, 3, false, false));
    assert_eq!(snapshot(&state), (2, 12, 3, false, false));
}

#[test]
fn a_repeating_animation_is_periodic() {
    let frames = vec![
        Frame { index: 3, duration: 7 },
        Frame { index: 4, duration: 2 },
        Frame { index: 5, duration: 11 },
        Frame { index: 6, duration: 1 },
    ];
    for (loop_from, cycle) in [(0, 21), (1, 14), (2, 12), (3, 1)] {
        let animation = Animation::from_frames(frames.clone()).unwrap().repeat_from(loop_from);
        for start in 21..60 {
            let mut state = State::new();
            state.update(&animation, start);
            let before = snapshot(&state);
            state.update(&animation, cycle);
            assert_eq!(snapshot(&state), before);
            state.update(&animation, 3 * cycle);
            assert_eq!(snapshot(&state), before);
        }
    }
}

#[test]
fn a_ping_pong_animation_is_periodic() {
    let animation = Animation::from_frames(vec![
        Frame { index: 3, duration: 7 },
        Frame { index: 4, duration: 2 },
        Frame { index: 5, duration: 11 },
        Frame { index: 6, duration: 1 },
    ])
    .unwrap()
    .ping_pong();
    let period = 7 + 1 + 2 * (2 + 11);
    for start in 7..80 {
        let mut state = State::new();
        state.update(&animation, start);
        let before = snapshot(&state);
        state.update(&animation, period);
        assert_eq!(snapshot(&state), before);
        state.update(&animation, 2 * period);
        assert_eq!(snapshot(&state), before);
    }
}

#[test]
fn playback_shows_each_frame_for_its_duration() {
    let animation = Animation::from_frames(vec![
        Frame { index: 3, duration: 7 },
        Frame { index: 4, duration: 2 },
        Frame { index: 5, duration: 11 },
    ])
    .unwrap()
    .once();
    let shown_at = |time: u64| {
        let mut state = State::new();
        state.update(&animation, time);
        (state.frame_index(), state.elapsed_in_frame(), state.is_ended())
    };
    assert_eq!(shown_at(0), (3, 0, false));
    assert_eq!(shown_at(6), (3, 6, false));
    assert_eq!(shown_at(7), (4, 0, false));
    assert_eq!(shown_at(8), (4, 1, false));
    assert_eq!(shown_at(9), (5, 0, false));
    assert_eq!(shown_at(19), (5, 10, false));
    assert_eq!(shown_at(20), (5, 0, true));
    assert_eq!(shown_at(25), (5, 5, true));
}

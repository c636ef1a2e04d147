use sprite_animation::animation::sprite::AnimationSpriteSheet;
use sprite_animation::player::animation::{PlayerAnimation, FRAME_AT_12_FPS, FRAME_AT_26_FPS};
use sprite_animation::player::input::{
    character_controller_system, input_handling_system, CharacterState, Heading, InputState,
    Keys, Movement, Shown,
};

type Sheet = AnimationSpriteSheet<PlayerAnimation>;

const NO_KEYS: Keys =
    Keys { up: false, down: false, left: false, right: false, attack: false, dash: false };

const NOWHERE: Heading = Heading { x: 0, y: 0 };

const EAST: Heading = Heading { x: 1, y: 0 };

fn character() -> CharacterState {
    CharacterState { dashing: false, attacking: false, last_move_direction: EAST }
}

fn asks(move_direction: Heading, attack: bool, dash: bool) -> InputState {
    InputState { move_direction, attack, dash }
}

fn selection(sheet: &Sheet) -> (PlayerAnimation, Option<PlayerAnimation>, bool) {
    (sheet.current_animation, sheet.queued_animation, sheet.locked)
}

fn playback(sheet: &Sheet) -> (usize, u64, bool) {
    (sheet.state.frame_cursor(), sheet.state.elapsed_in_frame(), sheet.state.is_ended())
}

#[test]
fn heading_follows_the_keys() {
    let cases = [
        (NO_KEYS, 0, 0),
        (Keys { up: true, ..NO_KEYS }, 0, 1),
        (Keys { down: true, ..NO_KEYS }, 0, -1),
        (Keys { left: true, ..NO_KEYS }, -1, 0),
        (Keys { right: true, ..NO_KEYS }, 1, 0),
        (Keys { up: true, right: true, ..NO_KEYS }, 1, 1),
        (Keys { down: true, left: true, ..NO_KEYS }, -1, -1),
        (Keys { up: true, down: true, ..NO_KEYS }, 0, 0),
        (Keys { left: true, right: true, up: true, ..NO_KEYS }, 0, 1),
        (Keys { up: true, down: true, left: true, right: true, ..NO_KEYS }, 0, 0),
        (Keys { attack: true, dash: true, ..NO_KEYS }, 0, 0),
    ];
    for (keys, x, y) in cases {
        let heading = Heading::from_keys(&keys);
        assert_eq!(heading, Heading { x, y });
        assert_eq!(heading.is_none(), x == 0 && y == 0);
    }
}

#[test]
fn default_input_asks_for_nothing() {
    assert_eq!(InputState::default(), asks(NOWHERE, false, false));
}

#[test]
fn next_attack_goes_round_the_chain() {
    assert_eq!(PlayerAnimation::Attack1.next_attack(), Some(PlayerAnimation::Attack2));
    assert_eq!(PlayerAnimation::Attack2.next_attack(), Some(PlayerAnimation::Attack3));
    assert_eq!(PlayerAnimation::Attack3.next_attack(), Some(PlayerAnimation::Attack1));
    for other in [
        PlayerAnimation::Idle,
        PlayerAnimation::Run,
        PlayerAnimation::RunStop,
        PlayerAnimation::Dash,
        PlayerAnimation::DashAttack,
    ] {
        assert_eq!(other.next_attack(), None);
    }
}

#[test]
fn input_selects_run_when_a_direction_is_asked_for() {
    let mut sheet = Sheet::new(PlayerAnimation::Idle, 10);
    let mut input_state = InputState::default();
    let keys = Keys { up: true, dash: true, ..NO_KEYS };
    let shown = input_handling_system(&mut sheet, &mut input_state, &keys, FRAME_AT_12_FPS);
    assert_eq!(shown, Shown { sprite_index: 1, held: false });
    assert_eq!(selection(&sheet), (PlayerAnimation::Run, None, false));
    assert_eq!(playback(&sheet), (0, 0, false));
    assert_eq!(input_state, asks(Heading { x: 0, y: 1 }, false, true));
}

#[test]
fn input_selects_idle_when_no_direction_is_asked_for() {
    let mut sheet = Sheet::new(PlayerAnimation::Run, 10);
    let mut input_state = asks(EAST, true, true);
    let shown = input_handling_system(&mut sheet, &mut input_state, &NO_KEYS, 10);
    assert_eq!(shown, Shown { sprite_index: 20, held: false });
    assert_eq!(selection(&sheet), (PlayerAnimation::Idle, None, false));
    assert_eq!(playback(&sheet), (0, 0, false));
    assert_eq!(input_state, asks(NOWHERE, false, false));
}

#[test]
fn input_keeps_a_running_animation_running() {
    let mut sheet = Sheet::new(PlayerAnimation::Run, 10);
    let mut input_state = InputState::default();
    let keys = Keys { left: true, ..NO_KEYS };
    let shown =
        input_handling_system(&mut sheet, &mut input_state, &keys, 2 * FRAME_AT_12_FPS + 1);
    assert_eq!(shown, Shown { sprite_index: 22, held: false });
    assert_eq!(selection(&sheet), (PlayerAnimation::Run, None, false));
    assert_eq!(playback(&sheet), (2, 1, false));
    let shown = input_handling_system(&mut sheet, &mut input_state, &keys, FRAME_AT_12_FPS);
    assert_eq!(shown, Shown { sprite_index: 23, held: false });
    assert_eq!(playback(&sheet), (3, 1, false));
}

#[test]
fn input_hears_only_the_attack_key_while_an_action_plays() {
    let mut sheet = Sheet::new(PlayerAnimation::Idle, 10);
    sheet.set_animation(PlayerAnimation::Attack1);
    let mut input_state = asks(EAST, false, false);
    let keys = Keys { up: true, attack: true, dash: true, ..NO_KEYS };
    let shown = input_handling_system(&mut sheet, &mut input_state, &keys, FRAME_AT_12_FPS);
    assert_eq!(shown, Shown { sprite_index: 91, held: true });
    assert_eq!(selection(&sheet), (PlayerAnimation::Attack1, None, true));
    assert_eq!(playback(&sheet), (1, 0, false));
    assert_eq!(input_state, asks(EAST, true, false));
}

#[test]
fn input_starts_the_queued_attack_when_the_current_one_ends() {
    let mut sheet = Sheet::new(PlayerAnimation::Idle, 10);
    sheet.set_animation(PlayerAnimation::Attack1);
    sheet.queued_animation = Some(PlayerAnimation::Attack2);
    let mut input_state = InputState::default();
    let keys = Keys { right: true, ..NO_KEYS };
    let shown = input_handling_system(&mut sheet, &mut input_state, &keys, 5 * FRAME_AT_12_FPS);
    assert_eq!(shown, Shown { sprite_index: 95, held: true });
    assert_eq!(
        selection(&sheet),
        (PlayerAnimation::Attack1, Some(PlayerAnimation::Attack2), true)
    );
    assert_eq!(input_state, InputState::default());
    let shown = input_handling_system(&mut sheet, &mut input_state, &keys, FRAME_AT_12_FPS);
    assert_eq!(shown, Shown { sprite_index: 95, held: false });
    assert_eq!(selection(&sheet), (PlayerAnimation::Attack2, None, true));
    assert_eq!(playback(&sheet), (0, 0, false));
    assert_eq!(input_state, asks(EAST, false, false));
    let shown = input_handling_system(&mut sheet, &mut input_state, &keys, FRAME_AT_12_FPS);
    assert_eq!(shown, Shown { sprite_index: 101, held: true });
    assert_eq!(selection(&sheet), (PlayerAnimation::Attack2, None, true));
}

#[test]
fn input_frees_the_character_when_an_action_ends_with_nothing_queued() {
    let mut sheet = Sheet::new(PlayerAnimation::Idle, 10);
    sheet.set_animation(PlayerAnimation::Dash);
    let mut input_state = InputState::default();
    let shown =
        input_handling_system(&mut sheet, &mut input_state, &NO_KEYS, 10 * FRAME_AT_26_FPS);
    assert_eq!(shown, Shown { sprite_index: 89, held: false });
    assert_eq!(selection(&sheet), (PlayerAnimation::Idle, None, false));
    assert_eq!(playback(&sheet), (0, 0, false));
}

#[test]
fn control_lets_a_free_character_walk() {
    let mut sheet = Sheet::new(PlayerAnimation::Run, 10);
    let mut who = character();
    let north = Heading { x: 0, y: 1 };
    let moves = character_controller_system(&mut who, &mut sheet, &asks(north, false, false));
    assert_eq!(moves, Movement { walk: true, dash: false });
    assert_eq!(who, CharacterState { dashing: false, attacking: false, last_move_direction: north });
    assert_eq!(selection(&sheet), (PlayerAnimation::Run, None, false));
}

#[test]
fn control_keeps_a_character_still_without_a_direction() {
    let mut sheet = Sheet::new(PlayerAnimation::Idle, 10);
    let mut who = character();
    let moves = character_controller_system(&mut who, &mut sheet, &asks(NOWHERE, false, false));
    assert_eq!(moves, Movement { walk: false, dash: false });
    assert_eq!(who, character());
    assert_eq!(selection(&sheet), (PlayerAnimation::Idle, None, false));
}

#[test]
fn control_starts_a_dash() {
    let mut sheet = Sheet::new(PlayerAnimation::Run, 10);
    sheet.update_state(FRAME_AT_12_FPS + 1);
    let mut who = character();
    let north = Heading { x: 0, y: 1 };
    let moves = character_controller_system(&mut who, &mut sheet, &asks(north, false, true));
    assert_eq!(moves, Movement { walk: true, dash: true });
    assert_eq!(who, CharacterState { dashing: true, attacking: false, last_move_direction: north });
    assert_eq!(selection(&sheet), (PlayerAnimation::Dash, None, true));
    assert_eq!(playback(&sheet), (0, 0, false));
}

#[test]
fn control_cannot_cancel_a_dash() {
    let mut sheet = Sheet::new(PlayerAnimation::Idle, 10);
    let mut who = character();
    character_controller_system(&mut who, &mut sheet, &asks(NOWHERE, false, true));
    sheet.update_state(3 * FRAME_AT_26_FPS);
    let west = Heading { x: -1, y: 0 };
    let moves = character_controller_system(&mut who, &mut sheet, &asks(west, false, true));
    assert_eq!(moves, Movement { walk: false, dash: true });
    assert_eq!(who, CharacterState { dashing: true, attacking: false, last_move_direction: EAST });
    assert_eq!(selection(&sheet), (PlayerAnimation::Dash, None, true));
    assert_eq!(playback(&sheet), (3, 0, false));
}

#[test]
fn control_ends_a_dash_when_the_sheet_is_unlocked() {
    let mut sheet = Sheet::new(PlayerAnimation::Idle, 10);
    let mut who = CharacterState { dashing: true, ..character() };
    let moves = character_controller_system(&mut who, &mut sheet, &asks(EAST, false, false));
    assert_eq!(moves, Movement { walk: false, dash: false });
    assert_eq!(who, character());
}

#[test]
fn control_starts_the_first_attack() {
    let mut sheet = Sheet::new(PlayerAnimation::Idle, 10);
    let mut who = character();
    let moves = character_controller_system(&mut who, &mut sheet, &asks(NOWHERE, true, false));
    assert_eq!(moves, Movement { walk: false, dash: false });
    assert_eq!(who, CharacterState { attacking: true, ..character() });
    assert_eq!(selection(&sheet), (PlayerAnimation::Attack1, None, true));
}

#[test]
fn control_queues_the_next_attack_once() {
    let mut sheet = Sheet::new(PlayerAnimation::Idle, 10);
    let mut who = character();
    character_controller_system(&mut who, &mut sheet, &asks(NOWHERE, true, false));
    sheet.update_state(FRAME_AT_12_FPS);
    character_controller_system(&mut who, &mut sheet, &asks(NOWHERE, true, false));
    assert_eq!(
        selection(&sheet),
        (PlayerAnimation::Attack1, Some(PlayerAnimation::Attack2), true)
    );
    assert_eq!(playback(&sheet), (1, 0, false));
    sheet.current_animation = PlayerAnimation::Attack2;
    character_controller_system(&mut who, &mut sheet, &asks(NOWHERE, true, false));
    assert_eq!(
        selection(&sheet),
        (PlayerAnimation::Attack2, Some(PlayerAnimation::Attack2), true)
    );
    assert!(who.attacking);
}

#[test]
fn control_chains_the_attacks_in_a_cycle() {
    for (current, next) in [
        (PlayerAnimation::Attack1, PlayerAnimation::Attack2),
        (PlayerAnimation::Attack2, PlayerAnimation::Attack3),
        (PlayerAnimation::Attack3, PlayerAnimation::Attack1),
    ] {
        let mut sheet = Sheet::new(PlayerAnimation::Idle, 10);
        sheet.set_animation(current);
        let mut who = CharacterState { attacking: true, ..character() };
        character_controller_system(&mut who, &mut sheet, &asks(EAST, true, false));
        assert_eq!(selection(&sheet), (current, Some(next), true));
    }
}

#[test]
fn control_queues_nothing_after_an_animation_that_is_no_attack() {
    let mut sheet = Sheet::new(PlayerAnimation::Idle, 10);
    sheet.set_animation(PlayerAnimation::Dash);
    let mut who = CharacterState { attacking: true, dashing: true, ..character() };
    character_controller_system(&mut who, &mut sheet, &asks(EAST, true, false));
    assert_eq!(selection(&sheet), (PlayerAnimation::Dash, None, true));
    assert!(who.attacking);
}

#[test]
fn control_ends_the_attacks_when_the_sheet_is_unlocked() {
    let mut sheet = Sheet::new(PlayerAnimation::Idle, 10);
    let mut who = CharacterState { attacking: true, ..character() };
    let moves = character_controller_system(&mut who, &mut sheet, &asks(EAST, false, false));
    assert_eq!(moves, Movement { walk: false, dash: false });
    assert_eq!(who, character());
}

#[test]
fn control_does_not_start_an_attack_on_a_locked_sheet() {
    let mut sheet = Sheet::new(PlayerAnimation::Idle, 10);
    sheet.set_animation(PlayerAnimation::Dash);
    sheet.update_state(FRAME_AT_26_FPS);
    let mut who = CharacterState { dashing: true, ..character() };
    let moves = character_controller_system(&mut who, &mut sheet, &asks(EAST, true, false));
    assert_eq!(moves, Movement { walk: false, dash: true });
    assert_eq!(who, CharacterState { dashing: true, attacking: true, ..character() });
    assert_eq!(selection(&sheet), (PlayerAnimation::Dash, None, true));
    assert_eq!(playback(&sheet), (1, 0, false));
}

#[test]
fn a_chain_of_three_attacks_plays_through() {
    let mut sheet = Sheet::new(PlayerAnimation::Idle, 10);
    let mut who = character();
    let mut input_state = InputState::default();
    let press = Keys { attack: true, ..NO_KEYS };
    let mut played = Vec::new();
    for tick in 0..40 {
        let keys = if tick % 4 == 0 && tick < 16 { press } else { NO_KEYS };
        input_handling_system(&mut sheet, &mut input_state, &keys, FRAME_AT_12_FPS);
        character_controller_system(&mut who, &mut sheet, &input_state);
        if played.last() != Some(&sheet.current_animation) {
            played.push(sheet.current_animation);
        }
    }
    assert_eq!(
        played,
        vec![
            PlayerAnimation::Attack1,
            PlayerAnimation::Attack2,
            PlayerAnimation::Attack3,
            PlayerAnimation::Idle,
        ]
    );
    assert_eq!(who, character());
    assert_eq!(selection(&sheet), (PlayerAnimation::Idle, None, false));
}

#[test]
fn less_than_a_frame_is_carried_from_tick_to_tick() {
    let mut sheet = Sheet::new(PlayerAnimation::Idle, 10);
    let mut who = character();
    let mut input_state = InputState::default();
    let mut seed: u64 = 7;
    for _ in 0..2_000 {
        seed = seed.wrapping_mul(6364136223846793005).wrapping_add(1442695040888963407);
        let bits = seed >> 33;
        let keys = Keys {
            up: bits & 1 != 0,
            down: bits & 2 != 0,
            left: bits & 4 != 0,
            right: bits & 8 != 0,
            attack: bits & 48 == 48,
            dash: bits & 192 == 192,
        };
        let delta = (bits >> 8) % (3 * FRAME_AT_12_FPS);
        input_handling_system(&mut sheet, &mut input_state, &keys, delta);
        character_controller_system(&mut who, &mut sheet, &input_state);
        assert!(!sheet.state.is_ended());
        let frame = if sheet.current_animation == PlayerAnimation::Dash {
            FRAME_AT_26_FPS
        } else {
            FRAME_AT_12_FPS
        };
        assert!(sheet.state.elapsed_in_frame() < frame);
        if sheet.locked {
            assert!(!matches!(
                sheet.current_animation,
                PlayerAnimation::Idle | PlayerAnimation::Run | PlayerAnimation::RunStop
            ));
        }
    }
}

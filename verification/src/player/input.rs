//! What a tick of input does to the player character: which animation is
//! selected, which action starts, which one is queued, and how the
//! character may move.
//!
//! Reading the keyboard and moving the character on screen are left to the
//! caller. The rules here take the keys as plain values and answer with
//! plain values.

use super::animation::{PlayerAnimation, FRAME_AT_12_FPS};
use crate::animation::sprite::{AnimationLookup, AnimationSpriteSheet, SheetView};
use crate::animation::laws::{lemma_advance_settles, lemma_only_once_ends};
use crate::animation::state::Playback;
use crate::animation::Mode;
use vstd::prelude::*;

verus! {

/// The keys as read in one tick.
#[derive(Debug, Clone, Copy, PartialEq, Eq, Structural)]
pub struct Keys {
    /// The key for moving up is held down.
    pub up: bool,
    /// The key for moving down is held down.
    pub down: bool,
    /// The key for moving left is held down.
    pub left: bool,
    /// The key for moving right is held down.
    pub right: bool,
    /// The attack key went down in this tick.
    pub attack: bool,
    /// The dash key went down in this tick.
    pub dash: bool,
}

/// A direction on the plane: each component is -1, 0 or 1.
#[derive(Debug, Clone, Copy, PartialEq, Eq, Structural)]
pub struct Heading {
    /// Positive to the right.
    pub x: i8,
    /// Positive upward.
    pub y: i8,
}

impl Heading {
    /// No direction at all.
    pub open spec fn none() -> Heading {
        Heading { x: 0, y: 0 }
    }

    /// The direction that the held keys ask for. Opposite keys cancel.
    pub open spec fn of(keys: Keys) -> Heading {
        Heading {
            x: if keys.right && !keys.left {
                1i8
            } else if keys.left && !keys.right {
                -1i8
            } else {
                0i8
            },
            y: if keys.up && !keys.down {
                1i8
            } else if keys.down && !keys.up {
                -1i8
            } else {
                0i8
            },
        }
    }

    /// Reads the direction that the held keys ask for.
    pub fn from_keys(keys: &Keys) -> (heading: Heading)
        ensures
            heading == Heading::of(*keys),
    {
        let mut x: i8 = 0;
        let mut y: i8 = 0;
        if keys.up {
            y += 1;
        }
        if keys.down {
            y -= 1;
        }
        if keys.left {
            x -= 1;
        }
        if keys.right {
            x += 1;
        }
        Heading { x, y }
    }

    /// Whether this is no direction at all.
    pub fn is_none(&self) -> (none: bool)
        ensures
            none == (*self == Heading::none()),
    {
        self.x == 0 && self.y == 0
    }
}

/// What the player asks of the character, as of the last tick of input.
#[derive(Debug, Clone, Copy, PartialEq, Eq, Structural)]
pub struct InputState {
    /// Where the player wants to go.
    pub move_direction: Heading,
    /// The player asks for an attack.
    pub attack: bool,
    /// The player asks for a dash.
    pub dash: bool,
}

impl Default for InputState {
    fn default() -> (input_state: Self)
        ensures
            input_state == (InputState {
                move_direction: Heading::none(),
                attack: false,
                dash: false,
            }),
    {
        InputState { move_direction: Heading { x: 0, y: 0 }, attack: false, dash: false }
    }
}

/// The actions that the character is engaged in.
#[derive(Debug, Clone, Copy, PartialEq, Eq, Structural)]
pub struct CharacterState {
    /// A dash is under way.
    pub dashing: bool,
    /// An attack, or a chain of attacks, is under way.
    pub attacking: bool,
    /// Where the character last walked; a dash goes there.
    pub last_move_direction: Heading,
}

/// How the character moves in one tick.
#[derive(Debug, Clone, Copy, PartialEq, Eq, Structural)]
pub struct Movement {
    /// The character walks in the direction that the player asks for.
    pub walk: bool,
    /// The character dashes in the direction it last walked.
    pub dash: bool,
}

/// What a tick of input leaves to be seen.
#[derive(Debug, Clone, Copy, PartialEq, Eq, Structural)]
pub struct Shown {
    /// The sprite to display.
    pub sprite_index: usize,
    /// A locked animation is still playing: of the keys only the attack key
    /// was taken note of.
    pub held: bool,
}

/// The attack that follows `current` in the chain of attacks, if `current`
/// is one of them. The chain is a cycle of three.
pub open spec fn next_attack(current: PlayerAnimation) -> Option<PlayerAnimation> {
    match current {
        PlayerAnimation::Attack1 => Some(PlayerAnimation::Attack2),
        PlayerAnimation::Attack2 => Some(PlayerAnimation::Attack3),
        PlayerAnimation::Attack3 => Some(PlayerAnimation::Attack1),
        _ => None,
    }
}

/// The animation of a character that is free to move: running if the
/// player asks for a direction, idle if not.
pub open spec fn free_animation(direction: Heading) -> PlayerAnimation {
    if direction == Heading::none() {
        PlayerAnimation::Idle
    } else {
        PlayerAnimation::Run
    }
}

/// The sheet and the input state after a tick of input.
///
/// Time passes and an ended lock is released. While a locked animation is
/// still playing only the attack key is taken note of. Otherwise the
/// direction and the dash key are taken note of as well, and the animation
/// of a free character is asked for.
pub open spec fn after_input(
    sheet: SheetView<PlayerAnimation>,
    input_state: InputState,
    keys: Keys,
    delta: nat,
) -> (SheetView<PlayerAnimation>, InputState) {
    if sheet.update_state(delta).is_held() {
        (sheet.tick(delta), InputState { attack: keys.attack, ..input_state })
    } else {
        (
            sheet.tick(delta).set_animation(free_animation(Heading::of(keys))),
            InputState { move_direction: Heading::of(keys), attack: keys.attack, dash: keys.dash },
        )
    }
}

/// Whether the character walks in a tick: it is neither dashing nor
/// attacking when the tick begins, and the player asks for a direction.
pub open spec fn walks(character: CharacterState, input_state: InputState) -> bool {
    !character.dashing && !character.attacking && input_state.move_direction != Heading::none()
}

/// The character once it has walked, if it walks: it remembers where.
pub open spec fn after_walk(character: CharacterState, input_state: InputState) -> CharacterState {
    if walks(character, input_state) {
        CharacterState { last_move_direction: input_state.move_direction, ..character }
    } else {
        character
    }
}

/// The character and the sheet once a request for a dash has been heard:
/// a character that is not dashing starts to, and asks for the dash
/// animation.
pub open spec fn dash_started(
    character: CharacterState,
    sheet: SheetView<PlayerAnimation>,
    input_state: InputState,
) -> (CharacterState, SheetView<PlayerAnimation>) {
    if input_state.dash && !character.dashing {
        (
            CharacterState { dashing: true, ..character },
            sheet.set_animation(PlayerAnimation::Dash),
        )
    } else {
        (character, sheet)
    }
}

/// Whether a dash goes on: the character is dashing and the sheet is
/// locked. A dashing character on an unlocked sheet has finished its dash.
pub open spec fn dash_goes_on(character: CharacterState, sheet: SheetView<PlayerAnimation>) -> bool {
    character.dashing && sheet.locked
}

/// The character and the sheet once a request for an attack has been dealt
/// with.
///
/// A character that is not attacking starts to, and asks for the first
/// attack. One that is attacking, with nothing queued, queues the attack
/// that follows the current one. Without a request, an attacking character
/// on an unlocked sheet has finished its attacks.
pub open spec fn attack_handled(
    character: CharacterState,
    sheet: SheetView<PlayerAnimation>,
    input_state: InputState,
) -> (CharacterState, SheetView<PlayerAnimation>) {
    if input_state.attack && !character.attacking {
        (
            CharacterState { attacking: true, ..character },
            sheet.set_animation(PlayerAnimation::Attack1),
        )
    } else if input_state.attack && character.attacking && sheet.queued is None {
        (character, SheetView { queued: next_attack(sheet.current), ..sheet })
    } else if character.attacking && !sheet.locked {
        (CharacterState { attacking: false, ..character }, sheet)
    } else {
        (character, sheet)
    }
}

/// The character and the sheet after the character has been controlled for
/// one tick: it walks, then dashes, then attacks.
pub open spec fn after_control(
    character: CharacterState,
    sheet: SheetView<PlayerAnimation>,
    input_state: InputState,
) -> (CharacterState, SheetView<PlayerAnimation>) {
    let walked = after_walk(character, input_state);
    let (started, dash_sheet) = dash_started(walked, sheet, input_state);
    let dashed = CharacterState { dashing: dash_goes_on(started, dash_sheet), ..started };
    attack_handled(dashed, dash_sheet, input_state)
}

/// How the character moves in a tick.
pub open spec fn movement(
    character: CharacterState,
    sheet: SheetView<PlayerAnimation>,
    input_state: InputState,
) -> Movement {
    let (started, dash_sheet) = dash_started(after_walk(character, input_state), sheet, input_state);
    Movement { walk: walks(character, input_state), dash: dash_goes_on(started, dash_sheet) }
}

impl PlayerAnimation {
    /// The attack that follows this one in the chain of attacks, if this is
    /// one of them.
    pub fn next_attack(self) -> (next: Option<PlayerAnimation>)
        ensures
            next == next_attack(self),
    {
        match self {
            PlayerAnimation::Attack1 => Some(PlayerAnimation::Attack2),
            PlayerAnimation::Attack2 => Some(PlayerAnimation::Attack3),
            PlayerAnimation::Attack3 => Some(PlayerAnimation::Attack1),
            _ => None,
        }
    }
}

/// Handles one tick of input: advances the animation by `delta`
/// nanoseconds, releases an ended lock, and, unless a locked animation is
/// still playing, takes note of what the player asks for and selects the
/// running or the idle animation.
///
/// Returns the sprite to display, which is that of the current frame once
/// time has advanced and before any animation is replaced, and whether a
/// locked animation is still playing.
///
/// The accumulated time must stay representable.
pub fn input_handling_system(
    sprite_sheet: &mut AnimationSpriteSheet<PlayerAnimation>,
    input_state: &mut InputState,
    keys: &Keys,
    delta: u64,
) -> (shown: Shown)
    requires
        old(sprite_sheet)@.playback.elapsed + delta <= u64::MAX,
    ensures
        (final(sprite_sheet)@, *final(input_state)) == after_input(
            old(sprite_sheet)@,
            *old(input_state),
            *keys,
            delta as nat,
        ),
        shown.sprite_index == old(sprite_sheet)@.update_state(delta as nat).playback.sprite,
        shown.held == old(sprite_sheet)@.update_state(delta as nat).is_held(),
{
    sprite_sheet.update_state(delta);
    let sprite_index = sprite_sheet.state.frame_index();
    input_state.attack = keys.attack;
    if !sprite_sheet.release() {
        return Shown { sprite_index, held: true };
    }
    let move_direction = Heading::from_keys(keys);
    if move_direction.is_none() {
        sprite_sheet.set_animation(PlayerAnimation::Idle);
    } else {
        sprite_sheet.set_animation(PlayerAnimation::Run);
    }
    input_state.move_direction = move_direction;
    input_state.dash = keys.dash;
    Shown { sprite_index, held: false }
}

/// Controls the character for one tick: decides whether it walks, starts
/// or ends a dash, and starts, chains or ends an attack.
///
/// Returns how the character moves in this tick.
pub fn character_controller_system(
    character: &mut CharacterState,
    sprite_sheet: &mut AnimationSpriteSheet<PlayerAnimation>,
    input_state: &InputState,
) -> (moves: Movement)
    ensures
        (*final(character), final(sprite_sheet)@) == after_control(
            *old(character),
            old(sprite_sheet)@,
            *input_state,
        ),
        moves == movement(*old(character), old(sprite_sheet)@, *input_state),
{
    let mut walk = false;
    let mut dash = false;
    if !character.dashing && !character.attacking {
        if !input_state.move_direction.is_none() {
            character.last_move_direction = input_state.move_direction;
            walk = true;
        }
    }
    if input_state.dash && !character.dashing {
        character.dashing = true;
        sprite_sheet.set_animation(PlayerAnimation::Dash);
    }
    if character.dashing {
        if !sprite_sheet.locked {
            character.dashing = false;
        } else {
            dash = true;
        }
    }
    if input_state.attack && !character.attacking {
        character.attacking = true;
        sprite_sheet.set_animation(PlayerAnimation::Attack1);
    } else if input_state.attack && character.attacking && sprite_sheet.queued_animation.is_none() {
        sprite_sheet.queued_animation = sprite_sheet.current_animation.next_attack();
    } else if character.attacking && !sprite_sheet.locked {
        character.attacking = false;
    }
    Movement { walk, dash }
}

/// Every action of the player animates once and thereby locks the sheet;
/// the idle and running animations repeat and leave it unlocked.
pub proof fn lemma_actions_lock(key: PlayerAnimation)
    ensures
        PlayerAnimation::animation_of(key).is_playable(),
        key.is_action() <==> PlayerAnimation::animation_of(key).mode == Mode::Once,
        next_attack(key) matches Some(next) ==> next.is_action() && next != key,
{
}

/// A tick of control never interrupts a locked animation: the animation,
/// its playback and the lock stay as they are. At most the queue is
/// filled.
pub proof fn lemma_control_respects_lock(
    character: CharacterState,
    sheet: SheetView<PlayerAnimation>,
    input_state: InputState,
)
    requires
        sheet.locked,
    ensures
        ({
            let (_, after) = after_control(character, sheet, input_state);
            &&& after == SheetView { queued: after.queued, ..sheet }
            &&& sheet.queued is Some ==> after.queued == sheet.queued
        }),
{
}

/// An attack asked for while the character attacks is queued once: the
/// attack that follows the current one enters an empty queue, and a queue
/// that is filled stays as it is, however often the key is pressed.
pub proof fn lemma_attack_is_queued_once(
    character: CharacterState,
    sheet: SheetView<PlayerAnimation>,
    input_state: InputState,
)
    requires
        character.attacking,
        input_state.attack,
        sheet.locked,
    ensures
        ({
            let (after_character, after) = after_control(character, sheet, input_state);
            &&& after_character.attacking
            &&& after.queued == if sheet.queued is None {
                next_attack(sheet.current)
            } else {
                sheet.queued
            }
        }),
{
}

/// An attack asked for by a character that is free starts the first attack
/// from its first frame and locks the sheet.
pub proof fn lemma_attack_starts(
    character: CharacterState,
    sheet: SheetView<PlayerAnimation>,
    input_state: InputState,
)
    requires
        !character.attacking,
        !character.dashing,
        !sheet.locked,
        sheet.current != PlayerAnimation::Attack1,
        input_state.attack,
        !input_state.dash,
    ensures
        ({
            let (after_character, after) = after_control(character, sheet, input_state);
            &&& after_character.attacking
            &&& after == SheetView {
                current: PlayerAnimation::Attack1,
                locked: true,
                playback: Playback::fresh(),
                ..sheet
            }
        }),
{
}

/// A dash asked for by a character that is free starts the dash animation
/// from its first frame and locks the sheet, and the character dashes in
/// this very tick.
pub proof fn lemma_dash_starts(
    character: CharacterState,
    sheet: SheetView<PlayerAnimation>,
    input_state: InputState,
)
    requires
        !character.dashing,
        !sheet.locked,
        sheet.current != PlayerAnimation::Dash,
        input_state.dash,
        !input_state.attack,
    ensures
        ({
            let (after_character, after) = after_control(character, sheet, input_state);
            &&& after_character.dashing
            &&& movement(character, sheet, input_state).dash
            &&& after == SheetView {
                current: PlayerAnimation::Dash,
                locked: true,
                playback: Playback::fresh(),
                ..sheet
            }
        }),
{
}

/// A dash cannot be cancelled: as long as the sheet is locked, a dashing
/// character goes on dashing whatever the player asks for, and it does not
/// walk.
pub proof fn lemma_dash_is_not_cancelled(
    character: CharacterState,
    sheet: SheetView<PlayerAnimation>,
    input_state: InputState,
)
    requires
        character.dashing,
        sheet.locked,
    ensures
        after_control(character, sheet, input_state).0.dashing,
        movement(character, sheet, input_state) == (Movement { walk: false, dash: true }),
{
}

/// Actions end with the lock: on an unlocked sheet, with no new request, a
/// character is neither dashing nor attacking after a tick of control.
pub proof fn lemma_actions_end_with_lock(
    character: CharacterState,
    sheet: SheetView<PlayerAnimation>,
    input_state: InputState,
)
    requires
        !sheet.locked,
        !input_state.dash,
        !input_state.attack,
    ensures
        ({
            let (after_character, after) = after_control(character, sheet, input_state);
            &&& !after_character.dashing
            &&& !after_character.attacking
            &&& after == sheet
        }),
{
}

/// While a locked animation is still playing, a tick of input only lets
/// time pass: no animation is selected, and of the keys only the attack
/// key is taken note of.
pub proof fn lemma_held_sheet_hears_attack_only(
    sheet: SheetView<PlayerAnimation>,
    input_state: InputState,
    keys: Keys,
    delta: nat,
)
    requires
        sheet.locked,
        !sheet.playback.advance(sheet.animation(), delta).ended,
    ensures
        after_input(sheet, input_state, keys, delta) == (
            sheet.update_state(delta),
            InputState { attack: keys.attack, ..input_state },
        ),
{
}

/// The tick in which a locked action ends with another action queued
/// starts the queued action: it becomes the current animation and plays
/// from its first frame, the queue is emptied, and the sheet is locked
/// again, so that the idle or running animation does not replace it. This
/// is stated of a queued action other than the one that has ended.
pub proof fn lemma_queued_action_follows(
    sheet: SheetView<PlayerAnimation>,
    input_state: InputState,
    keys: Keys,
    delta: nat,
    next: PlayerAnimation,
)
    requires
        sheet.locked,
        sheet.queued == Some(next),
        next != sheet.current,
        next.is_action(),
        sheet.playback.advance(sheet.animation(), delta).ended,
    ensures
        after_input(sheet, input_state, keys, delta).0 == (SheetView {
            current: next,
            queued: None,
            locked: true,
            playback: Playback::fresh(),
            ..sheet
        }),
{
}

/// The tick in which a locked action ends with nothing queued hands the
/// character back to the player: the sheet is unlocked and shows the idle
/// or the running animation from its first frame.
pub proof fn lemma_ended_action_frees_character(
    sheet: SheetView<PlayerAnimation>,
    input_state: InputState,
    keys: Keys,
    delta: nat,
)
    requires
        sheet.locked,
        sheet.current.is_action(),
        sheet.queued is None,
        sheet.playback.advance(sheet.animation(), delta).ended,
    ensures
        after_input(sheet, input_state, keys, delta).0 == (SheetView {
            current: free_animation(Heading::of(keys)),
            locked: false,
            playback: Playback::fresh(),
            ..sheet
        }),
{
}

/// Every frame of a player animation lasts as long as the table says,
/// wherever the cursor stands.
pub proof fn lemma_frames_last_alike(key: PlayerAnimation, playback: Playback)
    ensures
        playback.frame(PlayerAnimation::animation_of(key)).duration == key.frame_duration(),
        0 < key.frame_duration() <= FRAME_AT_12_FPS,
{
    let frames = PlayerAnimation::animation_of(key).frames;
    vstd::arithmetic::div_mod::lemma_mod_bound(playback.cursor as int, frames.len() as int);
}

/// Whether the sheet of the player stands as the rules of this module
/// leave it: the current animation has not ended, the time accumulated
/// falls within its current frame, and only an action locks the sheet.
pub open spec fn is_settled(sheet: SheetView<PlayerAnimation>) -> bool {
    &&& !sheet.playback.ended
    &&& sheet.playback.elapsed < sheet.current.frame_duration()
    &&& sheet.locked ==> sheet.current.is_action()
}

/// A sheet that has just been made is settled.
pub proof fn lemma_new_sheet_is_settled(key: PlayerAnimation, column_count: nat)
    ensures
        is_settled(
            SheetView {
                current: key,
                queued: None,
                locked: false,
                column_count,
                playback: Playback::fresh(),
            },
        ),
{
}

/// A tick of input keeps a settled sheet settled, whatever the keys and
/// however much time has passed. So less than the duration of a frame is
/// ever carried from one tick into the next.
pub proof fn lemma_input_keeps_sheet_settled(
    sheet: SheetView<PlayerAnimation>,
    input_state: InputState,
    keys: Keys,
    delta: nat,
)
    requires
        is_settled(sheet),
    ensures
        is_settled(after_input(sheet, input_state, keys, delta).0),
{
    let animation = sheet.animation();
    let advanced = sheet.playback.advance(animation, delta);
    lemma_advance_settles(animation, sheet.playback, delta);
    lemma_frames_last_alike(sheet.current, advanced);
    if !sheet.current.is_action() {
        lemma_only_once_ends(animation, sheet.playback, delta);
    }
}

/// A tick of control keeps a settled sheet settled.
pub proof fn lemma_control_keeps_sheet_settled(
    character: CharacterState,
    sheet: SheetView<PlayerAnimation>,
    input_state: InputState,
)
    requires
        is_settled(sheet),
    ensures
        is_settled(after_control(character, sheet, input_state).1),
{
}

} // verus!

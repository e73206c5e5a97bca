use vstd::prelude::*;
use crate::input::{InputEventAction, InputEventType, InputTriggerMessage};

verus! {

/// The phases of the game.
#[derive(Clone, Copy, Debug, PartialEq, Eq, Structural)]
pub enum GameState {
    Startup,
    StartScreen,
    GameInit,
    LevelInit,
    LevelEnd,
    Alive,
    Dead,
    GameOver,
    Shutdown,
}

impl Default for GameState {
    fn default() -> (s: Self)
        ensures
            s == GameState::Startup,
    {
        GameState::Startup
    }
}

/// Whether the game runs or is paused.
#[derive(Clone, Copy, Debug, PartialEq, Eq, Structural)]
pub enum PauseState {
    Paused,
    Running,
}

impl Default for PauseState {
    fn default() -> (s: Self)
        ensures
            s == PauseState::Running,
    {
        PauseState::Running
    }
}

/// Whether a full-screen message (start, dead, game over) is shown.
#[derive(Clone, Copy, Debug, PartialEq, Eq, Structural)]
pub enum ModalState {
    Closed,
    Open,
}

impl Default for ModalState {
    fn default() -> (s: Self)
        ensures
            s == ModalState::Closed,
    {
        ModalState::Closed
    }
}

/// Some message of `msgs` is a press of `action`.
pub open spec fn pressed_in(msgs: Seq<InputTriggerMessage>, action: InputEventAction) -> bool {
    exists|i: int|
        0 <= i < msgs.len() && #[trigger] msgs[i] == (InputTriggerMessage {
            action,
            input_type: InputEventType::Pressed,
        })
}

/// Whether some message of `msgs` is a press of `action`.
pub fn any_press_of(msgs: &Vec<InputTriggerMessage>, action: InputEventAction) -> (b: bool)
    ensures
        b == pressed_in(msgs@, action),
{
    let mut i: usize = 0;
    while i < msgs.len()
        invariant
            i <= msgs@.len(),
            forall|j: int|
                0 <= j < i ==> #[trigger] msgs@[j] != (InputTriggerMessage {
                    action,
                    input_type: InputEventType::Pressed,
                }),
        decreases msgs@.len() - i,
    {
        let m = msgs[i];
        if m.input_type == InputEventType::Pressed && m.action == action {
            return true;
        }
        i = i + 1;
    }
    false
}

/// The pause state that the running game's input asks for: paused when the
/// pause button was pressed.
pub fn check_for_pause(msgs: &Vec<InputTriggerMessage>) -> (s: Option<PauseState>)
    ensures
        s == (if pressed_in(msgs@, InputEventAction::Pause) {
            Some(PauseState::Paused)
        } else {
            None::<PauseState>
        }),
{
    if any_press_of(msgs, InputEventAction::Pause) {
        Some(PauseState::Paused)
    } else {
        None
    }
}

/// The pause state that the paused game's input asks for: running again
/// when fire was pressed.
pub fn update_pause_screen(msgs: &Vec<InputTriggerMessage>) -> (s: Option<PauseState>)
    ensures
        s == (if pressed_in(msgs@, InputEventAction::Shoot) {
            Some(PauseState::Running)
        } else {
            None::<PauseState>
        }),
{
    if any_press_of(msgs, InputEventAction::Shoot) {
        Some(PauseState::Running)
    } else {
        None
    }
}

/// The number of presses of `action` among the first `n` messages.
pub open spec fn press_count(msgs: Seq<InputTriggerMessage>, action: InputEventAction, n: int) -> nat
    decreases n,
{
    if n <= 0 {
        0
    } else {
        press_count(msgs, action, n - 1) + if msgs[n - 1] == (InputTriggerMessage {
            action,
            input_type: InputEventType::Pressed,
        }) {
            1nat
        } else {
            0nat
        }
    }
}

/// On the start screen, each press of fire asks for a new game; returns how
/// many times it was asked.
pub fn check_start_game(msgs: &Vec<InputTriggerMessage>) -> (n: usize)
    ensures
        n == press_count(msgs@, InputEventAction::Shoot, msgs@.len() as int),
{
    let mut n: usize = 0;
    let mut i: usize = 0;
    while i < msgs.len()
        invariant
            i <= msgs@.len(),
            n == press_count(msgs@, InputEventAction::Shoot, i as int),
            n <= i,
        decreases msgs@.len() - i,
    {
        let m = msgs[i];
        if m.input_type == InputEventType::Pressed && m.action == InputEventAction::Shoot {
            n = n + 1;
        }
        i = i + 1;
    }
    n
}

/// What a press of fire does while a full-screen message is shown.
#[derive(Clone, Copy, Debug, PartialEq, Eq, Structural)]
pub struct ModalUpdate {
    /// The message is closed.
    pub close: bool,
    /// The phase to go to.
    pub next_state: Option<GameState>,
}

/// The phase a press of fire leads to from a full-screen message: the start
/// screen starts a game, death brings the next ship, game over goes back to
/// the start screen.
pub open spec fn after_modal(state: GameState) -> Option<GameState> {
    match state {
        GameState::StartScreen => Some(GameState::GameInit),
        GameState::Dead => Some(GameState::Alive),
        GameState::GameOver => Some(GameState::StartScreen),
        _ => None,
    }
}

/// Reads the input while a full-screen message is shown in phase `state`: a
/// press of fire closes the message and moves on.
pub fn update_modal_screen(state: GameState, msgs: &Vec<InputTriggerMessage>) -> (u: ModalUpdate)
    ensures
        u.close == pressed_in(msgs@, InputEventAction::Shoot),
        u.next_state == (if u.close {
            after_modal(state)
        } else {
            None::<GameState>
        }),
{
    if any_press_of(msgs, InputEventAction::Shoot) {
        let next = match state {
            GameState::StartScreen => Some(GameState::GameInit),
            GameState::Dead => Some(GameState::Alive),
            GameState::GameOver => Some(GameState::StartScreen),
            _ => None,
        };
        ModalUpdate { close: true, next_state: next }
    } else {
        ModalUpdate { close: false, next_state: None }
    }
}

/// What entering a phase does to the game flow.
#[derive(Clone, Copy, Debug, PartialEq, Eq, Structural)]
pub struct PhaseEntry {
    /// The phase the game goes on to at once.
    pub next_state: Option<GameState>,
    /// Whether a full-screen message opens.
    pub open_modal: bool,
}

/// The phase that entering `state` goes on to at once: a new game sets up
/// its first level, a set-up level is played.
pub open spec fn entry_next(state: GameState) -> Option<GameState> {
    match state {
        GameState::GameInit => Some(GameState::LevelInit),
        GameState::LevelInit => Some(GameState::Alive),
        _ => None,
    }
}

/// The phases that show a full-screen message.
pub open spec fn shows_modal(state: GameState) -> bool {
    state == GameState::StartScreen || state == GameState::Dead || state == GameState::GameOver
}

/// What entering phase `state` does.
pub fn enter_state(state: GameState) -> (e: PhaseEntry)
    ensures
        e.next_state == entry_next(state),
        e.open_modal == shows_modal(state),
{
    match state {
        GameState::GameInit => PhaseEntry { next_state: Some(GameState::LevelInit), open_modal: false },
        GameState::LevelInit => PhaseEntry { next_state: Some(GameState::Alive), open_modal: false },
        GameState::StartScreen => PhaseEntry { next_state: None, open_modal: true },
        GameState::Dead => PhaseEntry { next_state: None, open_modal: true },
        GameState::GameOver => PhaseEntry { next_state: None, open_modal: true },
        _ => PhaseEntry { next_state: None, open_modal: false },
    }
}

/// Whether the level is over: checked each time the level timer fires, the
/// level ends when no level target is left.
pub fn check_game_state(timer_fired: bool, targets_left: usize) -> (s: Option<GameState>)
    ensures
        s == (if timer_fired && targets_left == 0 {
            Some(GameState::LevelEnd)
        } else {
            None::<GameState>
        }),
{
    if !timer_fired {
        return None;
    }
    if targets_left != 0 {
        return None;
    }
    Some(GameState::LevelEnd)
}

/// Starting a game from the start screen, a press of fire leads through the
/// game's and the level's setup into play, with no other input.
pub proof fn law_fire_starts_play()
    ensures
        after_modal(GameState::StartScreen) == Some(GameState::GameInit),
        entry_next(GameState::GameInit) == Some(GameState::LevelInit),
        entry_next(GameState::LevelInit) == Some(GameState::Alive),
        !shows_modal(GameState::Alive),
{
}

/// Every phase that shows a full-screen message is left by a press of fire,
/// and play never shows one.
pub proof fn law_modal_phases_are_left_by_fire(state: GameState)
    ensures
        shows_modal(state) <==> after_modal(state) is Some,
{
}

} // verus!

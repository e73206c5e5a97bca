use roids::game_state::{
    check_for_pause, check_game_state, check_start_game, enter_state, update_modal_screen,
    update_pause_screen, GameState, ModalState, ModalUpdate, PauseState, PhaseEntry,
};
use roids::input::{InputEventAction, InputEventType, InputTriggerMessage};

fn press(action: InputEventAction) -> InputTriggerMessage {
    InputTriggerMessage::new(action, InputEventType::Pressed)
}

fn release(action: InputEventAction) -> InputTriggerMessage {
    InputTriggerMessage::new(action, InputEventType::Released)
}

#[test]
fn default_states() {
    assert_eq!(GameState::default(), GameState::Startup);
    assert_eq!(PauseState::default(), PauseState::Running);
    assert_eq!(ModalState::default(), ModalState::Closed);
}

#[test]
fn pause_button_pauses() {
    assert_eq!(check_for_pause(&vec![press(InputEventAction::Pause)]), Some(PauseState::Paused));
    assert_eq!(check_for_pause(&vec![release(InputEventAction::Pause)]), None);
    assert_eq!(check_for_pause(&vec![press(InputEventAction::Shoot)]), None);
    assert_eq!(check_for_pause(&vec![]), None);
}

#[test]
fn fire_resumes() {
    assert_eq!(
        update_pause_screen(&vec![press(InputEventAction::Pause), press(InputEventAction::Shoot)]),
        Some(PauseState::Running)
    );
    assert_eq!(update_pause_screen(&vec![press(InputEventAction::Pause)]), None);
}

#[test]
fn each_fire_press_asks_for_a_game() {
    let msgs = vec![
        press(InputEventAction::Shoot),
        release(InputEventAction::Shoot),
        press(InputEventAction::Shield),
        press(InputEventAction::Shoot),
    ];
    assert_eq!(check_start_game(&msgs), 2);
    assert_eq!(check_start_game(&vec![]), 0);
}

#[test]
fn modal_screens_move_on_with_fire() {
    let fire = vec![press(InputEventAction::Shoot)];
    assert_eq!(
        update_modal_screen(GameState::StartScreen, &fire),
        ModalUpdate { close: true, next_state: Some(GameState::GameInit) }
    );
    assert_eq!(
        update_modal_screen(GameState::Dead, &fire),
        ModalUpdate { close: true, next_state: Some(GameState::Alive) }
    );
    assert_eq!(
        update_modal_screen(GameState::GameOver, &fire),
        ModalUpdate { close: true, next_state: Some(GameState::StartScreen) }
    );
    assert_eq!(
        update_modal_screen(GameState::Alive, &fire),
        ModalUpdate { close: true, next_state: None }
    );
    assert_eq!(
        update_modal_screen(GameState::Dead, &vec![press(InputEventAction::Pause)]),
        ModalUpdate { close: false, next_state: None }
    );
}

#[test]
fn entering_phases() {
    assert_eq!(enter_state(GameState::GameInit), PhaseEntry { next_state: Some(GameState::LevelInit), open_modal: false });
    assert_eq!(enter_state(GameState::LevelInit), PhaseEntry { next_state: Some(GameState::Alive), open_modal: false });
    assert_eq!(enter_state(GameState::StartScreen), PhaseEntry { next_state: None, open_modal: true });
    assert_eq!(enter_state(GameState::Dead), PhaseEntry { next_state: None, open_modal: true });
    assert_eq!(enter_state(GameState::GameOver), PhaseEntry { next_state: None, open_modal: true });
    assert_eq!(enter_state(GameState::Alive), PhaseEntry { next_state: None, open_modal: false });
    assert_eq!(enter_state(GameState::LevelEnd), PhaseEntry { next_state: None, open_modal: false });
}

#[test]
fn fire_on_start_screen_reaches_play() {
    let u = update_modal_screen(GameState::StartScreen, &vec![press(InputEventAction::Shoot)]);
    let init = u.next_state.unwrap();
    let level = enter_state(init).next_state.unwrap();
    let play = enter_state(level).next_state.unwrap();
    assert_eq!(play, GameState::Alive);
}

#[test]
fn level_ends_when_no_target_is_left() {
    assert_eq!(check_game_state(true, 0), Some(GameState::LevelEnd));
    assert_eq!(check_game_state(true, 3), None);
    assert_eq!(check_game_state(false, 0), None);
}

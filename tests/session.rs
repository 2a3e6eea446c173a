use tactile_win::config::Config;
use tactile_win::grid::{Grid, Rect, TilePos};
use tactile_win::keyboard::KeyInput;
use tactile_win::selection::SelectionState;
use tactile_win::session::{Session, SessionAction};

fn area() -> Rect {
    Rect { left: 0, top: 0, right: 1920, bottom: 1080 }
}

fn second_area() -> Rect {
    Rect { left: 1920, top: 0, right: 3840, bottom: 1040 }
}

fn started() -> Session {
    let mut session = Session::new(Config::default());
    let action = session.handle_hotkey(Some(42), vec![100, 200, 300], 200, Some(area()));
    assert_eq!(action, SessionAction::ShowGrid(Grid::new(4, 2, 10, area())));
    session
}

#[test]
fn hotkey_starts_session_on_window_monitor() {
    let session = started();
    assert_eq!(session.target, Some(42));
    assert_eq!(session.current_monitor_idx, 1);
    assert_eq!(session.current_work_area, Some(area()));
    assert!(session.hook.active);
    assert_eq!(session.selector.as_ref().unwrap().state(), SelectionState::Idle);
}

#[test]
fn hotkey_without_window_does_nothing() {
    let mut session = Session::new(Config::default());
    assert_eq!(session.handle_hotkey(None, vec![1], 1, Some(area())), SessionAction::Nothing);
    assert!(!session.hook.active);
    assert!(session.selector.is_none());
}

#[test]
fn hotkey_without_usable_area_does_not_start() {
    let mut session = Session::new(Config::default());
    assert_eq!(session.handle_hotkey(Some(1), vec![5, 6], 9, None), SessionAction::Nothing);
    assert!(!session.hook.active);
    assert_eq!(session.current_monitor_idx, 0);
    let huge = Rect { left: 0, top: 0, right: 900_000_000, bottom: 10 };
    assert_eq!(session.handle_hotkey(Some(1), vec![5], 5, Some(huge)), SessionAction::Nothing);
    assert!(!session.hook.active);
}

#[test]
fn two_keys_move_window_and_end_session() {
    let mut session = started();
    assert_eq!(
        session.handle_key_input(KeyInput::GridKey('Q')),
        SessionAction::HighlightTile(TilePos { col: 0, row: 0 })
    );
    assert!(session.hook.active);
    assert_eq!(
        session.handle_key_input(KeyInput::GridKey('F')),
        SessionAction::MoveWindow(42, Rect { left: 10, top: 10, right: 1908, bottom: 1070 })
    );
    assert!(!session.hook.active);
    // the session is over: further keys are ignored
    assert_eq!(session.handle_key_input(KeyInput::GridKey('Q')), SessionAction::Nothing);
    assert_eq!(session.handle_key_input(KeyInput::Escape), SessionAction::Nothing);
}

#[test]
fn escape_cancels_session() {
    let mut session = started();
    session.handle_key_input(KeyInput::GridKey('w'));
    assert_eq!(session.handle_key_input(KeyInput::Escape), SessionAction::HideOverlay);
    assert!(!session.hook.active);
    assert_eq!(session.selector.as_ref().unwrap().state(), SelectionState::Cancelled);
}

#[test]
fn other_and_unresolved_keys_change_nothing() {
    let mut session = started();
    assert_eq!(session.handle_key_input(KeyInput::Other), SessionAction::Nothing);
    assert_eq!(session.handle_key_input(KeyInput::GridKey('1')), SessionAction::Nothing);
    assert!(session.hook.active);
    assert_eq!(session.selector.as_ref().unwrap().state(), SelectionState::Idle);
}

#[test]
fn tab_cycles_monitors_and_restarts_selection() {
    let mut session = started();
    session.handle_key_input(KeyInput::GridKey('q'));
    assert_eq!(session.handle_key_input(KeyInput::Tab), SessionAction::QueryMonitor(300));
    assert_eq!(session.current_monitor_idx, 2);
    assert_eq!(
        session.enter_monitor_area(Some(second_area())),
        SessionAction::ShowGrid(Grid::new(4, 2, 10, second_area()))
    );
    assert_eq!(session.current_work_area, Some(second_area()));
    assert_eq!(session.selector.as_ref().unwrap().state(), SelectionState::Idle);
    assert!(session.hook.active);
    assert_eq!(session.handle_key_input(KeyInput::Tab), SessionAction::QueryMonitor(100));
    assert_eq!(session.current_monitor_idx, 0);
    // an unavailable area leaves the session where it was
    assert_eq!(session.enter_monitor_area(None), SessionAction::Nothing);
    assert_eq!(session.current_work_area, Some(second_area()));
}

#[test]
fn tab_with_one_monitor_does_nothing() {
    let mut session = Session::new(Config::default());
    session.handle_hotkey(Some(1), vec![7], 7, Some(area()));
    assert_eq!(session.handle_key_input(KeyInput::Tab), SessionAction::Nothing);
    assert_eq!(session.current_monitor_idx, 0);
}

#[test]
fn unlisted_window_monitor_falls_back_to_first() {
    let mut session = Session::new(Config::default());
    session.handle_hotkey(Some(1), vec![7, 8], 9, Some(area()));
    assert_eq!(session.current_monitor_idx, 0);
}

#[test]
fn settings_apply_to_next_session() {
    let mut session = started();
    let mut config = Config::default();
    config.grid.cols = 8;
    config.grid.rows = 4;
    config.grid.gap = 0;
    session.on_settings_saved(config);
    assert_eq!(session.config.grid.cols, 8);
    assert_eq!(
        session.handle_hotkey(Some(3), vec![1], 1, Some(area())),
        SessionAction::ShowGrid(Grid::new(8, 4, 0, area()))
    );
    assert_eq!(
        session.handle_key_input(KeyInput::GridKey('8')),
        SessionAction::HighlightTile(TilePos { col: 7, row: 0 })
    );
}

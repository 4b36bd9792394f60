use sensi_alternada::engine::Level;
use sensi_alternada::fire_button::{
    FireButton, WM_LBUTTONDOWN, WM_LBUTTONUP, WM_MOUSEMOVE, WM_RBUTTONDOWN,
};
use sensi_alternada::hook::{
    hook_change, requested_state, wanted_level, HookAction, HookChange, HookEvent, HookState,
    LevelTracker, WM_APP_SET_DPI, WM_APP_SET_ENABLED, WM_HOTKEY,
};

fn event(message: u32) -> HookEvent {
    HookEvent { code: 0, message, mouse_data: 0 }
}

#[test]
fn the_hook_only_watches_the_trigger() {
    let mut state = HookState::new();
    assert_eq!(state.on_event(&event(WM_MOUSEMOVE), FireButton::Left), HookAction::PassThrough);
    assert_eq!(
        state.on_event(&event(WM_LBUTTONDOWN), FireButton::Left),
        HookAction::Switch(Level::Atirando)
    );
    assert!(state.holding);
    // A move while the trigger is held is not touched.
    assert_eq!(state.on_event(&event(WM_MOUSEMOVE), FireButton::Left), HookAction::PassThrough);
    assert!(state.holding);
    assert_eq!(
        state.on_event(&event(WM_LBUTTONUP), FireButton::Left),
        HookAction::Switch(Level::Base)
    );
    assert!(!state.holding);
}

#[test]
fn negative_codes_and_other_buttons_pass_untouched() {
    let mut state = HookState::new();
    let mut skipped = event(WM_LBUTTONDOWN);
    skipped.code = -1;
    assert_eq!(state.on_event(&skipped, FireButton::Left), HookAction::PassThrough);
    assert!(!state.holding);
    assert_eq!(state.on_event(&event(WM_RBUTTONDOWN), FireButton::Left), HookAction::PassThrough);
    assert!(!state.holding);
}

#[test]
fn shooting_dpi_needs_trigger_panel_and_focus() {
    assert_eq!(wanted_level(true, true, true), Level::Atirando);
    assert_eq!(wanted_level(false, true, true), Level::Base, "gatilho solto");
    assert_eq!(wanted_level(true, false, true), Level::Base, "painel desligado");
    assert_eq!(wanted_level(true, true, false), Level::Base, "sem foco");
}

#[test]
fn the_device_is_written_only_when_the_level_changes() {
    let mut tracker = LevelTracker::new();
    assert_eq!(tracker.update(false, true, true), None);
    assert_eq!(tracker.update(true, true, true), Some(Level::Atirando));
    assert_eq!(tracker.update(true, true, true), None);
    // Losing focus restores the base level.
    assert_eq!(tracker.update(true, true, false), Some(Level::Base));
    assert_eq!(tracker.update(true, true, true), Some(Level::Atirando));
    // Turning the panel off restores it too.
    assert_eq!(tracker.update(true, false, true), Some(Level::Base));
    assert_eq!(tracker.applied, Level::Base);
}

#[test]
fn the_hook_is_installed_and_removed_only_when_it_changes() {
    assert_eq!(hook_change(true, false), HookChange::Install);
    assert_eq!(hook_change(false, true), HookChange::Remove);
    assert_eq!(hook_change(true, true), HookChange::Keep);
    assert_eq!(hook_change(false, false), HookChange::Keep);
}

#[test]
fn loop_messages_ask_for_a_state() {
    assert_eq!(requested_state(WM_APP_SET_ENABLED, 1, false), Some(true));
    assert_eq!(requested_state(WM_APP_SET_ENABLED, 0, true), Some(false));
    assert_eq!(requested_state(WM_HOTKEY, 1, true), Some(false));
    assert_eq!(requested_state(WM_HOTKEY, 2, true), None);
    assert_eq!(requested_state(WM_APP_SET_DPI, 1, true), None);
    assert_eq!(requested_state(0x0012, 1, true), None);
}

use sensi_alternada::fire_button::{
    FireButton, Transition, WM_LBUTTONDOWN, WM_LBUTTONUP, WM_MBUTTONDOWN, WM_MOUSEMOVE,
    WM_RBUTTONUP, WM_XBUTTONDOWN, WM_XBUTTONUP,
};

// The X button id lives in the HIGH word of mouseData. Reading the low word instead
// makes side buttons silently never fire.
#[test]
fn side_buttons_are_told_apart_by_the_high_word_of_mouse_data() {
    const XBUTTON1_DATA: u32 = 0x0001_0000;
    const XBUTTON2_DATA: u32 = 0x0002_0000;

    assert_eq!(
        FireButton::Side1.transition(WM_XBUTTONDOWN, XBUTTON1_DATA),
        Some(Transition::Pressed)
    );
    assert_eq!(FireButton::Side1.transition(WM_XBUTTONDOWN, XBUTTON2_DATA), None);
}

#[test]
fn left_button_down_is_a_press() {
    assert_eq!(
        FireButton::Left.transition(WM_LBUTTONDOWN, 0),
        Some(Transition::Pressed)
    );
}

#[test]
fn release_messages_are_releases() {
    assert_eq!(FireButton::Left.transition(WM_LBUTTONUP, 0), Some(Transition::Released));
    assert_eq!(FireButton::Right.transition(WM_RBUTTONUP, 0), Some(Transition::Released));
    assert_eq!(
        FireButton::Side2.transition(WM_XBUTTONUP, 0x0002_0000),
        Some(Transition::Released)
    );
}

#[test]
fn other_buttons_and_moves_are_not_the_trigger() {
    assert_eq!(FireButton::Left.transition(WM_MBUTTONDOWN, 0), None);
    assert_eq!(FireButton::Middle.transition(WM_MBUTTONDOWN, 0), Some(Transition::Pressed));
    assert_eq!(FireButton::Middle.transition(WM_MOUSEMOVE, 0), None);
    // The low word (wheel data) does not count as the side-button id.
    assert_eq!(FireButton::Side1.transition(WM_XBUTTONDOWN, 0x0000_0001), None);
}

#[test]
fn message_numbers_are_the_win32_ones() {
    assert_eq!(WM_MOUSEMOVE, 0x0200);
    assert_eq!(WM_LBUTTONDOWN, 0x0201);
    assert_eq!(WM_XBUTTONDOWN, 0x020B);
}

#[test]
fn a_stored_button_reads_back_as_itself() {
    for button in FireButton::ALL {
        assert_eq!(FireButton::from_index(button.index()), button);
    }
    assert_eq!(FireButton::from_index(200), FireButton::Side2);
}

#[test]
fn button_labels() {
    let labels: Vec<&str> = FireButton::ALL.iter().map(|b| b.label()).collect();
    assert_eq!(labels, vec!["Esquerdo", "Direito", "Meio", "Lateral 1", "Lateral 2"]);
}


//! Which physical mouse button acts as the trigger, and how to recognise its press and
//! release inside the low-level hook.

use vstd::prelude::*;

verus! {

/// Window message numbers a low-level mouse hook receives (Win32 `WM_*`).
pub const WM_MOUSEMOVE: u32 = 0x0200;

pub const WM_LBUTTONDOWN: u32 = 0x0201;

pub const WM_LBUTTONUP: u32 = 0x0202;

pub const WM_RBUTTONDOWN: u32 = 0x0204;

pub const WM_RBUTTONUP: u32 = 0x0205;

pub const WM_MBUTTONDOWN: u32 = 0x0207;

pub const WM_MBUTTONUP: u32 = 0x0208;

pub const WM_XBUTTONDOWN: u32 = 0x020B;

pub const WM_XBUTTONUP: u32 = 0x020C;

#[derive(Debug, Clone, Copy, PartialEq, Eq, Structural, Hash)]
pub enum FireButton {
    Left,
    Right,
    Middle,
    Side1,
    Side2,
}

#[derive(Debug, Clone, Copy, PartialEq, Eq, Structural)]
pub enum Transition {
    Pressed,
    Released,
}

/// The side-button id, carried in the high word of `mouseData`; the low word carries
/// wheel data.
pub open spec fn x_button_id(mouse_data: u32) -> u32 {
    mouse_data >> 16u32
}

/// What one hook event means for `button`: `None` when the event is not that button.
pub open spec fn transition_of(button: FireButton, message: u32, mouse_data: u32) -> Option<
    Transition,
> {
    let x_id = x_button_id(mouse_data);
    match button {
        FireButton::Left => if message == WM_LBUTTONDOWN {
            Some(Transition::Pressed)
        } else if message == WM_LBUTTONUP {
            Some(Transition::Released)
        } else {
            None
        },
        FireButton::Right => if message == WM_RBUTTONDOWN {
            Some(Transition::Pressed)
        } else if message == WM_RBUTTONUP {
            Some(Transition::Released)
        } else {
            None
        },
        FireButton::Middle => if message == WM_MBUTTONDOWN {
            Some(Transition::Pressed)
        } else if message == WM_MBUTTONUP {
            Some(Transition::Released)
        } else {
            None
        },
        FireButton::Side1 => if message == WM_XBUTTONDOWN && x_id == 1 {
            Some(Transition::Pressed)
        } else if message == WM_XBUTTONUP && x_id == 1 {
            Some(Transition::Released)
        } else {
            None
        },
        FireButton::Side2 => if message == WM_XBUTTONDOWN && x_id == 2 {
            Some(Transition::Pressed)
        } else if message == WM_XBUTTONUP && x_id == 2 {
            Some(Transition::Released)
        } else {
            None
        },
    }
}

/// The message a button's press arrives as.
pub open spec fn down_message(button: FireButton) -> u32 {
    match button {
        FireButton::Left => 0x0201,
        FireButton::Right => 0x0204,
        FireButton::Middle => 0x0207,
        FireButton::Side1 | FireButton::Side2 => 0x020B,
    }
}

/// The message a button's release arrives as.
pub open spec fn up_message(button: FireButton) -> u32 {
    match button {
        FireButton::Left => 0x0202,
        FireButton::Right => 0x0205,
        FireButton::Middle => 0x0208,
        FireButton::Side1 | FireButton::Side2 => 0x020C,
    }
}

/// The side-button id a button carries in the high word; 0 for the others.
pub open spec fn side_id(button: FireButton) -> u32 {
    match button {
        FireButton::Side1 => 1,
        FireButton::Side2 => 2,
        _ => 0,
    }
}

pub open spec fn label_of(button: FireButton) -> Seq<char> {
    match button {
        FireButton::Left => "Esquerdo"@,
        FireButton::Right => "Direito"@,
        FireButton::Middle => "Meio"@,
        FireButton::Side1 => "Lateral 1"@,
        FireButton::Side2 => "Lateral 2"@,
    }
}

/// Position of a button in `FireButton::ALL`.
pub open spec fn index_of(button: FireButton) -> u8 {
    match button {
        FireButton::Left => 0,
        FireButton::Right => 1,
        FireButton::Middle => 2,
        FireButton::Side1 => 3,
        FireButton::Side2 => 4,
    }
}

/// The button at a stored position; a position past the end reads as the last one.
pub open spec fn button_at(index: u8) -> FireButton {
    if index == 0 {
        FireButton::Left
    } else if index == 1 {
        FireButton::Right
    } else if index == 2 {
        FireButton::Middle
    } else if index == 3 {
        FireButton::Side1
    } else {
        FireButton::Side2
    }
}

impl FireButton {
    /// Every button, in the order the selector lists them.
    pub const ALL: [FireButton; 5] = [
        FireButton::Left,
        FireButton::Right,
        FireButton::Middle,
        FireButton::Side1,
        FireButton::Side2,
    ];

    /// Reads one hook event. `None` means the event is not this button.
    pub fn transition(self, message: u32, mouse_data: u32) -> (t: Option<Transition>)
        ensures
            t == transition_of(self, message, mouse_data),
            t == Some(Transition::Pressed) ==> message == down_message(self),
            t == Some(Transition::Released) ==> message == up_message(self),
            message != down_message(self) && message != up_message(self) ==> t is None,
    {
        // The X button id is in the high word; the low word carries wheel data.
        let x_id = mouse_data >> 16u32;
        match self {
            FireButton::Left => if message == WM_LBUTTONDOWN {
                Some(Transition::Pressed)
            } else if message == WM_LBUTTONUP {
                Some(Transition::Released)
            } else {
                None
            },
            FireButton::Right => if message == WM_RBUTTONDOWN {
                Some(Transition::Pressed)
            } else if message == WM_RBUTTONUP {
                Some(Transition::Released)
            } else {
                None
            },
            FireButton::Middle => if message == WM_MBUTTONDOWN {
                Some(Transition::Pressed)
            } else if message == WM_MBUTTONUP {
                Some(Transition::Released)
            } else {
                None
            },
            FireButton::Side1 => if message == WM_XBUTTONDOWN && x_id == 1 {
                Some(Transition::Pressed)
            } else if message == WM_XBUTTONUP && x_id == 1 {
                Some(Transition::Released)
            } else {
                None
            },
            FireButton::Side2 => if message == WM_XBUTTONDOWN && x_id == 2 {
                Some(Transition::Pressed)
            } else if message == WM_XBUTTONUP && x_id == 2 {
                Some(Transition::Released)
            } else {
                None
            },
        }
    }

    pub fn label(self) -> (text: &'static str)
        ensures
            text@ == label_of(self),
    {
        match self {
            FireButton::Left => "Esquerdo",
            FireButton::Right => "Direito",
            FireButton::Middle => "Meio",
            FireButton::Side1 => "Lateral 1",
            FireButton::Side2 => "Lateral 2",
        }
    }

    /// Position of this button in `ALL`, the form it takes in a one-byte store.
    pub fn index(self) -> (index: u8)
        ensures
            index == index_of(self),
            index < 5,
            Self::ALL@[index as int] == self,
    {
        match self {
            FireButton::Left => 0,
            FireButton::Right => 1,
            FireButton::Middle => 2,
            FireButton::Side1 => 3,
            FireButton::Side2 => 4,
        }
    }

    /// The button stored at `index`; an index past the end reads as the last button.
    pub fn from_index(index: u8) -> (button: FireButton)
        ensures
            button == button_at(index),
            index < 5 ==> button == Self::ALL@[index as int],
            index >= 5 ==> button == Self::ALL@[4],
    {
        let last: u8 = 4;
        let clamped = if index < last {
            index
        } else {
            last
        };
        Self::ALL[clamped as usize]
    }
}

/// Storing a button by its index and reading it back gives the same button.
pub proof fn lemma_index_round_trip(button: FireButton)
    ensures
        button_at(index_of(button)) == button,
{
}

/// Each button is pressed by its own "down" message and released by its own "up"
/// message; a side button only by the id in the high word of `mouseData`.
pub proof fn lemma_press_and_release(button: FireButton, mouse_data: u32)
    ensures
        transition_of(
            button,
            match button {
                FireButton::Left => WM_LBUTTONDOWN,
                FireButton::Right => WM_RBUTTONDOWN,
                FireButton::Middle => WM_MBUTTONDOWN,
                _ => WM_XBUTTONDOWN,
            },
            mouse_data,
        ) == (if (button == FireButton::Side1 && x_button_id(mouse_data) != 1) || (button
            == FireButton::Side2 && x_button_id(mouse_data) != 2) {
            None
        } else {
            Some(Transition::Pressed)
        }),
        transition_of(
            button,
            match button {
                FireButton::Left => WM_LBUTTONUP,
                FireButton::Right => WM_RBUTTONUP,
                FireButton::Middle => WM_MBUTTONUP,
                _ => WM_XBUTTONUP,
            },
            mouse_data,
        ) == (if (button == FireButton::Side1 && x_button_id(mouse_data) != 1) || (button
            == FireButton::Side2 && x_button_id(mouse_data) != 2) {
            None
        } else {
            Some(Transition::Released)
        }),
{
}

/// An event is a transition of a button only through that button's own messages: its
/// press only through its "down" message, its release only through its "up" message,
/// a side button only with its own id in the high word. Every other message, another
/// button's included, is not the trigger.
pub proof fn lemma_only_own_messages(button: FireButton, message: u32, mouse_data: u32)
    ensures
        transition_of(button, message, mouse_data) == Some(Transition::Pressed) ==> message
            == down_message(button),
        transition_of(button, message, mouse_data) == Some(Transition::Released) ==> message
            == up_message(button),
        message != down_message(button) && message != up_message(button) ==> transition_of(
            button,
            message,
            mouse_data,
        ) is None,
        side_id(button) != 0 && (mouse_data >> 16u32) != side_id(button) ==> transition_of(
            button,
            message,
            mouse_data,
        ) is None,
        side_id(button) == 0 || (mouse_data >> 16u32) == side_id(button) ==> {
            &&& transition_of(button, down_message(button), mouse_data) == Some(Transition::Pressed)
            &&& transition_of(button, up_message(button), mouse_data) == Some(Transition::Released)
        },
{
}

/// A pointer move is never a press nor a release of any button.
pub proof fn lemma_move_is_no_transition(button: FireButton, mouse_data: u32)
    ensures
        transition_of(button, WM_MOUSEMOVE, mouse_data) is None,
{
}

/// Two buttons never share a label.
pub proof fn lemma_labels_distinct(a: FireButton, b: FireButton)
    requires
        a != b,
    ensures
        label_of(a) != label_of(b),
{
    reveal_strlit("Esquerdo");
    reveal_strlit("Direito");
    reveal_strlit("Meio");
    reveal_strlit("Lateral 1");
    reveal_strlit("Lateral 2");
    if label_of(a).len() == label_of(b).len() {
        assert(label_of(a)[8] != label_of(b)[8]);
    }
}

} // verus!

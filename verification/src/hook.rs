//! The decisions of the low-level mouse hook and of the thread that owns it.
//!
//! The hook only **watches the trigger go by**: it never touches movement and passes
//! every event on. On a trigger transition it posts the switch to the hook thread's
//! message loop, because the HID write takes about 4 ms and would delay every click
//! inside the callback. The loop then decides which DPI level the engine applies:
//! shooting while the trigger is held, the panel is on and the emulator has focus; the
//! base level otherwise, so turning the panel off or losing focus restores it.
//! Installing the hook and talking to the device are the application's part.

use vstd::prelude::*;

use crate::engine::Level;
use crate::fire_button::{FireButton, Transition, transition_of};

verus! {

/// `WM_APP`, the first message number free for the application.
pub const WM_APP: u32 = 0x8000;

/// `WM_HOTKEY`, a registered hotkey was pressed.
pub const WM_HOTKEY: u32 = 0x0312;

/// Asks the hook thread to install or remove the hook; `wparam` carries 1 or 0.
pub const WM_APP_SET_ENABLED: u32 = 0x8001;

/// Posted by the hook on a trigger transition: the level may have to change.
pub const WM_APP_SET_DPI: u32 = 0x8002;

/// Posted by the panel when the brand changes: the engine has to be rebuilt.
pub const WM_APP_SET_BRAND: u32 = 0x8003;

/// Posted when the emulator gains or loses focus: the level may have to change.
pub const WM_APP_FOCUS: u32 = 0x8004;

pub const HOTKEY_TOGGLE: i32 = 1;

/// Virtual key of `S`, for `Ctrl + Alt + S`.
pub const VK_S: u32 = 0x53;

/// One event as the hook receives it.
#[derive(Debug, Clone, Copy, PartialEq, Eq, Structural)]
pub struct HookEvent {
    /// Negative means the hook must pass the event on untouched.
    pub code: i32,
    pub message: u32,
    pub mouse_data: u32,
}

/// What the hook does with an event besides passing it on, which it always does.
#[derive(Debug, Clone, Copy, PartialEq, Eq, Structural)]
pub enum HookAction {
    /// Nothing more.
    PassThrough,
    /// The trigger changed: publish it and post the switch to this level to the loop.
    Switch(Level),
}

/// Only the hook thread touches this, so no locking is needed.
#[derive(Debug, Clone, Copy, PartialEq, Eq, Structural)]
pub struct HookState {
    pub holding: bool,
}

/// What the hook thread does with the hook when asked for `enabled`.
#[derive(Debug, Clone, Copy, PartialEq, Eq, Structural)]
pub enum HookChange {
    Install,
    /// Remove it, and publish that the trigger is no longer held.
    Remove,
    Keep,
}

/// The level a trigger transition asks for: pressing shoots, releasing goes back.
pub open spec fn level_of(t: Transition) -> Level {
    match t {
        Transition::Pressed => Level::Atirando,
        Transition::Released => Level::Base,
    }
}

pub open spec fn action_of(event: HookEvent, button: FireButton) -> HookAction {
    if event.code < 0 {
        HookAction::PassThrough
    } else if let Some(t) = transition_of(button, event.message, event.mouse_data) {
        HookAction::Switch(level_of(t))
    } else {
        HookAction::PassThrough
    }
}

pub open spec fn state_after(state: HookState, event: HookEvent, button: FireButton) -> HookState {
    if event.code < 0 {
        state
    } else if let Some(t) = transition_of(button, event.message, event.mouse_data) {
        HookState { holding: t == Transition::Pressed }
    } else {
        state
    }
}

/// The level the engine should hold: shooting only while the trigger is held, the panel
/// is on and the emulator has focus.
pub open spec fn wanted(holding: bool, enabled: bool, focused: bool) -> Level {
    if holding && enabled && focused {
        Level::Atirando
    } else {
        Level::Base
    }
}

/// What the loop writes to the device: the wanted level, only when it differs from the
/// level applied.
pub open spec fn switch_of(applied: Level, holding: bool, enabled: bool, focused: bool) -> Option<Level> {
    if wanted(holding, enabled, focused) == applied {
        None
    } else {
        Some(wanted(holding, enabled, focused))
    }
}

impl HookState {
    pub fn new() -> (state: HookState)
        ensures
            !state.holding,
    {
        HookState { holding: false }
    }

    /// Reads one hook event; `button` is the trigger as published at the time of the
    /// event. The event is always passed on: the hook never swallows movement.
    pub fn on_event(&mut self, event: &HookEvent, button: FireButton) -> (action: HookAction)
        ensures
            action == action_of(*event, button),
            *final(self) == state_after(*old(self), *event, button),
    {
        if event.code < 0 {
            return HookAction::PassThrough;
        }
        match button.transition(event.message, event.mouse_data) {
            Some(Transition::Pressed) => {
                self.holding = true;
                HookAction::Switch(Level::Atirando)
            },
            Some(Transition::Released) => {
                self.holding = false;
                HookAction::Switch(Level::Base)
            },
            None => HookAction::PassThrough,
        }
    }
}

/// The level the engine should hold now.
pub fn wanted_level(holding: bool, enabled: bool, focused: bool) -> (level: Level)
    ensures
        level == wanted(holding, enabled, focused),
{
    if holding && enabled && focused {
        Level::Atirando
    } else {
        Level::Base
    }
}

/// The level last applied, so the device is written only when the level changes.
#[derive(Debug, Clone, Copy, PartialEq, Eq, Structural)]
pub struct LevelTracker {
    pub applied: Level,
}

impl LevelTracker {
    /// A fresh engine starts from the base level.
    pub fn new() -> (tracker: LevelTracker)
        ensures
            tracker.applied == Level::Base,
    {
        LevelTracker { applied: Level::Base }
    }

    /// The level to apply now, if it differs from the one applied.
    pub fn update(&mut self, holding: bool, enabled: bool, focused: bool) -> (switch: Option<
        Level,
    >)
        ensures
            final(self).applied == wanted(holding, enabled, focused),
            switch == switch_of(old(self).applied, holding, enabled, focused),
            switch is None <==> wanted(holding, enabled, focused) == old(self).applied,
            switch is Some ==> switch == Some(final(self).applied),
    {
        let level = wanted_level(holding, enabled, focused);
        if level == self.applied {
            None
        } else {
            self.applied = level;
            Some(level)
        }
    }
}

/// Installs the hook when it is wanted and missing, removes it when it is present and
/// not wanted. Removing it leaves nothing behind on the system, which is what makes
/// "back to normal" literal rather than a promise.
pub fn hook_change(enabled: bool, installed: bool) -> (change: HookChange)
    ensures
        change == (if enabled && !installed {
            HookChange::Install
        } else if !enabled && installed {
            HookChange::Remove
        } else {
            HookChange::Keep
        }),
{
    if enabled && !installed {
        HookChange::Install
    } else if !enabled && installed {
        HookChange::Remove
    } else {
        HookChange::Keep
    }
}

/// What a message of the hook thread's loop asks for: `Some(wanted)` to set the hook to
/// `wanted`. The toggle hotkey flips what is currently enabled, and the caller publishes
/// the new value.
pub fn requested_state(message: u32, wparam: usize, enabled: bool) -> (wanted: Option<bool>)
    ensures
        message == WM_APP_SET_ENABLED ==> wanted == Some(wparam != 0),
        message == WM_HOTKEY ==> wanted == (if wparam as i32 == HOTKEY_TOGGLE {
            Some(!enabled)
        } else {
            None
        }),
        message != WM_APP_SET_ENABLED && message != WM_HOTKEY ==> wanted is None,
{
    if message == WM_APP_SET_ENABLED {
        Some(wparam != 0)
    } else if message == WM_HOTKEY && #[verifier::truncate] (wparam as i32) == HOTKEY_TOGGLE {
        Some(!enabled)
    } else {
        None
    }
}

/// The hook acts only on the trigger: a press asks for the shooting level, a release
/// for the base level, and every other event (a move included) changes nothing.
pub proof fn lemma_hook_only_watches_the_trigger(state: HookState, event: HookEvent, button: FireButton)
    ensures
        event.code >= 0 && transition_of(button, event.message, event.mouse_data) == Some(
            Transition::Pressed,
        ) ==> action_of(event, button) == HookAction::Switch(Level::Atirando)
            && state_after(state, event, button).holding,
        event.code >= 0 && transition_of(button, event.message, event.mouse_data) == Some(
            Transition::Released,
        ) ==> action_of(event, button) == HookAction::Switch(Level::Base) && !state_after(
            state,
            event,
            button,
        ).holding,
        (event.code < 0 || transition_of(button, event.message, event.mouse_data) is None)
            ==> action_of(event, button) == HookAction::PassThrough && state_after(
            state,
            event,
            button,
        ) == state,
{
}

/// Shooting DPI holds only while the trigger is held, the panel is on and the emulator
/// has focus: releasing the trigger, turning the panel off or losing focus restores the
/// base level.
pub proof fn lemma_base_unless_shooting(holding: bool, enabled: bool, focused: bool)
    ensures
        wanted(holding, enabled, focused) == Level::Atirando <==> (holding && enabled && focused),
        !holding ==> wanted(holding, enabled, focused) == Level::Base,
        !enabled ==> wanted(holding, enabled, focused) == Level::Base,
        !focused ==> wanted(holding, enabled, focused) == Level::Base,
{
}

/// The device is written only on a change of level, and once the wanted level is applied
/// the same state writes nothing again.
pub proof fn lemma_switch_only_on_change(applied: Level, holding: bool, enabled: bool, focused: bool)
    ensures
        switch_of(wanted(holding, enabled, focused), holding, enabled, focused) is None,
        switch_of(applied, holding, enabled, focused) matches Some(level) ==> level != applied
            && level == wanted(holding, enabled, focused),
{
}

/// A write happens exactly when the level must change, and it writes the level the
/// trigger, the panel and the focus ask for: in particular releasing the trigger after
/// shooting writes the base level back.
pub proof fn lemma_switch_exactly_on_change(applied: Level, holding: bool, enabled: bool, focused: bool)
    ensures
        switch_of(applied, holding, enabled, focused) is None <==> wanted(holding, enabled, focused)
            == applied,
        switch_of(applied, holding, enabled, focused) is Some ==> switch_of(
            applied,
            holding,
            enabled,
            focused,
        ) == Some(if holding && enabled && focused {
            Level::Atirando
        } else {
            Level::Base
        }),
        applied == Level::Atirando && !holding ==> switch_of(applied, holding, enabled, focused)
            == Some(Level::Base),
        applied == Level::Base && holding && enabled && focused ==> switch_of(
            applied,
            holding,
            enabled,
            focused,
        ) == Some(Level::Atirando),
{
}

} // verus!

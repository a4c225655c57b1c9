use vstd::prelude::*;

use crate::action::KeyAction;
use crate::config::KeyConfig;

verus! {

/// Tracks the two configured keys and decides, on each release, whether the
/// press was an isolated tap.
///
/// A key code that is configured for both actions is tracked once, for
/// `ImeOn`; the `ImeOff` slot then never becomes pressed.
#[derive(Clone, Copy, Debug)]
pub struct KeyManager {
    /// Key code whose isolated tap asks for `ImeOff`.
    pub off_key: u32,
    /// Key code whose isolated tap asks for `ImeOn`.
    pub on_key: u32,
    /// Whether the `ImeOff` key is held.
    pub off_pressed: bool,
    /// Whether the `ImeOn` key is held.
    pub on_pressed: bool,
    /// Whether an untracked key went down while a tracked key was held.
    pub other_key_pressed: bool,
}

impl KeyManager {
    /// The `ImeOff` slot is dead when both actions share one key code.
    pub open spec fn wf(self) -> bool {
        self.off_key == self.on_key ==> !self.off_pressed
    }

    pub open spec fn is_tracked(self, code: u32) -> bool {
        code == self.on_key || code == self.off_key
    }

    /// The action that an isolated tap of a tracked `code` asks for.
    pub open spec fn action_of(self, code: u32) -> KeyAction {
        if code == self.on_key {
            KeyAction::ImeOn
        } else {
            KeyAction::ImeOff
        }
    }

    pub open spec fn pressed_of(self, code: u32) -> bool {
        if code == self.on_key {
            self.on_pressed
        } else if code == self.off_key {
            self.off_pressed
        } else {
            false
        }
    }

    pub open spec fn any_pressed(self) -> bool {
        self.off_pressed || self.on_pressed
    }

    /// The state after `code` went down.
    pub open spec fn after_down(self, code: u32) -> KeyManager {
        if code == self.on_key {
            KeyManager { on_pressed: true, ..self }
        } else if code == self.off_key {
            KeyManager { off_pressed: true, ..self }
        } else if self.any_pressed() {
            KeyManager { other_key_pressed: true, ..self }
        } else {
            self
        }
    }

    /// The state after `code` went up.
    pub open spec fn after_up(self, code: u32) -> KeyManager {
        if code == self.on_key {
            KeyManager { on_pressed: false, other_key_pressed: false, ..self }
        } else if code == self.off_key {
            KeyManager { off_pressed: false, other_key_pressed: false, ..self }
        } else {
            self
        }
    }

    /// What the release of `code` reports.
    pub open spec fn up_result(self, code: u32) -> Option<KeyAction> {
        if self.is_tracked(code) && !self.other_key_pressed {
            Some(self.action_of(code))
        } else {
            None
        }
    }

    /// A manager for the configured keys, with nothing pressed.
    pub fn new(keys: KeyConfig) -> (r: KeyManager)
        ensures
            r.wf(),
            r.off_key == keys.ime_off,
            r.on_key == keys.ime_on,
            !r.off_pressed,
            !r.on_pressed,
            !r.other_key_pressed,
    {
        KeyManager {
            off_key: keys.ime_off,
            on_key: keys.ime_on,
            off_pressed: false,
            on_pressed: false,
            other_key_pressed: false,
        }
    }

    /// Whether the state is one that `new` and the event handlers can reach.
    pub fn is_well_formed(&self) -> (r: bool)
        ensures
            r == self.wf(),
    {
        self.off_key != self.on_key || !self.off_pressed
    }

    /// Whether some tracked key is held.
    pub fn any_key_pressed(&self) -> (r: bool)
        ensures
            r == self.any_pressed(),
    {
        self.off_pressed || self.on_pressed
    }

    /// Records that `key_code` went down.
    ///
    /// A tracked key becomes pressed; an untracked key marks the current
    /// sequence as interrupted when some tracked key is held.
    pub fn key_down(&mut self, key_code: u32)
        requires
            old(self).wf(),
        ensures
            final(self).wf(),
            *final(self) == old(self).after_down(key_code),
            old(self).is_tracked(key_code) ==> final(self).other_key_pressed
                == old(self).other_key_pressed,
            old(self).is_tracked(key_code) ==> final(self).pressed_of(key_code),
    {
        if key_code == self.on_key {
            self.on_pressed = true;
        } else if key_code == self.off_key {
            self.off_pressed = true;
        } else if self.any_key_pressed() {
            self.other_key_pressed = true;
        }
    }

    /// Records that `key_code` went up, and returns the action of a tracked
    /// key whose press was not interrupted.
    ///
    /// The release of a tracked key always clears the interruption.
    pub fn key_up(&mut self, key_code: u32) -> (r: Option<KeyAction>)
        requires
            old(self).wf(),
        ensures
            final(self).wf(),
            *final(self) == old(self).after_up(key_code),
            r == old(self).up_result(key_code),
            old(self).is_tracked(key_code) ==> !final(self).other_key_pressed
                && !final(self).pressed_of(key_code),
            !old(self).is_tracked(key_code) ==> *final(self) == *old(self),
    {
        let action = if key_code == self.on_key {
            self.on_pressed = false;
            KeyAction::ImeOn
        } else if key_code == self.off_key {
            self.off_pressed = false;
            KeyAction::ImeOff
        } else {
            return None;
        };
        let interrupted = self.other_key_pressed;
        self.other_key_pressed = false;
        if interrupted {
            None
        } else {
            Some(action)
        }
    }

    /// Whether the current sequence has been interrupted by another key.
    pub fn interrupted(&self) -> (r: bool)
        ensures
            r == self.other_key_pressed,
    {
        self.other_key_pressed
    }

    /// Whether the tracked key `key_code` is held; `false` for an untracked
    /// key.
    pub fn is_pressed(&self, key_code: u32) -> (r: bool)
        ensures
            r == self.pressed_of(key_code),
    {
        if key_code == self.on_key {
            self.on_pressed
        } else if key_code == self.off_key {
            self.off_pressed
        } else {
            false
        }
    }
}

} // verus!

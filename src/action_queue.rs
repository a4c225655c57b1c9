use vstd::prelude::*;

use crate::action::KeyAction;

verus! {

/// One pending flag per action: a request sets it, and any number of
/// requests before the worker services it amount to one.
#[derive(Clone, Copy, Debug, PartialEq, Eq, Structural)]
pub struct ActionQueue {
    /// Whether `ImeOff` is waiting to be injected.
    pub ime_off: bool,
    /// Whether `ImeOn` is waiting to be injected.
    pub ime_on: bool,
}

impl ActionQueue {
    pub open spec fn pending(self, action: KeyAction) -> bool {
        match action {
            KeyAction::ImeOff => self.ime_off,
            KeyAction::ImeOn => self.ime_on,
        }
    }

    /// The queue with the flag of `action` set to `value`.
    pub open spec fn with_flag(self, action: KeyAction, value: bool) -> ActionQueue {
        match action {
            KeyAction::ImeOff => ActionQueue { ime_off: value, ..self },
            KeyAction::ImeOn => ActionQueue { ime_on: value, ..self },
        }
    }

    /// The injections one worker tick performs, given whether each action's
    /// key is physically held: `ImeOff` first, then `ImeOn`.
    pub open spec fn tick_injections(self, off_held: bool, on_held: bool) -> Seq<KeyAction> {
        (if self.ime_off && !off_held {
            seq![KeyAction::ImeOff]
        } else {
            Seq::empty()
        }) + (if self.ime_on && !on_held {
            seq![KeyAction::ImeOn]
        } else {
            Seq::empty()
        })
    }

    /// The queue after one worker tick: a flag stays set only while its key
    /// is held.
    pub open spec fn after_tick(self, off_held: bool, on_held: bool) -> ActionQueue {
        ActionQueue { ime_off: self.ime_off && off_held, ime_on: self.ime_on && on_held }
    }

    /// A queue with nothing pending.
    pub fn new() -> (r: ActionQueue)
        ensures
            !r.ime_off,
            !r.ime_on,
    {
        ActionQueue { ime_off: false, ime_on: false }
    }

    /// Marks `action` as pending, whether or not it already was.
    pub fn request(&mut self, action: KeyAction)
        ensures
            *final(self) == old(self).with_flag(action, true),
    {
        match action {
            KeyAction::ImeOff => self.ime_off = true,
            KeyAction::ImeOn => self.ime_on = true,
        }
    }

    /// Whether `action` is waiting to be injected.
    pub fn is_pending(&self, action: KeyAction) -> (r: bool)
        ensures
            r == self.pending(action),
    {
        match action {
            KeyAction::ImeOff => self.ime_off,
            KeyAction::ImeOn => self.ime_on,
        }
    }

    /// Withdraws `action`.
    pub fn clear(&mut self, action: KeyAction)
        ensures
            *final(self) == old(self).with_flag(action, false),
    {
        match action {
            KeyAction::ImeOff => self.ime_off = false,
            KeyAction::ImeOn => self.ime_on = false,
        }
    }

    /// Services `action` given whether its key is physically held: returns
    /// `true`, and clears the flag, exactly when it is pending and released.
    pub fn service(&mut self, action: KeyAction, held: bool) -> (r: bool)
        ensures
            r == (old(self).pending(action) && !held),
            *final(self) == old(self).with_flag(action, old(self).pending(action) && held),
    {
        if self.is_pending(action) && !held {
            self.clear(action);
            true
        } else {
            false
        }
    }

    /// One worker tick: returns the actions to inject now, in order, and
    /// clears their flags; a pending action whose key is still held waits.
    pub fn tick(&mut self, off_held: bool, on_held: bool) -> (r: Vec<KeyAction>)
        ensures
            r@ == old(self).tick_injections(off_held, on_held),
            *final(self) == old(self).after_tick(off_held, on_held),
    {
        let mut out: Vec<KeyAction> = Vec::new();
        if self.service(KeyAction::ImeOff, off_held) {
            out.push(KeyAction::ImeOff);
        }
        if self.service(KeyAction::ImeOn, on_held) {
            out.push(KeyAction::ImeOn);
        }
        assert(out@ =~= old(self).tick_injections(off_held, on_held));
        out
    }
}

} // verus!

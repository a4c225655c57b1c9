use vstd::prelude::*;

use crate::action::KeyAction;
use crate::action_queue::ActionQueue;
use crate::key_manager::KeyManager;

verus! {

/// A tracked key pressed and then released, with no other key event in
/// between, reports its own action, provided that no earlier sequence was
/// left interrupted.
pub proof fn lemma_isolated_tap_fires(m: KeyManager, key: u32)
    requires
        m.wf(),
        m.is_tracked(key),
        !m.other_key_pressed,
    ensures
        m.after_down(key).up_result(key) == Some(m.action_of(key)),
        key == m.on_key ==> m.after_down(key).up_result(key) == Some(KeyAction::ImeOn),
        key == m.off_key && key != m.on_key ==> m.after_down(key).up_result(key) == Some(
            KeyAction::ImeOff,
        ),
        !m.after_down(key).after_up(key).other_key_pressed,
{
}

/// A tracked key held while an untracked key is pressed and released
/// reports nothing on its own release, and that release leaves no
/// interruption behind.
pub proof fn lemma_interrupted_tap_suppressed(m: KeyManager, key: u32, other: u32)
    requires
        m.wf(),
        m.is_tracked(key),
        !m.is_tracked(other),
    ensures
        m.after_down(key).after_down(other).after_up(other).up_result(key) is None,
        !m.after_down(key).after_down(other).after_up(other).after_up(key).other_key_pressed,
{
}

/// Auto-repeated presses of a held tracked key change nothing: in
/// particular they never mark the key's own sequence as interrupted.
pub proof fn lemma_auto_repeat_is_idle(m: KeyManager, key: u32)
    requires
        m.wf(),
        m.is_tracked(key),
        m.pressed_of(key),
    ensures
        m.after_down(key) == m,
        m.after_down(key).other_key_pressed == m.other_key_pressed,
{
}

/// Two requests of `ImeOff` before a worker tick whose key is released
/// lead to exactly one `ImeOff` injection.
pub proof fn lemma_requests_coalesce(q: ActionQueue, on_held: bool)
    ensures
        ({
            let s = q.with_flag(KeyAction::ImeOff, true).with_flag(
                KeyAction::ImeOff,
                true,
            ).tick_injections(false, on_held);
            &&& s.len() >= 1
            &&& s[0] == KeyAction::ImeOff
            &&& forall|j: int| 1 <= j < s.len() ==> s[j] != KeyAction::ImeOff
        }),
{
}

/// A pending action whose key is still physically held is not injected
/// on this tick and stays pending.
pub proof fn lemma_held_key_defers(q: ActionQueue, action: KeyAction, off_held: bool, on_held: bool)
    requires
        q.pending(action),
        action == KeyAction::ImeOff ==> off_held,
        action == KeyAction::ImeOn ==> on_held,
    ensures
        !q.tick_injections(off_held, on_held).contains(action),
        q.after_tick(off_held, on_held).pending(action),
{
}

} // verus!

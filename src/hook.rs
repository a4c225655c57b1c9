use vstd::prelude::*;

use crate::action_queue::ActionQueue;
use crate::key_manager::KeyManager;

verus! {

/// Window message of a key going down.
pub const WM_KEYDOWN: u32 = 0x0100;

/// Window message of a key going up.
pub const WM_KEYUP: u32 = 0x0101;

/// Window message of a key going down while Alt is held.
pub const WM_SYSKEYDOWN: u32 = 0x0104;

/// Window message of a key going up while Alt is held.
pub const WM_SYSKEYUP: u32 = 0x0105;

/// Which way a key moved.
#[derive(Clone, Copy, Debug, PartialEq, Eq, Structural)]
pub enum KeyTransition {
    Down,
    Up,
}

pub open spec fn transition_of(message: u32) -> Option<KeyTransition> {
    if message == WM_KEYDOWN || message == WM_SYSKEYDOWN {
        Some(KeyTransition::Down)
    } else if message == WM_KEYUP || message == WM_SYSKEYUP {
        Some(KeyTransition::Up)
    } else {
        None
    }
}

/// The transition that a keyboard hook message reports, if any.
pub fn classify_message(message: u32) -> (r: Option<KeyTransition>)
    ensures
        r == transition_of(message),
{
    if message == WM_KEYDOWN || message == WM_SYSKEYDOWN {
        Some(KeyTransition::Down)
    } else if message == WM_KEYUP || message == WM_SYSKEYUP {
        Some(KeyTransition::Up)
    } else {
        None
    }
}

/// Handles one keyboard hook notification: a negative `code` or a message
/// that is no key transition changes nothing; a key going down updates the
/// manager; a key going up updates it and requests the action of an isolated
/// tap.
pub fn hook_step(
    manager: &mut KeyManager,
    queue: &mut ActionQueue,
    code: i32,
    message: u32,
    key_code: u32,
)
    requires
        old(manager).wf(),
    ensures
        final(manager).wf(),
        code < 0 || transition_of(message).is_none() ==> *final(manager) == *old(manager)
            && *final(queue) == *old(queue),
        code >= 0 && transition_of(message) == Some(KeyTransition::Down) ==> *final(manager)
            == old(manager).after_down(key_code) && *final(queue) == *old(queue),
        code >= 0 && transition_of(message) == Some(KeyTransition::Up) ==> *final(manager)
            == old(manager).after_up(key_code) && *final(queue) == match old(manager).up_result(
            key_code,
        ) {
            Some(a) => old(queue).with_flag(a, true),
            None => *old(queue),
        },
{
    if code < 0 {
        return ;
    }
    match classify_message(message) {
        Some(KeyTransition::Down) => manager.key_down(key_code),
        Some(KeyTransition::Up) => {
            if let Some(action) = manager.key_up(key_code) {
                queue.request(action);
            }
        },
        None => {},
    }
}

} // verus!

use kana_power::action::KeyAction;
use kana_power::action_queue::ActionQueue;
use kana_power::config::{KeyConfig, VK_LCONTROL, VK_RCONTROL};
use kana_power::hook::{hook_step, WM_KEYDOWN, WM_KEYUP, WM_SYSKEYDOWN, WM_SYSKEYUP};
use kana_power::key_manager::KeyManager;

const KEY_A: u32 = 0x41;

fn default_manager() -> KeyManager {
    KeyManager::new(KeyConfig::default())
}

#[test]
fn new_manager_is_idle() {
    let m = default_manager();
    assert_eq!(m.off_key, 0xA2);
    assert_eq!(m.on_key, 0xA3);
    assert!(!m.any_key_pressed());
    assert!(!m.interrupted());
}

#[test]
fn isolated_tap_of_off_key_fires_ime_off() {
    let mut m = default_manager();
    m.key_down(VK_LCONTROL);
    assert!(m.is_pressed(VK_LCONTROL));
    assert_eq!(m.key_up(VK_LCONTROL), Some(KeyAction::ImeOff));
    assert!(!m.is_pressed(VK_LCONTROL));
}

#[test]
fn isolated_tap_of_on_key_fires_ime_on() {
    let mut m = default_manager();
    m.key_down(VK_RCONTROL);
    assert_eq!(m.key_up(VK_RCONTROL), Some(KeyAction::ImeOn));
}

#[test]
fn untracked_key_between_suppresses_action() {
    let mut m = default_manager();
    m.key_down(VK_LCONTROL);
    m.key_down(KEY_A);
    assert!(m.interrupted());
    assert_eq!(m.key_up(KEY_A), None);
    assert_eq!(m.key_up(VK_LCONTROL), None);
    assert!(!m.interrupted());
}

#[test]
fn second_tracked_key_does_not_interrupt_first() {
    let mut m = default_manager();
    m.key_down(VK_LCONTROL);
    m.key_down(VK_RCONTROL);
    assert!(!m.interrupted());
    assert_eq!(m.key_up(VK_RCONTROL), Some(KeyAction::ImeOn));
    assert_eq!(m.key_up(VK_LCONTROL), Some(KeyAction::ImeOff));
}

#[test]
fn interruption_is_cleared_after_suppressed_release() {
    let mut m = default_manager();
    m.key_down(VK_LCONTROL);
    m.key_down(KEY_A);
    m.key_up(KEY_A);
    assert_eq!(m.key_up(VK_LCONTROL), None);
    assert!(!m.interrupted());
    m.key_down(VK_LCONTROL);
    assert_eq!(m.key_up(VK_LCONTROL), Some(KeyAction::ImeOff));
}

#[test]
fn release_of_tracked_key_always_clears_interruption() {
    let mut m = default_manager();
    m.key_down(VK_RCONTROL);
    m.key_down(KEY_A);
    m.key_down(VK_LCONTROL);
    assert!(m.interrupted());
    assert_eq!(m.key_up(VK_LCONTROL), None);
    assert!(!m.interrupted());
    assert_eq!(m.key_up(VK_RCONTROL), Some(KeyAction::ImeOn));
    assert!(!m.interrupted());
}

#[test]
fn untracked_key_alone_changes_nothing() {
    let mut m = default_manager();
    m.key_down(KEY_A);
    assert!(!m.interrupted());
    assert_eq!(m.key_up(KEY_A), None);
    assert!(!m.any_key_pressed());
}

#[test]
fn auto_repeat_does_not_interrupt() {
    let mut m = default_manager();
    m.key_down(VK_LCONTROL);
    m.key_down(VK_LCONTROL);
    m.key_down(VK_LCONTROL);
    assert!(!m.interrupted());
    assert_eq!(m.key_up(VK_LCONTROL), Some(KeyAction::ImeOff));
}

#[test]
fn shared_key_code_is_tracked_for_ime_on() {
    let mut m = KeyManager::new(KeyConfig { ime_off: 0x20, ime_on: 0x20 });
    m.key_down(0x20);
    assert_eq!(m.key_up(0x20), Some(KeyAction::ImeOn));
    assert!(!m.off_pressed);
}

#[test]
fn custom_keys_are_tracked() {
    let mut m = KeyManager::new(KeyConfig { ime_off: 0x1D, ime_on: 0x1C });
    m.key_down(0x1D);
    assert_eq!(m.key_up(0x1D), Some(KeyAction::ImeOff));
    m.key_down(VK_LCONTROL);
    assert_eq!(m.key_up(VK_LCONTROL), None);
}

#[test]
fn hook_step_ignores_negative_code() {
    let mut m = default_manager();
    let mut q = ActionQueue::new();
    hook_step(&mut m, &mut q, -1, WM_KEYDOWN, VK_LCONTROL);
    assert!(!m.any_key_pressed());
    hook_step(&mut m, &mut q, -1, WM_KEYUP, VK_LCONTROL);
    assert_eq!(q, ActionQueue::new());
}

#[test]
fn hook_step_ignores_other_messages() {
    let mut m = default_manager();
    let mut q = ActionQueue::new();
    hook_step(&mut m, &mut q, 0, 0x0200, VK_LCONTROL);
    assert!(!m.any_key_pressed());
    assert_eq!(q, ActionQueue::new());
}

#[test]
fn hook_step_requests_action_on_isolated_release() {
    let mut m = default_manager();
    let mut q = ActionQueue::new();
    hook_step(&mut m, &mut q, 0, WM_SYSKEYDOWN, VK_RCONTROL);
    assert!(m.is_pressed(VK_RCONTROL));
    hook_step(&mut m, &mut q, 0, WM_SYSKEYUP, VK_RCONTROL);
    assert!(q.is_pending(KeyAction::ImeOn));
    assert!(!q.is_pending(KeyAction::ImeOff));
}

fn feed(m: &mut KeyManager, q: &mut ActionQueue, events: &[(u32, u32)]) {
    for &(message, key) in events {
        hook_step(m, q, 0, message, key);
    }
}

#[test]
fn scenario_ctrl_tap_injects_once_after_release() {
    let mut m = default_manager();
    let mut q = ActionQueue::new();
    feed(&mut m, &mut q, &[(WM_KEYDOWN, 0xA2), (WM_KEYUP, 0xA2)]);
    // The key-up event arrived, but the key is still reported as held.
    assert_eq!(q.tick(true, false), Vec::<KeyAction>::new());
    assert_eq!(q.tick(false, false), vec![KeyAction::ImeOff]);
    assert_eq!(q.tick(false, false), Vec::<KeyAction>::new());
}

#[test]
fn scenario_ctrl_with_letter_injects_nothing() {
    let mut m = default_manager();
    let mut q = ActionQueue::new();
    feed(
        &mut m,
        &mut q,
        &[(WM_KEYDOWN, 0xA2), (WM_KEYDOWN, 0x41), (WM_KEYUP, 0x41), (WM_KEYUP, 0xA2)],
    );
    assert_eq!(q.tick(false, false), Vec::<KeyAction>::new());
    assert_eq!(q, ActionQueue::new());
}

use tactile_win::keyboard::{
    classify_key, is_hook_active, set_hook_active, vk_to_char, KeyInput, KeyboardHook, VK_ESCAPE,
    VK_TAB, WM_KEYDOWN,
};

const WM_KEYUP: u32 = 0x0101;

#[test]
fn virtual_keys_map_to_labels() {
    assert_eq!(vk_to_char(0x31), Some('1'));
    assert_eq!(vk_to_char(0x38), Some('8'));
    assert_eq!(vk_to_char(0x51), Some('Q'));
    assert_eq!(vk_to_char(0x4B), Some('K'));
    assert_eq!(vk_to_char(0x4D), Some('M'));
    assert_eq!(vk_to_char(0xBC), Some(','));
    assert_eq!(vk_to_char(0x39), None);
    assert_eq!(vk_to_char(0x4F), None);
    assert_eq!(vk_to_char(0x30), None);
}

#[test]
fn classification() {
    assert_eq!(classify_key(VK_ESCAPE), KeyInput::Escape);
    assert_eq!(classify_key(VK_TAB), KeyInput::Tab);
    assert_eq!(classify_key(0x46), KeyInput::GridKey('F'));
    assert_eq!(classify_key(0x20), KeyInput::Other);
}

#[test]
fn active_hook_swallows_grid_and_cancel_keys() {
    let mut hook = KeyboardHook::new();
    hook.mark_installed();
    set_hook_active(&mut hook, true);
    assert!(is_hook_active(&hook));
    for vk in [0x51u32, 0x31, 0xBC, VK_ESCAPE] {
        let v = hook.on_key_event(0, WM_KEYDOWN, vk);
        assert_eq!(v.deliver, Some(classify_key(vk)));
        assert!(v.swallow);
    }
    for vk in [VK_TAB, 0x20, 0x4F] {
        let v = hook.on_key_event(0, WM_KEYDOWN, vk);
        assert_eq!(v.deliver, Some(classify_key(vk)));
        assert!(!v.swallow);
    }
}

#[test]
fn inactive_hook_passes_everything_but_still_delivers() {
    let mut hook = KeyboardHook::new();
    hook.mark_installed();
    assert!(!is_hook_active(&hook));
    for vk in [0x51u32, VK_ESCAPE, VK_TAB, 0x20] {
        let v = hook.on_key_event(0, WM_KEYDOWN, vk);
        assert_eq!(v.deliver, Some(classify_key(vk)));
        assert!(!v.swallow);
    }
}

#[test]
fn only_key_down_events_are_handled() {
    let mut hook = KeyboardHook::new();
    hook.mark_installed();
    set_hook_active(&mut hook, true);
    let up = hook.on_key_event(0, WM_KEYUP, 0x51);
    assert_eq!(up.deliver, None);
    assert!(!up.swallow);
    let negative = hook.on_key_event(-1, WM_KEYDOWN, 0x51);
    assert_eq!(negative.deliver, None);
    assert!(!negative.swallow);
}

#[test]
fn uninstall_is_idempotent_and_silences() {
    let mut hook = KeyboardHook::new();
    hook.mark_installed();
    set_hook_active(&mut hook, true);
    hook.mark_uninstalled();
    let once = hook;
    hook.mark_uninstalled();
    assert_eq!(hook, once);
    assert!(!is_hook_active(&hook));
    let v = hook.on_key_event(0, WM_KEYDOWN, 0x51);
    assert_eq!(v.deliver, None);
    assert!(!v.swallow);
}

#[test]
fn set_hook_active_keeps_installation() {
    let mut hook = KeyboardHook::new();
    set_hook_active(&mut hook, true);
    assert!(hook.active);
    assert!(!hook.installed);
    hook.mark_installed();
    set_hook_active(&mut hook, false);
    assert!(hook.installed);
    assert!(!hook.active);
}

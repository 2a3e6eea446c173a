use vstd::prelude::*;

verus! {

/// Virtual-key code of the Tab key, which cycles monitors.
pub const VK_TAB: u32 = 0x09;

/// Virtual-key code of the Escape key, which cancels.
pub const VK_ESCAPE: u32 = 0x1B;

/// Message code of a key-down event.
pub const WM_KEYDOWN: u32 = 0x0100;

/// A key press as the tiling session sees it.
#[derive(Debug, Clone, Copy, PartialEq, Eq, Structural)]
pub enum KeyInput {
    /// A key of the tile-label alphabet, by its label.
    GridKey(char),
    /// The monitor-cycle key.
    Tab,
    /// The cancel key.
    Escape,
    Other,
}

/// The label of each virtual-key code of the tile-label alphabet: the digit
/// keys 1 to 8, the letter rows QWERTYUI, ASDFGHJK, ZXCVBNM and the comma key.
pub open spec fn vk_label(vk: u32) -> Option<char> {
    match vk {
        0x31 => Some('1'),
        0x32 => Some('2'),
        0x33 => Some('3'),
        0x34 => Some('4'),
        0x35 => Some('5'),
        0x36 => Some('6'),
        0x37 => Some('7'),
        0x38 => Some('8'),
        0x51 => Some('Q'),
        0x57 => Some('W'),
        0x45 => Some('E'),
        0x52 => Some('R'),
        0x54 => Some('T'),
        0x59 => Some('Y'),
        0x55 => Some('U'),
        0x49 => Some('I'),
        0x41 => Some('A'),
        0x53 => Some('S'),
        0x44 => Some('D'),
        0x46 => Some('F'),
        0x47 => Some('G'),
        0x48 => Some('H'),
        0x4A => Some('J'),
        0x4B => Some('K'),
        0x5A => Some('Z'),
        0x58 => Some('X'),
        0x43 => Some('C'),
        0x56 => Some('V'),
        0x42 => Some('B'),
        0x4E => Some('N'),
        0x4D => Some('M'),
        0xBC => Some(','),
        _ => None,
    }
}

/// The class of a virtual-key code.
pub open spec fn key_class(vk: u32) -> KeyInput {
    if vk == VK_ESCAPE {
        KeyInput::Escape
    } else if vk == VK_TAB {
        KeyInput::Tab
    } else {
        match vk_label(vk) {
            Some(c) => KeyInput::GridKey(c),
            None => KeyInput::Other,
        }
    }
}

/// Keys that an active interceptor keeps from every other application.
pub open spec fn is_suppressed_class(input: KeyInput) -> bool {
    input is GridKey || input is Escape
}

/// The label of a virtual-key code of the tile-label alphabet.
pub fn vk_to_char(vk: u32) -> (r: Option<char>)
    ensures
        r == vk_label(vk),
{
    match vk {
        0x31 => Some('1'),
        0x32 => Some('2'),
        0x33 => Some('3'),
        0x34 => Some('4'),
        0x35 => Some('5'),
        0x36 => Some('6'),
        0x37 => Some('7'),
        0x38 => Some('8'),
        0x51 => Some('Q'),
        0x57 => Some('W'),
        0x45 => Some('E'),
        0x52 => Some('R'),
        0x54 => Some('T'),
        0x59 => Some('Y'),
        0x55 => Some('U'),
        0x49 => Some('I'),
        0x41 => Some('A'),
        0x53 => Some('S'),
        0x44 => Some('D'),
        0x46 => Some('F'),
        0x47 => Some('G'),
        0x48 => Some('H'),
        0x4A => Some('J'),
        0x4B => Some('K'),
        0x5A => Some('Z'),
        0x58 => Some('X'),
        0x43 => Some('C'),
        0x56 => Some('V'),
        0x42 => Some('B'),
        0x4E => Some('N'),
        0x4D => Some('M'),
        0xBC => Some(','),
        _ => None,
    }
}

/// Classifies a virtual-key code.
pub fn classify_key(vk: u32) -> (r: KeyInput)
    ensures
        r == key_class(vk),
{
    if vk == VK_ESCAPE {
        KeyInput::Escape
    } else if vk == VK_TAB {
        KeyInput::Tab
    } else if let Some(c) = vk_to_char(vk) {
        KeyInput::GridKey(c)
    } else {
        KeyInput::Other
    }
}

/// What the interceptor does with one observed key event: the classified
/// key to hand to the consumer, if any, and whether to keep the event from
/// every other application.
#[derive(Debug, Clone, Copy, PartialEq, Eq, Structural)]
pub struct HookVerdict {
    pub deliver: Option<KeyInput>,
    pub swallow: bool,
}

/// The interceptor's two flags: whether the system-wide observer is
/// installed, and whether suppression is wanted.
#[derive(Debug, Clone, Copy, PartialEq, Eq, Structural)]
pub struct KeyboardHook {
    pub installed: bool,
    pub active: bool,
}

impl KeyboardHook {
    /// Not installed and not suppressing.
    pub fn new() -> (h: KeyboardHook)
        ensures
            !h.installed,
            !h.active,
    {
        KeyboardHook { installed: false, active: false }
    }

    /// Records that the observer now exists; suppression stays as it was.
    pub fn mark_installed(&mut self)
        ensures
            final(self).installed,
            final(self).active == old(self).active,
    {
        self.installed = true;
    }

    /// Records that the observer is gone: nothing is delivered or suppressed
    /// any more. Doing it twice is the same as doing it once.
    pub fn mark_uninstalled(&mut self)
        ensures
            !final(self).installed,
            !final(self).active,
    {
        self.active = false;
        self.installed = false;
    }

    /// Decides what happens to one key event, from the flags as they stand
    /// when the event arrives: a consumer that deactivates the interceptor
    /// while handling the event does not let that event through. Key-down
    /// events of an installed observer are delivered, classified; grid and
    /// cancel keys are swallowed while the interceptor is active, and nothing
    /// is swallowed while it is not.
    pub fn on_key_event(&self, code: i32, message: u32, vk: u32) -> (v: HookVerdict)
        ensures
            v.deliver == (if self.installed && code >= 0 && message == WM_KEYDOWN {
                Some(key_class(vk))
            } else {
                None
            }),
            v.swallow == (v.deliver matches Some(input) && self.active && is_suppressed_class(
                input,
            )),
            self.active ==> (v.deliver matches Some(input) && is_suppressed_class(input)
                ==> v.swallow),
            !self.active ==> !v.swallow,
    {
        if self.installed && code >= 0 && message == WM_KEYDOWN {
            let input = classify_key(vk);
            let suppressed = match input {
                KeyInput::GridKey(_) | KeyInput::Escape => true,
                _ => false,
            };
            HookVerdict { deliver: Some(input), swallow: self.active && suppressed }
        } else {
            HookVerdict { deliver: None, swallow: false }
        }
    }
}

/// Whether the interceptor is suppressing grid and cancel keys.
pub fn is_hook_active(hook: &KeyboardHook) -> (r: bool)
    ensures
        r == hook.active,
{
    hook.active
}

/// Turns suppression on or off; whether the observer is installed is kept.
pub fn set_hook_active(hook: &mut KeyboardHook, active: bool)
    ensures
        final(hook).active == active,
        final(hook).installed == old(hook).installed,
{
    hook.active = active;
}

} // verus!

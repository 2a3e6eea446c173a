use vstd::prelude::*;

verus! {

/// Placement state of a maximized window.
pub const SW_MAXIMIZE: u32 = 3;

/// Placement state of a minimized window.
pub const SW_MINIMIZE: u32 = 6;

/// A maximized or minimized window is restored before it is moved, so that
/// the new size takes effect.
pub fn needs_restore(show_cmd: u32) -> (r: bool)
    ensures
        r == (show_cmd == SW_MAXIMIZE || show_cmd == SW_MINIMIZE),
{
    show_cmd == SW_MAXIMIZE || show_cmd == SW_MINIMIZE
}

} // verus!

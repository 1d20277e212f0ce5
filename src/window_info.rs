use vstd::prelude::*;

verus! {

/// What the window filter reads of a top-level window: its handle or id
/// rendered as text, its title, its owning process's name and its class.
#[derive(Debug, Clone)]
pub struct WindowInfo {
    pub hwnd: String,
    pub title: String,
    pub process: String,
    pub class: String,
}

/// The visible top-level windows, for the target picker. The X11 session
/// offers no enumeration that is wired up here, so the list is empty; the
/// filter does not depend on it.
pub fn get_all_windows() -> (r: Vec<WindowInfo>)
    ensures
        r@.len() == 0,
{
    Vec::new()
}

} // verus!

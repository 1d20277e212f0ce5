use vstd::prelude::*;

use crate::config::TargetConfig;
use crate::text::{contains_text, has_infix, lower_of, lowercase, opt_view, text_is};
use crate::window_info::WindowInfo;

verus! {

/// The filter modes, as named in a target configuration.
#[derive(Debug, Clone, Copy, PartialEq, Eq, Structural)]
pub enum TargetMode {
    /// Admits nothing.
    Disabled,
    /// Admits everything.
    All,
    /// The foreground title contains the value, ignoring case.
    Title,
    /// The foreground process name equals the value, ignoring case.
    Process,
    /// The foreground window handle equals the value exactly.
    Hwnd,
    /// The foreground window class equals the value, ignoring case.
    Class,
    /// Any other name; admits nothing.
    Unknown,
}

pub open spec fn mode_of(s: Seq<char>) -> TargetMode {
    if s == "disabled"@ {
        TargetMode::Disabled
    } else if s == "all"@ {
        TargetMode::All
    } else if s == "title"@ {
        TargetMode::Title
    } else if s == "process"@ {
        TargetMode::Process
    } else if s == "hwnd"@ {
        TargetMode::Hwnd
    } else if s == "class"@ {
        TargetMode::Class
    } else {
        TargetMode::Unknown
    }
}

/// The mode that `mode` names.
pub fn parse_mode(mode: &str) -> (r: TargetMode)
    ensures
        r == mode_of(mode@),
{
    if text_is(mode, "disabled") {
        TargetMode::Disabled
    } else if text_is(mode, "all") {
        TargetMode::All
    } else if text_is(mode, "title") {
        TargetMode::Title
    } else if text_is(mode, "process") {
        TargetMode::Process
    } else if text_is(mode, "hwnd") {
        TargetMode::Hwnd
    } else if text_is(mode, "class") {
        TargetMode::Class
    } else {
        TargetMode::Unknown
    }
}

/// Whether the mode matches against the foreground window.
pub open spec fn reads_window(m: TargetMode) -> bool {
    m == TargetMode::Title || m == TargetMode::Process || m == TargetMode::Hwnd || m
        == TargetMode::Class
}

/// Whether deciding on `mode` needs the foreground window; for the other
/// modes the window is not read, and need not be queried.
pub fn target_needs_window(mode: &str) -> (r: bool)
    ensures
        r == reads_window(mode_of(mode@)),
{
    let m = parse_mode(mode);
    match m {
        TargetMode::Title | TargetMode::Process | TargetMode::Hwnd | TargetMode::Class => true,
        _ => false,
    }
}

/// The filter's decision for mode name `mode`, match value `value`, and the
/// foreground window `window` (`None` when it could not be determined).
pub open spec fn admits(mode: Seq<char>, value: Option<Seq<char>>, window: Option<WindowInfo>) -> bool {
    match mode_of(mode) {
        TargetMode::Disabled => false,
        TargetMode::All => true,
        TargetMode::Unknown => false,
        m => match (value, window) {
            (Some(v), Some(w)) => match m {
                TargetMode::Title => has_infix(lower_of(w.title@), lower_of(v)),
                TargetMode::Process => lower_of(w.process@) == lower_of(v),
                TargetMode::Hwnd => w.hwnd@ == v,
                _ => lower_of(w.class@) == lower_of(v),
            },
            _ => false,
        },
    }
}

/// Whether input should be tracked, for mode name `mode` and match value
/// `value`, while `window` is in the foreground.
///
/// "disabled" admits nothing and "all" everything. "title" admits when the
/// window title contains the value, "process" and "class" when the process
/// name or class equals it, all ignoring case; "hwnd" when the handle text
/// equals it exactly. A missing value, a missing window, or any other mode
/// name admits nothing.
pub fn should_process_event_cached(
    mode: &str,
    value: &Option<String>,
    window: &Option<WindowInfo>,
) -> (r: bool)
    ensures
        r == admits(mode@, opt_view(*value), *window),
{
    let m = parse_mode(mode);
    match m {
        TargetMode::Disabled => false,
        TargetMode::All => true,
        TargetMode::Unknown => false,
        _ => match (value, window) {
            (Some(v), Some(w)) => match m {
                TargetMode::Title => contains_text(
                    lowercase(w.title.as_str()).as_str(),
                    lowercase(v.as_str()).as_str(),
                ),
                TargetMode::Process => text_is(
                    lowercase(w.process.as_str()).as_str(),
                    lowercase(v.as_str()).as_str(),
                ),
                TargetMode::Hwnd => text_is(w.hwnd.as_str(), v.as_str()),
                _ => text_is(
                    lowercase(w.class.as_str()).as_str(),
                    lowercase(v.as_str()).as_str(),
                ),
            },
            _ => false,
        },
    }
}

/// Whether input should be tracked under `target_config` while `window` is
/// in the foreground.
pub fn should_process_event(target_config: &TargetConfig, window: &Option<WindowInfo>) -> (r:
    bool)
    ensures
        r == admits(target_config.mode@, opt_view(target_config.value), *window),
{
    should_process_event_cached(target_config.mode.as_str(), &target_config.value, window)
}

} // verus!

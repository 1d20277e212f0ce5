use vstd::prelude::*;

use crate::config::TargetConfig;
use crate::filter::{admits, mode_of, reads_window, should_process_event, should_process_event_cached, target_needs_window};
use crate::keys::{keycode_to_label, monitored, monitored_key, polling_code, tap_label, MONITORED_KEY_COUNT};
use crate::registry::KeyRegistry;
use crate::state::AppState;
use crate::text::{copy_opt, opt_view, text_is};
use crate::window_info::WindowInfo;

verus! {

// The decisions of the three capture strategies. Each strategy's thread
// performs the platform I/O (receiving a hook event, sampling key states,
// querying the foreground window) and hands the outcome to one of the steps
// below, which applies it to the shared state.

/// An input event of the hook-based capture, already resolved to a code and,
/// for presses, a label.
#[derive(Debug, Clone)]
pub enum InputEvent {
    KeyPress { code: u32, label: String },
    KeyRelease { code: u32 },
    ButtonPress { code: u32, label: String },
    ButtonRelease { code: u32 },
}

impl InputEvent {
    pub open spec fn is_press(&self) -> bool {
        self is KeyPress || self is ButtonPress
    }
}

/// Events between two reads of the shared target filter.
pub const CONFIG_REFRESH_INTERVAL: u32 = 50;

/// The event consumer of the hook-based capture. It keeps a copy of the
/// target filter, refreshed every `CONFIG_REFRESH_INTERVAL` events, so that
/// not every event has to read the shared state's filter.
pub struct InputProcessor {
    cached_mode: String,
    cached_value: Option<String>,
    counter: u32,
}

impl InputProcessor {
    pub closed spec fn wf(&self) -> bool {
        self.counter < CONFIG_REFRESH_INTERVAL
    }

    /// The cached filter mode; empty before the first refresh.
    pub closed spec fn mode(&self) -> Seq<char> {
        self.cached_mode@
    }

    /// The cached filter value.
    pub closed spec fn value(&self) -> Option<Seq<char>> {
        opt_view(self.cached_value)
    }

    /// Events counted since the last refresh.
    pub closed spec fn count(&self) -> nat {
        self.counter as nat
    }

    pub fn new() -> (r: Self)
        ensures
            r.wf(),
            r.mode().len() == 0,
            r.value() is None,
            r.count() == 0,
    {
        InputProcessor { cached_mode: String::new(), cached_value: None, counter: 0 }
    }

    /// Counts one event and tells whether the cached filter is due for a
    /// refresh: every `CONFIG_REFRESH_INTERVAL` events, and while nothing is
    /// cached yet. The count restarts when it is due.
    pub fn count_event(&mut self) -> (r: bool)
        requires
            old(self).wf(),
        ensures
            final(self).wf(),
            r == (old(self).count() + 1 >= CONFIG_REFRESH_INTERVAL || old(self).mode().len() == 0),
            r ==> final(self).count() == 0,
            !r ==> final(self).count() == old(self).count() + 1,
            final(self).mode() == old(self).mode(),
            final(self).value() == old(self).value(),
    {
        self.counter = self.counter + 1;
        if self.counter >= CONFIG_REFRESH_INTERVAL || self.cached_mode.unicode_len() == 0 {
            self.counter = 0;
            true
        } else {
            false
        }
    }

    /// Copies the target filter of `config` into the cache.
    pub fn refresh(&mut self, config: &TargetConfig)
        requires
            old(self).wf(),
        ensures
            final(self).wf(),
            final(self).mode() == config.mode@,
            final(self).value() == opt_view(config.value),
            final(self).count() == old(self).count(),
    {
        self.cached_mode = String::from_str(config.mode.as_str());
        self.cached_value = copy_opt(&config.value);
    }

    /// Whether processing `event` reads the foreground window.
    pub fn needs_window(&self, event: &InputEvent) -> (r: bool)
        ensures
            r == (event.is_press() && reads_window(mode_of(self.mode()))),
    {
        match event {
            InputEvent::KeyPress { .. } | InputEvent::ButtonPress { .. } => target_needs_window(
                self.cached_mode.as_str(),
            ),
            _ => false,
        }
    }

    /// Applies one event to `state`, with `window` in the foreground.
    ///
    /// A press is tracked only when the cached filter admits it. A release is
    /// applied when its key is tracked or the filter admits everything, so a
    /// key pressed before the filter changed still goes up; a release of a key
    /// not tracked changes nothing either way.
    pub fn process(&self, state: &mut AppState, event: InputEvent, window: &Option<WindowInfo>)
        requires
            old(state).wf(),
        ensures
            final(state).wf(),
            final(state).same_settings(old(state)),
            match event {
                InputEvent::KeyPress { code, label } | InputEvent::ButtonPress { code, label } => {
                    if admits(self.mode(), self.value(), *window) {
                        final(state)@ == old(state)@.press(code, label@)
                    } else {
                        final(state)@ == old(state)@
                    }
                },
                InputEvent::KeyRelease { code } | InputEvent::ButtonRelease { code } => {
                    final(state)@ == old(state)@.release(code)
                },
            },
    {
        match event {
            InputEvent::KeyPress { code, label } | InputEvent::ButtonPress { code, label } => {
                if should_process_event_cached(
                    self.cached_mode.as_str(),
                    &self.cached_value,
                    window,
                ) {
                    state.add_key(code, label);
                }
            },
            InputEvent::KeyRelease { code } | InputEvent::ButtonRelease { code } => {
                if state.is_key_pressed(code) || text_is(self.cached_mode.as_str(), "all") {
                    state.remove_key(code);
                }
            },
        }
    }
}

/// The registry after pressing, in table order, each of the first `n`
/// monitored keys that is down now and was not before.
pub open spec fn press_new(r: KeyRegistry, was: Seq<bool>, down: Seq<bool>, n: int) -> KeyRegistry
    decreases n,
{
    if n <= 0 {
        r
    } else {
        let p = press_new(r, was, down, n - 1);
        if down[n - 1] && !was[n - 1] {
            p.press(polling_code(monitored(n - 1).0), monitored(n - 1).1)
        } else {
            p
        }
    }
}

/// The registry after releasing, in table order, each of the first `n`
/// monitored keys that was down before and is not now.
pub open spec fn release_gone(r: KeyRegistry, was: Seq<bool>, down: Seq<bool>, n: int) -> KeyRegistry
    decreases n,
{
    if n <= 0 {
        r
    } else {
        let p = release_gone(r, was, down, n - 1);
        if !down[n - 1] && was[n - 1] {
            p.release(polling_code(monitored(n - 1).0))
        } else {
            p
        }
    }
}

/// The polling capture's memory of which monitored keys it last saw down,
/// one flag per entry of the monitored key set.
pub struct KeyPoller {
    was_down: Vec<bool>,
}

impl KeyPoller {
    pub closed spec fn wf(&self) -> bool {
        self.was_down@.len() == MONITORED_KEY_COUNT
    }

    /// Which monitored keys were last seen down.
    pub closed spec fn seen(&self) -> Seq<bool> {
        self.was_down@
    }

    /// A poller that has seen no key down.
    pub fn new() -> (r: Self)
        ensures
            r.wf(),
            r.seen() == Seq::new(MONITORED_KEY_COUNT as nat, |i: int| false),
    {
        let mut v: Vec<bool> = Vec::new();
        let mut i: usize = 0;
        while i < MONITORED_KEY_COUNT
            invariant
                i <= MONITORED_KEY_COUNT,
                v@ == Seq::new(i as nat, |j: int| false),
            decreases MONITORED_KEY_COUNT - i,
        {
            v.push(false);
            assert(v@ =~= Seq::new((i + 1) as nat, |j: int| false));
            i = i + 1;
        }
        KeyPoller { was_down: v }
    }

    /// Forgets every key seen down.
    fn forget(&mut self)
        requires
            old(self).wf(),
        ensures
            final(self).wf(),
            final(self).seen() == Seq::new(MONITORED_KEY_COUNT as nat, |i: int| false),
    {
        let mut i: usize = 0;
        while i < MONITORED_KEY_COUNT
            invariant
                self.wf(),
                i <= MONITORED_KEY_COUNT,
                forall|j: int| 0 <= j < i ==> !self.was_down@[j],
            decreases MONITORED_KEY_COUNT - i,
        {
            self.was_down.set(i, false);
            i = i + 1;
        }
        assert(self.was_down@ =~= Seq::new(MONITORED_KEY_COUNT as nat, |i: int| false));
    }

    /// One tick of the polling capture.
    ///
    /// `tracking` is the filter's decision for this tick. When it refuses, every
    /// tracked key is dropped at once (and the poller forgets what it saw) so
    /// that no chip stays stuck; nothing happens if nothing was tracked. When
    /// it admits, `down` holds the sampled state of each monitored key: keys
    /// that went down are pressed in table order, then keys that went up are
    /// released in table order.
    pub fn poll_tick(&mut self, state: &mut AppState, tracking: bool, down: &Vec<bool>)
        requires
            old(self).wf(),
            old(state).wf(),
            tracking ==> down@.len() == MONITORED_KEY_COUNT,
        ensures
            final(self).wf(),
            final(state).wf(),
            final(state).same_settings(old(state)),
            !tracking && old(state)@.codes.dom().len() > 0 ==> final(state)@ == KeyRegistry::empty()
                && final(self).seen() == Seq::new(MONITORED_KEY_COUNT as nat, |i: int| false),
            !tracking && old(state)@.codes.dom().len() == 0 ==> final(state)@ == old(state)@
                && final(self).seen() == old(self).seen(),
            tracking ==> final(state)@ == release_gone(
                press_new(old(state)@, old(self).seen(), down@, MONITORED_KEY_COUNT as int),
                old(self).seen(),
                down@,
                MONITORED_KEY_COUNT as int,
            ) && final(self).seen() == down@,
    {
        if !tracking {
            if state.keys.any_down() {
                state.clear_keys();
                self.forget();
            }
            return;
        }
        let ghost start = state@;
        let mut i: usize = 0;
        while i < MONITORED_KEY_COUNT
            invariant
                self.wf(),
                state.wf(),
                state.same_settings(old(state)),
                down@.len() == MONITORED_KEY_COUNT,
                self.seen() == old(self).seen(),
                i <= MONITORED_KEY_COUNT,
                state@ == press_new(start, self.seen(), down@, i as int),
            decreases MONITORED_KEY_COUNT - i,
        {
            if down[i] && !self.was_down[i] {
                let (vk, label) = monitored_key(i);
                state.add_key((vk as u32) + 0x8000_0000, String::from_str(label));
            }
            i = i + 1;
        }
        let ghost pressed = state@;
        let mut k: usize = 0;
        while k < MONITORED_KEY_COUNT
            invariant
                self.wf(),
                state.wf(),
                state.same_settings(old(state)),
                down@.len() == MONITORED_KEY_COUNT,
                self.seen() == old(self).seen(),
                k <= MONITORED_KEY_COUNT,
                state@ == release_gone(pressed, self.seen(), down@, k as int),
            decreases MONITORED_KEY_COUNT - k,
        {
            if !down[k] && self.was_down[k] {
                let (vk, _label) = monitored_key(k);
                state.remove_key((vk as u32) + 0x8000_0000);
            }
            k = k + 1;
        }
        let mut j: usize = 0;
        while j < MONITORED_KEY_COUNT
            invariant
                self.wf(),
                down@.len() == MONITORED_KEY_COUNT,
                j <= MONITORED_KEY_COUNT,
                forall|t: int| 0 <= t < j ==> self.was_down@[t] == down@[t],
            decreases MONITORED_KEY_COUNT - j,
        {
            self.was_down.set(j, down[j]);
            j = j + 1;
        }
        assert(self.was_down@ =~= down@);
    }
}

/// Applies one event of the tap-based capture to `state`, with `window` in
/// the foreground: a key going down (`key_down`) or up, by hardware key code.
///
/// A key going down is tracked, under its table label, only when the state's
/// target filter admits it; a key going up is always applied.
pub fn handle_tap_event(state: &mut AppState, key_down: bool, keycode: i64, window: &Option<WindowInfo>)
    requires
        old(state).wf(),
    ensures
        final(state).wf(),
        final(state).same_settings(old(state)),
        key_down && admits(old(state).target_config.mode@, opt_view(old(state).target_config.value), *window)
            ==> final(state)@ == old(state)@.press(keycode as u32, tap_label(keycode as u16)),
        key_down && !admits(old(state).target_config.mode@, opt_view(old(state).target_config.value), *window)
            ==> final(state)@ == old(state)@,
        !key_down ==> final(state)@ == old(state)@.release(keycode as u32),
{
    if key_down {
        if should_process_event(&state.target_config, window) {
            let label = keycode_to_label(keycode as u16);
            state.add_key(keycode as u32, label);
        }
    } else {
        state.remove_key(keycode as u32);
    }
}

} // verus!

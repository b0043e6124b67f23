//! Process-wide rewind configuration and the global mode flag.

use vstd::prelude::*;

verus! {

/// Process-wide configuration for history capture and rewind, immutable
/// during a tick and mutable between ticks by the host.
#[derive(Clone, Copy)]
pub struct RewindSettings {
    /// Upper bound on entries retained per tracked history. A bound of 0
    /// means no history is ever retained, so rewinding always no-ops.
    pub max_capture_count: usize,
    /// Force-exit rewind mode the instant any tracked history is found empty
    /// during a rewind tick.
    pub cancel_on_empty_history: bool,
}

impl RewindSettings {
    /// Constructor for [`RewindSettings`].
    pub fn new(max_capture_count: usize, cancel_on_empty_history: bool) -> (s: Self)
        ensures
            s.max_capture_count == max_capture_count,
            s.cancel_on_empty_history == cancel_on_empty_history,
    {
        RewindSettings { max_capture_count, cancel_on_empty_history }
    }
}

impl Default for RewindSettings {
    /// 300 captures: five seconds of replay at 60 ticks per second, with the
    /// cancellation policy off.
    fn default() -> (s: Self)
        ensures
            s.max_capture_count == 300,
            s.cancel_on_empty_history == false,
    {
        RewindSettings { max_capture_count: 300, cancel_on_empty_history: false }
    }
}

/// The global rewind-mode flag: initialized to false, toggled by the host,
/// sampled fresh every tick by every driver, and force-reset to false by the
/// driver itself under the cancellation policy.
pub struct Rewinding {
    rewinding: bool,
}

impl View for Rewinding {
    type V = bool;

    closed spec fn view(&self) -> bool {
        self.rewinding
    }
}

impl Rewinding {
    /// Enter (`true`) or leave (`false`) rewind mode.
    pub fn set_rewinding(&mut self, value: bool)
        ensures
            final(self)@ == value,
    {
        self.rewinding = value;
    }

    /// Whether rewind mode is currently active.
    pub fn is_rewinding(&self) -> (b: bool)
        ensures
            b == self@,
    {
        self.rewinding
    }
}

impl Default for Rewinding {
    /// The simulation starts out of rewind mode.
    fn default() -> (r: Self)
        ensures
            r@ == false,
    {
        Rewinding { rewinding: false }
    }
}

/// Run condition: true while rewind mode is active.
pub fn rewinding(mode: &Rewinding) -> (b: bool)
    ensures
        b == mode@,
{
    mode.is_rewinding()
}

/// Top-level configuration bundle a host installs to gain the ability to
/// rewind: the settings every driver will read.
pub struct RewindPlugin {
    /// The [`RewindSettings`] to start with.
    pub settings: RewindSettings,
}

impl RewindPlugin {
    /// Constructor for [`RewindPlugin`].
    pub fn new(max_capture_count: usize, cancel_on_empty_history: bool) -> (p: Self)
        ensures
            p.settings.max_capture_count == max_capture_count,
            p.settings.cancel_on_empty_history == cancel_on_empty_history,
    {
        RewindPlugin { settings: RewindSettings::new(max_capture_count, cancel_on_empty_history) }
    }
}

impl Default for RewindPlugin {
    /// The default settings: 300 retained captures, cancellation off.
    fn default() -> (p: Self)
        ensures
            p.settings.max_capture_count == 300,
            p.settings.cancel_on_empty_history == false,
    {
        RewindPlugin { settings: RewindSettings::default() }
    }
}

} // verus!

use vstd::prelude::*;
use crate::errors::PasteError;
use crate::hotkey::{HotkeyConfig, HotkeyConfigView, spec_default_config, spec_description, spec_valid};

verus! {

/// Shared playback state: the pause gate, the current trigger configuration,
/// and whether a playback pass is in flight. The process holds one instance
/// behind its synchronization boundary; these methods are the decisions the
/// driver takes while it performs the clipboard reads, keystroke emission and
/// sleeps around them.
pub struct PasteState {
    pub is_paused: bool,
    pub shortcut: HotkeyConfig,
    pub is_pasting: bool,
}

/// Mathematical model of a `PasteState`.
pub ghost struct PasteStateView {
    pub is_paused: bool,
    pub shortcut: HotkeyConfigView,
    pub is_pasting: bool,
}

impl View for PasteState {
    type V = PasteStateView;

    open spec fn view(&self) -> PasteStateView {
        PasteStateView {
            is_paused: self.is_paused,
            shortcut: self.shortcut@,
            is_pasting: self.is_pasting,
        }
    }
}

/// The same state with the in-flight flag set as given.
pub open spec fn spec_with_pasting(s: PasteStateView, pasting: bool) -> PasteStateView {
    PasteStateView { is_pasting: pasting, ..s }
}

/// The same state with the pause gate flipped.
pub open spec fn spec_toggle_pause(s: PasteStateView) -> PasteStateView {
    PasteStateView { is_paused: !s.is_paused, ..s }
}

/// The same state with the stored configuration replaced.
pub open spec fn spec_with_shortcut(s: PasteStateView, c: HotkeyConfigView) -> PasteStateView {
    PasteStateView { shortcut: c, ..s }
}

/// The pause gate is its own inverse: flipping it twice restores the state
/// exactly.
pub proof fn lemma_toggle_pause_involution(s: PasteStateView)
    ensures
        spec_toggle_pause(spec_toggle_pause(s)) == s,
{
}

/// What a trigger signal amounts to, given the state it arrives in.
#[derive(Clone, Copy, Debug, PartialEq, Eq, Structural)]
pub enum TriggerDecision {
    /// The engine is paused: report `Suspended`; nothing was changed and the
    /// clipboard must not be touched.
    Rejected,
    /// A playback was in flight: it is now cancelled; start nothing new.
    CancelPrior,
    /// No playback was in flight: one may start now, and the in-flight flag
    /// is already set for it.
    Start,
}

impl PasteState {
    pub fn new() -> (s: Self)
        ensures
            s@ == (PasteStateView {
                is_paused: false,
                shortcut: spec_default_config(),
                is_pasting: false,
            }),
    {
        PasteState { is_paused: false, shortcut: HotkeyConfig::default(), is_pasting: false }
    }

    /// Decide what a trigger signal means. A trigger while paused is rejected
    /// without touching anything; a trigger while a playback is in flight
    /// cancels that playback instead of starting a second one; otherwise the
    /// in-flight flag is set and a playback may start.
    pub fn on_trigger(&mut self) -> (d: TriggerDecision)
        ensures
            old(self)@.is_paused ==> d == TriggerDecision::Rejected
                && final(self)@ == old(self)@,
            !old(self)@.is_paused && old(self)@.is_pasting ==> d == TriggerDecision::CancelPrior
                && final(self)@ == spec_with_pasting(old(self)@, false),
            !old(self)@.is_paused && !old(self)@.is_pasting ==> d == TriggerDecision::Start
                && final(self)@ == spec_with_pasting(old(self)@, true),
    {
        if self.is_paused {
            TriggerDecision::Rejected
        } else if self.is_pasting {
            self.is_pasting = false;
            TriggerDecision::CancelPrior
        } else {
            self.is_pasting = true;
            TriggerDecision::Start
        }
    }

    /// Whether the current playback is still wanted. The driver polls this
    /// once before each unit; a concurrent trigger clears it.
    pub fn playback_active(&self) -> (b: bool)
        ensures
            b == self@.is_pasting,
    {
        self.is_pasting
    }

    /// Clear the in-flight flag: called when a playback completes, observes a
    /// cancellation, or aborts on a clipboard error.
    pub fn end_playback(&mut self)
        ensures
            final(self)@ == spec_with_pasting(old(self)@, false),
    {
        self.is_pasting = false;
    }

    /// Flip the pause flag and report the new value. A playback already in
    /// flight keeps running; pausing only rejects triggers that arrive later.
    pub fn toggle_pause(&mut self) -> (r: bool)
        ensures
            final(self)@ == spec_toggle_pause(old(self)@),
            r == final(self)@.is_paused,
    {
        self.is_paused = !self.is_paused;
        self.is_paused
    }

    /// The currently stored trigger configuration.
    pub fn get_shortcut(&self) -> (r: HotkeyConfig)
        ensures
            r@ == self@.shortcut,
    {
        self.shortcut.clone()
    }

    /// Replace the stored configuration with a validated new one. An invalid
    /// configuration is rejected and nothing changes; a valid one replaces
    /// the stored value whole, and its description is returned for display.
    /// Rebinding the OS-level trigger to the new accelerator is the driver's
    /// next step; see `conclude_rebind`.
    pub fn update_config(&mut self, config: HotkeyConfig) -> (r: Result<String, PasteError>)
        ensures
            !spec_valid(config@) ==> r == Err::<String, PasteError>(PasteError::InvalidConfig)
                && final(self)@ == old(self)@,
            spec_valid(config@) ==> final(self)@ == spec_with_shortcut(old(self)@, config@)
                && r is Ok && r->Ok_0@ == spec_description(config@),
    {
        match config.validate() {
            Err(e) => Err(e),
            Ok(()) => {
                let description = config.get_description();
                self.shortcut = config;
                Ok(description)
            },
        }
    }
}

/// The immediate result a trigger decision reports: a rejected trigger is the
/// `Suspended` error and nothing more happens; a cancellation is a normal,
/// successful early end; only `Start` (`None` here) goes on to read the
/// clipboard and play.
pub fn trigger_outcome(d: TriggerDecision) -> (r: Option<Result<(), PasteError>>)
    ensures
        d == TriggerDecision::Rejected ==> r == Some(Err::<(), PasteError>(PasteError::Suspended)),
        d == TriggerDecision::CancelPrior ==> r == Some(Ok::<(), PasteError>(())),
        d == TriggerDecision::Start ==> r is None,
{
    match d {
        TriggerDecision::Rejected => Some(Err(PasteError::Suspended)),
        TriggerDecision::CancelPrior => Some(Ok(())),
        TriggerDecision::Start => None,
    }
}

/// Fold the outcome of the OS-level trigger rebinding into the result of a
/// configuration update: on success the description is reported, on failure
/// the update is a partial failure — the configuration was stored but the
/// physical trigger needs a retry or restart.
pub fn conclude_rebind(rebind_ok: bool, description: String) -> (r: Result<String, PasteError>)
    ensures
        rebind_ok ==> r is Ok && r->Ok_0@ == description@,
        !rebind_ok ==> r == Err::<String, PasteError>(PasteError::TriggerRebindFailed),
{
    if rebind_ok {
        Ok(description)
    } else {
        Err(PasteError::TriggerRebindFailed)
    }
}

/// Which accelerator string is currently bound as the OS-level trigger, so a
/// later rebinding can unregister it first.
pub struct GlobalShortcutState {
    pub registered_shortcut: Option<String>,
}

impl GlobalShortcutState {
    pub fn new() -> (s: Self)
        ensures
            s.registered_shortcut is None,
    {
        GlobalShortcutState { registered_shortcut: None }
    }

    /// Record a newly bound accelerator and hand back the one it replaces,
    /// for the driver to unregister.
    pub fn replace_registration(&mut self, accelerator: String) -> (prev: Option<String>)
        ensures
            final(self).registered_shortcut matches Some(a) && a@ == accelerator@,
            prev == old(self).registered_shortcut,
    {
        let prev = self.registered_shortcut.take();
        self.registered_shortcut = Some(accelerator);
        prev
    }
}

} // verus!

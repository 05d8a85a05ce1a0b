use vstd::prelude::*;

verus! {

/// Every failure the paste engine reports. Clipboard failures end the current
/// playback attempt; `Suspended` rejects a trigger while the engine is paused;
/// `InvalidConfig` rejects a hotkey update; `TriggerRebindFailed` reports that
/// a stored configuration could not be bound to an OS-level trigger.
#[derive(Clone, Copy, Debug, PartialEq, Eq, Structural)]
pub enum PasteError {
    Suspended,
    ClipboardOpenFailed,
    ClipboardDataUnavailable,
    ClipboardUnlockFailed,
    ClipboardCloseFailed,
    InvalidConfig,
    TriggerRebindFailed,
}

} // verus!

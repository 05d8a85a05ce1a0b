use vstd::prelude::*;
use vstd::string::StringExecFns;
use crate::errors::PasteError;

verus! {

/// A trigger combination: modifier flags plus a single printable key name, or
/// the intercept mode that forces the system paste combination. The three
/// Ctrl variants are mutually exclusive by convention; when composing strings
/// the plain `ctrl` wins over `left_ctrl`, which wins over `right_ctrl`.
pub struct HotkeyConfig {
    pub alt: bool,
    pub ctrl: bool,
    pub shift: bool,
    pub left_ctrl: bool,
    pub right_ctrl: bool,
    pub key: String,
    pub intercept_ctrl_v: bool,
}

/// Mathematical model of a `HotkeyConfig`: the same flags, with the key as a
/// character sequence.
pub ghost struct HotkeyConfigView {
    pub alt: bool,
    pub ctrl: bool,
    pub shift: bool,
    pub left_ctrl: bool,
    pub right_ctrl: bool,
    pub key: Seq<char>,
    pub intercept_ctrl_v: bool,
}

impl View for HotkeyConfig {
    type V = HotkeyConfigView;

    open spec fn view(&self) -> HotkeyConfigView {
        HotkeyConfigView {
            alt: self.alt,
            ctrl: self.ctrl,
            shift: self.shift,
            left_ctrl: self.left_ctrl,
            right_ctrl: self.right_ctrl,
            key: self.key@,
            intercept_ctrl_v: self.intercept_ctrl_v,
        }
    }
}

/// The documented default: Alt+Ctrl+V, non-intercepting.
pub open spec fn spec_default_config() -> HotkeyConfigView {
    HotkeyConfigView {
        alt: true,
        ctrl: true,
        shift: false,
        left_ctrl: false,
        right_ctrl: false,
        key: "V"@,
        intercept_ctrl_v: false,
    }
}

/// A configuration is legal when it intercepts the system combination or has
/// at least one modifier set.
pub open spec fn spec_valid(c: HotkeyConfigView) -> bool {
    c.alt || c.ctrl || c.shift || c.left_ctrl || c.right_ctrl || c.intercept_ctrl_v
}

/// The platform accelerator string a configuration renders to: the fixed
/// "Control+V" in intercept mode, otherwise the modifier tokens in the fixed
/// order Alt, Ctrl variant, Shift, each followed by the separator, then the
/// key token.
pub open spec fn spec_accelerator(c: HotkeyConfigView) -> Seq<char> {
    if c.intercept_ctrl_v {
        "Control+V"@
    } else {
        (if c.alt {
            "Alt+"@
        } else {
            Seq::<char>::empty()
        }) + (if c.ctrl {
            "Control+"@
        } else if c.left_ctrl {
            "ControlLeft+"@
        } else if c.right_ctrl {
            "ControlRight+"@
        } else {
            Seq::<char>::empty()
        }) + (if c.shift {
            "Shift+"@
        } else {
            Seq::<char>::empty()
        }) + c.key
    }
}

/// The human-readable description of a configuration: a fixed label in
/// intercept mode, otherwise the readable modifier names in the same fixed
/// order as the accelerator, then the key token.
pub open spec fn spec_description(c: HotkeyConfigView) -> Seq<char> {
    if c.intercept_ctrl_v {
        "System Ctrl+V (intercepted)"@
    } else {
        (if c.alt {
            "Alt+"@
        } else {
            Seq::<char>::empty()
        }) + (if c.ctrl {
            "Ctrl+"@
        } else if c.left_ctrl {
            "LeftCtrl+"@
        } else if c.right_ctrl {
            "RightCtrl+"@
        } else {
            Seq::<char>::empty()
        }) + (if c.shift {
            "Shift+"@
        } else {
            Seq::<char>::empty()
        }) + c.key
    }
}

/// In intercept mode the accelerator is the system paste combination, no
/// matter what the other fields hold.
pub proof fn lemma_intercept_forces_system_combo(c: HotkeyConfigView)
    requires
        c.intercept_ctrl_v,
    ensures
        spec_accelerator(c) == "Control+V"@,
{
}

impl Default for HotkeyConfig {
    fn default() -> (r: Self)
        ensures
            r@ == spec_default_config(),
    {
        HotkeyConfig {
            alt: true,
            ctrl: true,
            shift: false,
            left_ctrl: false,
            right_ctrl: false,
            key: "V".to_owned(),
            intercept_ctrl_v: false,
        }
    }
}

impl Clone for HotkeyConfig {
    fn clone(&self) -> (r: Self)
        ensures
            r@ == self@,
    {
        HotkeyConfig {
            alt: self.alt,
            ctrl: self.ctrl,
            shift: self.shift,
            left_ctrl: self.left_ctrl,
            right_ctrl: self.right_ctrl,
            key: self.key.clone(),
            intercept_ctrl_v: self.intercept_ctrl_v,
        }
    }
}

impl HotkeyConfig {
    /// The platform accelerator string for this configuration.
    pub fn to_tauri_accelerator(&self) -> (r: String)
        ensures
            r@ == spec_accelerator(self@),
    {
        if self.intercept_ctrl_v {
            return "Control+V".to_owned();
        }
        let mut s = String::new();
        if self.alt {
            s.append("Alt+");
        }
        if self.ctrl {
            s.append("Control+");
        } else if self.left_ctrl {
            s.append("ControlLeft+");
        } else if self.right_ctrl {
            s.append("ControlRight+");
        }
        if self.shift {
            s.append("Shift+");
        }
        s.append(self.key.as_str());
        proof {
            assert(s@ =~= spec_accelerator(self@));
        }
        s
    }

    /// The human-readable description of this configuration.
    pub fn get_description(&self) -> (r: String)
        ensures
            r@ == spec_description(self@),
    {
        if self.intercept_ctrl_v {
            return "System Ctrl+V (intercepted)".to_owned();
        }
        let mut s = String::new();
        if self.alt {
            s.append("Alt+");
        }
        if self.ctrl {
            s.append("Ctrl+");
        } else if self.left_ctrl {
            s.append("LeftCtrl+");
        } else if self.right_ctrl {
            s.append("RightCtrl+");
        }
        if self.shift {
            s.append("Shift+");
        }
        s.append(self.key.as_str());
        proof {
            assert(s@ =~= spec_description(self@));
        }
        s
    }

    /// A configuration with no modifier set and not intercepting is rejected;
    /// every other configuration is accepted.
    pub fn validate(&self) -> (r: Result<(), PasteError>)
        ensures
            r is Ok <==> spec_valid(self@),
            !spec_valid(self@) ==> r == Err::<(), PasteError>(PasteError::InvalidConfig),
    {
        if !(self.alt || self.ctrl || self.shift || self.left_ctrl || self.right_ctrl)
            && !self.intercept_ctrl_v {
            Err(PasteError::InvalidConfig)
        } else {
            Ok(())
        }
    }
}

} // verus!

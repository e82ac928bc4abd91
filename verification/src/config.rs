//! Read-only configuration handed to the session at startup.
//!
//! The binary loads two structured documents (theme and text) once at
//! startup; the session only needs the display strings it writes into its
//! own state and the timing constants that drive the animation cadences,
//! all as plain values.

use vstd::prelude::*;

verus! {

/// The display strings the state machine stores into session state:
/// titles, prompts, status texts, canned dry-run output and the spinner
/// glyph sequence.
pub struct Texts {
    pub welcome: String,
    pub confirmation_prompt: String,
    pub processing: String,
    pub dry_run_testing: String,
    pub operation_success: String,
    pub custom_disabled: String,
    pub option_disabled: String,
    pub password_prompt: String,
    pub password_empty_error: String,
    pub password_auth_failed: String,
    pub confirm_default_install: String,
    pub confirm_system_update: String,
    pub progress_installing: String,
    pub progress_updating: String,
    pub progress_rebooting: String,
    pub progress_poweroff: String,
    pub dry_run_script_output: Vec<String>,
    pub dry_run_update_output: Vec<String>,
    pub spinner_chars: Vec<String>,
}

impl Texts {
    /// The spinner cycles modulo the glyph sequence's length, so the
    /// sequence must not be empty.
    pub open spec fn wf(self) -> bool {
        self.spinner_chars@.len() > 0
    }
}

/// Timing constants: how often the spinner and the indeterminate bar
/// advance, in milliseconds, and how long a reboot or power-off countdown
/// runs, in seconds.
pub struct Timing {
    pub spinner_speed: u64,
    pub progress_bar_speed: u64,
    pub countdown_seconds: u16,
}

} // verus!

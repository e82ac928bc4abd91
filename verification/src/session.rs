//! The session: the one piece of mutable state, owned by the interaction
//! state machine.
//!
//! The session is created once at startup and mutated exclusively through
//! the transition methods. Rendering is a pure read of its fields. Time
//! enters as a monotonic clock reading in milliseconds; keyboard input
//! enters as [`Key`] events; the outcome of a privileged command enters
//! through [`App::apply_command_result`].

use vstd::prelude::*;

use crate::command::CommandKind;
use crate::config::Texts;
use crate::config::Timing;

verus! {

/// The fixed menu option list.
#[derive(Clone, Copy, Debug, PartialEq, Eq, Structural)]
pub enum InstallerOption {
    Default,
    Custom,
    UpdateSystem,
    Exit,
}

impl InstallerOption {
    /// Only the custom option is disabled in the current design.
    pub fn is_enabled(&self) -> (enabled: bool)
        ensures
            enabled == !(self is Custom),
    {
        match self {
            InstallerOption::Custom => false,
            _ => true,
        }
    }
}

/// The interaction mode the session is in. `Processing` carries the
/// activity label shown while an operation runs or is simulated.
#[derive(Clone, Debug)]
pub enum AppState {
    MainMenu,
    Confirmation,
    PasswordInput,
    Processing(String),
}

/// Which kind of progress feedback is live: an animation with no known
/// completion time, or a countdown with a known total duration in seconds.
#[derive(Clone, Copy, Debug, PartialEq, Eq, Structural)]
pub enum ProgressType {
    Indeterminate,
    Determinant(u16),
}

/// Severity of a transient status message shown after returning to the
/// menu.
#[derive(Clone, Copy, Debug, PartialEq, Eq, Structural)]
pub enum StatusType {
    Success,
    Error,
    Fail,
}

/// The deferred system action: decided during the interactive loop,
/// executed by the outer driver only after the terminal session has been
/// torn down.
#[derive(Clone, Copy, Debug, PartialEq, Eq, Structural)]
pub enum SystemAction {
    Reboot,
    Poweroff,
}

/// A keyboard event, as the session understands it.
#[derive(Clone, Copy, Debug, PartialEq, Eq, Structural)]
pub enum Key {
    Up,
    Down,
    Enter,
    Esc,
    Tab,
    Backspace,
    Char(char),
}

/// A request to launch a privileged command, handed back to the event
/// loop. The secret is moved out of the session when it is needed, so the
/// session's own buffer is already cleared.
pub struct CommandRequest {
    pub kind: CommandKind,
    pub secret: Option<Vec<char>>,
}

/// What a transition asks the event loop to do besides rendering: nothing,
/// or run one privileged command and feed the classified result back in.
pub enum Effect {
    NoCommand,
    Run(CommandRequest),
}

/// The session. All fields are plain values; the invariant [`App::wf`]
/// is established by [`App::new`] and preserved by every transition.
pub struct App {
    pub options: Vec<InstallerOption>,
    pub selected: usize,
    pub should_quit: bool,
    pub dry_run: bool,
    pub status_message: Option<(String, StatusType)>,
    pub show_confirmation: bool,
    pub confirmation_message: String,
    pub app_state: AppState,
    pub text: Texts,
    pub timing: Timing,
    pub progress_type: Option<ProgressType>,
    pub progress_step: usize,
    pub progress_bar_position: usize,
    pub countdown_remaining: u16,
    pub action_output: Vec<String>,
    pub last_spinner_update: u64,
    pub last_progress_update: u64,
    pub last_countdown_update: u64,
    pub dry_run_start_time: Option<u64>,
    pub password_input: Vec<char>,
    pub pending_operation: Option<InstallerOption>,
    pub show_password: bool,
    pub pending_system_action: Option<SystemAction>,
}

/// The menu the session always offers, in order.
pub open spec fn fixed_options() -> Seq<InstallerOption> {
    seq![
        InstallerOption::Default,
        InstallerOption::Custom,
        InstallerOption::UpdateSystem,
        InstallerOption::Exit,
    ]
}

/// Where one step down from `sel` lands in a menu of `n` options: one
/// further, wrapping past the end.
pub open spec fn nav_next(sel: int, n: int) -> int {
    (sel + 1) % n
}

/// Where one step up from `sel` lands in a menu of `n` options: one back,
/// wrapping before the start.
pub open spec fn nav_prev(sel: int, n: int) -> int {
    if sel == 0 {
        n - 1
    } else {
        sel - 1
    }
}

impl App {
    /// Session well-formedness: the menu is the fixed list and the
    /// selection points into it; the spinner sequence is non-empty and the
    /// spinner step stays inside it; the countdown never exceeds its
    /// configured total; the confirmation flag mirrors the confirmation
    /// state; progress feedback exists exactly while processing; and the
    /// secret buffer is empty whenever the session sits at the main menu.
    /// Progress feedback exists only while processing; the one processing
    /// state without it is the moment the session has already requested
    /// process exit.
    pub open spec fn wf(self) -> bool {
        &&& self.options@ == fixed_options()
        &&& self.selected < self.options@.len()
        &&& self.text.wf()
        &&& self.progress_step < self.text.spinner_chars@.len()
        &&& self.countdown_remaining <= self.timing.countdown_seconds
        &&& (self.show_confirmation <==> self.app_state is Confirmation)
        &&& (self.progress_type is Some ==> self.app_state is Processing)
        &&& (self.app_state is Processing && self.progress_type is None ==> self.should_quit)
        &&& (self.app_state is MainMenu ==> self.password_input@.len() == 0)
    }

    /// Creates the session at the main menu: nothing selected beyond the
    /// first option, no pending operation, no progress, empty buffers, and
    /// the given immutable dry-run mode. `now_ms` seeds the tick
    /// timestamps.
    pub fn new(dry_run: bool, text: Texts, timing: Timing, now_ms: u64) -> (app: App)
        requires
            text.wf(),
        ensures
            app.wf(),
            app.app_state is MainMenu,
            app.selected == 0,
            !app.should_quit,
            app.dry_run == dry_run,
            app.status_message is None,
            !app.show_confirmation,
            app.confirmation_message@.len() == 0,
            app.text == text,
            app.timing == timing,
            app.progress_type is None,
            app.progress_step == 0,
            app.progress_bar_position == 0,
            app.countdown_remaining == 0,
            app.action_output@.len() == 0,
            app.last_spinner_update == now_ms,
            app.last_progress_update == now_ms,
            app.last_countdown_update == now_ms,
            app.dry_run_start_time is None,
            app.password_input@.len() == 0,
            app.pending_operation is None,
            !app.show_password,
            app.pending_system_action is None,
    {
        let mut options: Vec<InstallerOption> = Vec::new();
        options.push(InstallerOption::Default);
        options.push(InstallerOption::Custom);
        options.push(InstallerOption::UpdateSystem);
        options.push(InstallerOption::Exit);
        proof {
            assert(options@ =~= fixed_options());
        }
        App {
            options,
            selected: 0,
            should_quit: false,
            dry_run,
            status_message: None,
            show_confirmation: false,
            confirmation_message: String::new(),
            app_state: AppState::MainMenu,
            text,
            timing,
            progress_type: None,
            progress_step: 0,
            progress_bar_position: 0,
            countdown_remaining: 0,
            action_output: Vec::new(),
            last_spinner_update: now_ms,
            last_progress_update: now_ms,
            last_countdown_update: now_ms,
            dry_run_start_time: None,
            password_input: Vec::new(),
            pending_operation: None,
            show_password: false,
            pending_system_action: None,
        }
    }

    /// Moves the selection one option down, wrapping past the end.
    pub fn next(&mut self)
        requires
            old(self).wf(),
        ensures
            final(self).wf(),
            final(self).selected == nav_next(
                old(self).selected as int,
                old(self).options@.len() as int,
            ),
            *final(self) == (App { selected: final(self).selected, ..*old(self) }),
    {
        self.selected = (self.selected + 1) % self.options.len();
    }

    /// Moves the selection one option up, wrapping before the start: up
    /// from the first option selects the last one.
    pub fn previous(&mut self)
        requires
            old(self).wf(),
        ensures
            final(self).wf(),
            final(self).selected == nav_prev(
                old(self).selected as int,
                old(self).options@.len() as int,
            ),
            *final(self) == (App { selected: final(self).selected, ..*old(self) }),
    {
        self.selected = if self.selected == 0 {
            self.options.len() - 1
        } else {
            self.selected - 1
        };
    }

    /// Drops the transient status message.
    pub fn clear_status(&mut self)
        ensures
            *final(self) == (App { status_message: None, ..*old(self) }),
    {
        self.status_message = None;
    }
}

} // verus!

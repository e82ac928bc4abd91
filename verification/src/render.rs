//! Pure reads of the session that drive the presentation layer.
//!
//! Rendering itself (widgets, colors, layout) lives outside the library;
//! these functions compute the session-dependent pieces of it: the title
//! line, the current spinner glyph, and the progress bar's cell pattern.

use vstd::prelude::*;

use crate::session::App;
use crate::session::AppState;
use crate::session::ProgressType;

verus! {

/// The text shown in the title area: the testing banner while progress is
/// live, otherwise the prompt of the current interaction mode.
pub open spec fn title_text_view(s: App) -> Seq<char> {
    if s.progress_type is Some {
        s.text.dry_run_testing@
    } else {
        match s.app_state {
            AppState::MainMenu => s.text.welcome@,
            AppState::Confirmation => s.text.confirmation_prompt@,
            AppState::PasswordInput => s.text.password_prompt@,
            AppState::Processing(action) => action@,
        }
    }
}

/// How many cells the progress bar gets inside a status area of the given
/// width, leaving room for the margins.
pub open spec fn bar_width_of(width: u16) -> int {
    if width >= 4 {
        width - 4
    } else {
        0
    }
}

/// The glyph of one indeterminate-bar cell: a window of four filled cells
/// ending at `pos` scrolls across the bar.
pub open spec fn indeterminate_cell(pos: int, i: int) -> char {
    if pos - 3 <= i <= pos {
        '\u{2501}'
    } else {
        '\u{2500}'
    }
}

/// How many countdown-bar cells are filled: the remaining share of the
/// configured total, scaled to the bar's width.
pub open spec fn determinate_filled(countdown: u16, total: u16, bar_width: int) -> int {
    if total == 0 {
        0
    } else {
        countdown * bar_width / (total as int)
    }
}

impl App {
    /// The title line for the current state.
    pub fn get_title_text(&self) -> (title: String)
        ensures
            title@ == title_text_view(*self),
    {
        match &self.progress_type {
            Some(_) => self.text.dry_run_testing.clone(),
            None => match &self.app_state {
                AppState::MainMenu => self.text.welcome.clone(),
                AppState::Confirmation => self.text.confirmation_prompt.clone(),
                AppState::PasswordInput => self.text.password_prompt.clone(),
                AppState::Processing(action) => action.clone(),
            },
        }
    }

    /// The spinner glyph for the current step, shown only while an
    /// indeterminate operation runs.
    pub fn get_spinner_char(&self) -> (glyph: String)
        requires
            self.wf(),
        ensures
            self.progress_type == Some(ProgressType::Indeterminate) ==> glyph@
                == self.text.spinner_chars@[self.progress_step as int]@,
            self.progress_type != Some(ProgressType::Indeterminate) ==> glyph@.len() == 0,
    {
        match &self.progress_type {
            Some(ProgressType::Indeterminate) => self.text.spinner_chars[
                self.progress_step
            ].clone(),
            _ => String::new(),
        }
    }

    /// The progress bar's cells for a status area of the given width: a
    /// scrolling window while indeterminate, the remaining share of the
    /// countdown while determinate, and nothing when no progress is live.
    pub fn get_progress_bar(&self, width: u16) -> (bar: Vec<char>)
        requires
            self.wf(),
        ensures
            self.progress_type is None ==> bar@.len() == 0,
            self.progress_type matches Some(kind) ==> {
                &&& bar@.len() == bar_width_of(width)
                &&& (kind is Indeterminate ==> forall|i: int|
                    0 <= i < bar@.len() ==> bar@[i] == indeterminate_cell(
                        (self.progress_bar_position as int) % (bar_width_of(width) + 6),
                        i,
                    ))
                &&& (kind matches ProgressType::Determinant(_) ==> forall|i: int|
                    0 <= i < bar@.len() ==> bar@[i] == (if i < determinate_filled(
                        self.countdown_remaining,
                        self.timing.countdown_seconds,
                        bar_width_of(width),
                    ) {
                        '\u{2501}'
                    } else {
                        '\u{2500}'
                    }))
            },
    {
        let kind = match self.progress_type {
            Some(k) => k,
            None => {
                return Vec::new();
            },
        };
        let bar_width16: u16 = if width >= 4 {
            width - 4
        } else {
            0
        };
        let bar_width: usize = bar_width16 as usize;
        let mut bar: Vec<char> = Vec::new();
        match kind {
            ProgressType::Indeterminate => {
                let cycle: usize = bar_width + 6;
                let pos: usize = self.progress_bar_position % cycle;
                let mut i: usize = 0;
                while i < bar_width
                    invariant
                        i <= bar_width,
                        bar@.len() == i,
                        pos == (self.progress_bar_position as int) % (bar_width + 6),
                        bar_width == bar_width_of(width),
                        forall|k: int| 0 <= k < i ==> bar@[k] == indeterminate_cell(pos as int, k),
                    decreases bar_width - i,
                {
                    let cell = if i <= pos && pos <= i + 3 {
                        '\u{2501}'
                    } else {
                        '\u{2500}'
                    };
                    bar.push(cell);
                    i = i + 1;
                }
            },
            ProgressType::Determinant(_) => {
                let total = self.timing.countdown_seconds;
                let filled: usize = if total == 0 {
                    0
                } else {
                    proof {
                        assert((self.countdown_remaining as int) * (bar_width16 as int) <= 65535
                            * 65535) by (nonlinear_arith)
                            requires
                                self.countdown_remaining <= 65535,
                                bar_width16 <= 65535,
                        ;
                    }
                    (((self.countdown_remaining as u32) * (bar_width16 as u32)) / (
                    total as u32)) as usize
                };
                let mut i: usize = 0;
                while i < bar_width
                    invariant
                        i <= bar_width,
                        bar@.len() == i,
                        bar_width == bar_width_of(width),
                        filled == determinate_filled(
                            self.countdown_remaining,
                            self.timing.countdown_seconds,
                            bar_width as int,
                        ),
                        forall|k: int|
                            0 <= k < i ==> bar@[k] == (if k < filled {
                                '\u{2501}'
                            } else {
                                '\u{2500}'
                            }),
                    decreases bar_width - i,
                {
                    let cell = if i < filled {
                        '\u{2501}'
                    } else {
                        '\u{2500}'
                    };
                    bar.push(cell);
                    i = i + 1;
                }
            },
        }
        bar
    }
}

} // verus!

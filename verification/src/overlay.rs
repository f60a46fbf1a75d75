//! The overlay shown above a running game: when it shows, and what the
//! launcher does with the game's process.
use vstd::prelude::*;
use crate::ui::ModalResult;

verus! {

/// Whether the overlay is shown and whether a game's process is known.
pub struct OverlayState {
    pub showing: bool,
    pub has_process: bool,
}

/// What happened to an input sent to the overlay.
#[derive(Copy, Clone, Debug, PartialEq, Eq, Structural)]
pub enum OverlayInput {
    /// The overlay does not handle it.
    Ignored,
    /// The overlay was shown or hidden.
    Toggled,
    /// The overlay's dialog handles it.
    Modal,
}

/// What the launcher learned of the game's process.
#[derive(Copy, Clone, Debug, PartialEq, Eq, Structural)]
pub enum ProcessStatus {
    Running,
    Exited,
    /// Its status could not be read.
    Unknown,
}

impl OverlayState {
    /// Hidden, with no game running.
    pub fn new() -> (o: OverlayState)
        ensures
            !o.showing,
            !o.has_process,
    {
        OverlayState { showing: false, has_process: false }
    }

    /// A game was started.
    pub fn set_process(&mut self)
        ensures
            final(self).has_process,
            final(self).showing == old(self).showing,
    {
        self.has_process = true;
    }

    /// Shows the overlay.
    pub fn toggle_visibility(&mut self)
        ensures
            final(self).showing,
            final(self).has_process == old(self).has_process,
    {
        self.showing = true;
    }

    /// Takes an input while a game may run: without a game nothing
    /// happens; the overlay key shows the overlay; anything else goes to
    /// the overlay's dialog while it is shown.
    pub fn on_input(&mut self, toggle: bool) -> (r: OverlayInput)
        ensures
            final(self).has_process == old(self).has_process,
            r == (if !old(self).has_process {
                OverlayInput::Ignored
            } else if toggle {
                OverlayInput::Toggled
            } else if old(self).showing {
                OverlayInput::Modal
            } else {
                OverlayInput::Ignored
            }),
            final(self).showing == (if old(self).has_process && toggle {
                true
            } else {
                old(self).showing
            }),
    {
        if !self.has_process {
            return OverlayInput::Ignored;
        }
        if toggle {
            self.toggle_visibility();
            return OverlayInput::Toggled;
        }
        if self.showing {
            OverlayInput::Modal
        } else {
            OverlayInput::Ignored
        }
    }

    /// Takes the answer of the overlay's dialog: confirming ends the game
    /// and hides the overlay. Returns whether the game must be stopped.
    pub fn on_modal_result(&mut self, result: ModalResult) -> (stop: bool)
        ensures
            stop == (result == ModalResult::Confirm),
            stop ==> !final(self).has_process && !final(self).showing,
            !stop ==> *final(self) == *old(self),
    {
        if let ModalResult::Confirm = result {
            self.has_process = false;
            self.showing = false;
            return true;
        }
        false
    }

    /// Whether the game still runs, given what was learned of its process;
    /// a game that exited, killed in the background, is forgotten and the
    /// overlay hidden.
    pub fn process_is_running(&mut self, status: ProcessStatus) -> (running: bool)
        ensures
            running == (old(self).has_process && status == ProcessStatus::Running),
            final(self).has_process == (old(self).has_process && status != ProcessStatus::Exited),
            final(self).showing == (if old(self).has_process && status == ProcessStatus::Exited {
                false
            } else {
                old(self).showing
            }),
    {
        if !self.has_process {
            return false;
        }
        match status {
            ProcessStatus::Running => true,
            ProcessStatus::Exited => {
                self.has_process = false;
                self.showing = false;
                false
            },
            ProcessStatus::Unknown => false,
        }
    }
}

} // verus!

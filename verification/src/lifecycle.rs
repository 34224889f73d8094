//! The life of the documentation window, as far as the open operation and the
//! user can change it.

use vstd::prelude::*;

verus! {

/// Where the documentation window stands.
#[derive(Clone, Copy, Debug, PartialEq, Eq, Structural)]
pub enum WindowState {
    /// No window carries the label. This is the state before the first
    /// invocation.
    Absent,
    /// The window exists and does not have the focus.
    PresentUnfocused,
    /// The window exists and has the focus.
    PresentFocused,
}

/// What the user can do to the window from outside the open operation.
#[derive(Clone, Copy, Debug, PartialEq, Eq, Structural)]
pub enum ExternalEvent {
    /// The user moved the focus to something else.
    FocusLost,
    /// The user closed the window.
    Closed,
}

impl WindowState {
    /// The state before the first invocation.
    pub fn initial() -> (state: WindowState)
        ensures
            state == WindowState::Absent,
    {
        WindowState::Absent
    }

    /// Whether a lookup of the label finds the window.
    pub open spec fn present(self) -> bool {
        self != WindowState::Absent
    }

    /// The state after one invocation of the open operation whose single
    /// request the host served (`succeeded`) or refused. A served request
    /// leaves the window present and focused, whether it was created or only
    /// brought forward. A refused one changes nothing: a failed focus creates
    /// no window, and a failed creation registers none.
    pub open spec fn opened(self, succeeded: bool) -> WindowState {
        if succeeded {
            WindowState::PresentFocused
        } else {
            self
        }
    }

    /// The state after an action of the user. Neither action can reach a
    /// window that is not there; losing the focus leaves an existing window
    /// unfocused, closing removes it.
    pub open spec fn disturbed(self, event: ExternalEvent) -> WindowState {
        match (self, event) {
            (WindowState::Absent, _) => WindowState::Absent,
            (_, ExternalEvent::FocusLost) => WindowState::PresentUnfocused,
            (_, ExternalEvent::Closed) => WindowState::Absent,
        }
    }

    /// Whether a lookup of the label finds the window.
    pub fn is_present(&self) -> (found: bool)
        ensures
            found == self.present(),
    {
        match self {
            WindowState::Absent => false,
            WindowState::PresentUnfocused => true,
            WindowState::PresentFocused => true,
        }
    }

    /// Follows one invocation of the open operation.
    pub fn after_open(self, succeeded: bool) -> (next: WindowState)
        ensures
            next == self.opened(succeeded),
            succeeded ==> next == WindowState::PresentFocused,
            !succeeded ==> next == self,
    {
        if succeeded {
            WindowState::PresentFocused
        } else {
            self
        }
    }

    /// Follows one action of the user.
    pub fn after_external(self, event: ExternalEvent) -> (next: WindowState)
        ensures
            next == self.disturbed(event),
            !self.present() ==> next == WindowState::Absent,
            self.present() && event == ExternalEvent::FocusLost ==> next
                == WindowState::PresentUnfocused,
            self.present() && event == ExternalEvent::Closed ==> next == WindowState::Absent,
    {
        match self {
            WindowState::Absent => WindowState::Absent,
            _ => match event {
                ExternalEvent::FocusLost => WindowState::PresentUnfocused,
                ExternalEvent::Closed => WindowState::Absent,
            },
        }
    }
}

} // verus!

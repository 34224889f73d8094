//! A model of the host's window registry, and what the open operation does to
//! it.
//!
//! The registry belongs to the host; nothing here runs. The model says what
//! the open operation assumes of a host: a lookup finds a window exactly when
//! one carries the label, a served focus request moves the focus and nothing
//! else, a served creation adds the window that was asked for, and a refused
//! request leaves the registry as it was. Each invocation is taken as one
//! step: its lookup and its request are not interleaved with another
//! invocation's.

use vstd::prelude::*;
use crate::command::{RequestView, planned};
use crate::config::{WindowConfigView, docs_label};
use crate::lifecycle::{ExternalEvent, WindowState};

verus! {

/// One window that the host has open.
pub struct OpenWindow {
    pub config: WindowConfigView,
    pub focused: bool,
}

/// The windows that the host has open, oldest first.
pub struct Registry {
    pub windows: Seq<OpenWindow>,
}

/// One thing that happens to the registry.
pub enum Step {
    /// An invocation of the open operation, with the host's reply to its
    /// request: served, or refused with a message.
    Open(Result<(), Seq<char>>),
    /// An action of the user on the documentation window.
    External(ExternalEvent),
}

impl Registry {
    /// The registry of an application that has opened no window yet.
    pub open spec fn empty() -> Registry {
        Registry { windows: Seq::empty() }
    }

    /// Whether the window at `index` carries `label`.
    pub open spec fn labelled(self, index: int, label: Seq<char>) -> bool {
        0 <= index < self.windows.len() && self.windows[index].config.label == label
    }

    /// Whether a lookup of `label` finds a window.
    pub open spec fn holds(self, label: Seq<char>) -> bool {
        exists|index: int| self.labelled(index, label)
    }

    /// Whether a window with `label` has the focus.
    pub open spec fn shows(self, label: Seq<char>) -> bool {
        exists|index: int| #[trigger] self.labelled(index, label) && self.windows[index].focused
    }

    /// Whether no two windows carry `label`.
    pub open spec fn at_most_one(self, label: Seq<char>) -> bool {
        forall|first: int, second: int|
            #[trigger] self.labelled(first, label) && #[trigger] self.labelled(second, label)
                ==> first == second
    }

    /// The registry after the focus went to the windows with `label`.
    pub open spec fn focus(self, label: Seq<char>) -> Registry {
        Registry {
            windows: Seq::new(
                self.windows.len(),
                |index: int|
                    OpenWindow {
                        config: self.windows[index].config,
                        focused: self.windows[index].config.label == label,
                    },
            ),
        }
    }

    /// The registry after the windows with `label` lost the focus.
    pub open spec fn blur(self, label: Seq<char>) -> Registry {
        Registry {
            windows: Seq::new(
                self.windows.len(),
                |index: int|
                    OpenWindow {
                        config: self.windows[index].config,
                        focused: self.windows[index].focused && self.windows[index].config.label
                            != label,
                    },
            ),
        }
    }

    /// The registry after a window with `config` was created. A new window
    /// takes the focus from the others.
    pub open spec fn create(self, config: WindowConfigView) -> Registry {
        Registry {
            windows: Seq::new(
                self.windows.len(),
                |index: int| OpenWindow { config: self.windows[index].config, focused: false },
            ).push(OpenWindow { config, focused: true }),
        }
    }

    /// The registry after the windows with `label` were closed.
    pub open spec fn close(self, label: Seq<char>) -> Registry {
        Registry { windows: self.windows.filter(|window: OpenWindow| window.config.label != label) }
    }

    /// The registry after the host answered `request`: unchanged if it
    /// refused.
    pub open spec fn serve(self, request: RequestView, served: bool) -> Registry {
        if !served {
            self
        } else {
            match request {
                RequestView::Focus => self.focus(docs_label()),
                RequestView::Create(config) => self.create(config),
            }
        }
    }

    /// The registry after one invocation of the open operation: the request
    /// is the one planned for what the lookup finds, and `reply` is the
    /// host's answer to it.
    pub open spec fn open_docs(self, reply: Result<(), Seq<char>>) -> Registry {
        self.serve(planned(self.holds(docs_label())), reply is Ok)
    }

    /// The registry after an action of the user on the documentation window.
    pub open spec fn disturb(self, event: ExternalEvent) -> Registry {
        match event {
            ExternalEvent::FocusLost => self.blur(docs_label()),
            ExternalEvent::Closed => self.close(docs_label()),
        }
    }

    /// The registry after one step.
    pub open spec fn step(self, step: Step) -> Registry {
        match step {
            Step::Open(reply) => self.open_docs(reply),
            Step::External(event) => self.disturb(event),
        }
    }

    /// The registry after a sequence of steps, taken in order.
    pub open spec fn run(self, steps: Seq<Step>) -> Registry
        decreases steps.len(),
    {
        if steps.len() == 0 {
            self
        } else {
            self.run(steps.drop_last()).step(steps.last())
        }
    }

    /// Where the documentation window stands in this registry.
    pub open spec fn docs_state(self) -> WindowState {
        if !self.holds(docs_label()) {
            WindowState::Absent
        } else if self.shows(docs_label()) {
            WindowState::PresentFocused
        } else {
            WindowState::PresentUnfocused
        }
    }
}

} // verus!

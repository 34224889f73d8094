//! What holds of the open operation, proved against the model of the host's
//! registry.

use vstd::prelude::*;
use crate::command::{RequestView, planned};
use crate::config::{docs_label, docs_window};
use crate::lifecycle::{ExternalEvent, WindowState};
use crate::registry::{OpenWindow, Registry, Step};

verus! {

/// An invocation that finds no documentation window and whose creation
/// request is served adds exactly one window: the documentation window with
/// its fixed label, content, title and size, holding the focus. The windows
/// that were open stay, in their order.
pub proof fn open_creates_when_absent(registry: Registry, reply: Result<(), Seq<char>>)
    requires
        !registry.holds(docs_label()),
        reply is Ok,
    ensures
        planned(registry.holds(docs_label())) == RequestView::Create(docs_window()),
        registry.open_docs(reply).windows.len() == registry.windows.len() + 1,
        registry.open_docs(reply).windows.last() == (OpenWindow {
            config: docs_window(),
            focused: true,
        }),
        forall|index: int|
            0 <= index < registry.windows.len() ==> (#[trigger] registry.open_docs(
                reply,
            ).windows[index]).config == registry.windows[index].config,
        registry.open_docs(reply).docs_state() == WindowState::PresentFocused,
{
    let after = registry.open_docs(reply);
    let last = registry.windows.len() as int;
    assert(after.labelled(last, docs_label()));
}

/// An invocation that finds the documentation window creates none: the
/// request is a focus request, and the registry holds the same windows with
/// the same attributes afterwards. If the host serves the request, the
/// documentation window has the focus.
pub proof fn open_focuses_when_present(registry: Registry, reply: Result<(), Seq<char>>)
    requires
        registry.holds(docs_label()),
    ensures
        planned(registry.holds(docs_label())) == RequestView::Focus,
        registry.open_docs(reply).windows.len() == registry.windows.len(),
        forall|index: int|
            0 <= index < registry.windows.len() ==> (#[trigger] registry.open_docs(
                reply,
            ).windows[index]).config == registry.windows[index].config,
        reply is Ok ==> registry.open_docs(reply).docs_state() == WindowState::PresentFocused,
{
    let after = registry.open_docs(reply);
    if reply is Ok {
        let index = choose|index: int| registry.labelled(index, docs_label());
        assert(after.labelled(index, docs_label()));
    }
}

/// An invocation whose request the host refuses leaves the registry as it
/// was: a failed focus request is not followed by a creation, and a failed
/// creation leaves no window behind.
pub proof fn open_failure_changes_nothing(registry: Registry, reply: Result<(), Seq<char>>)
    requires
        reply is Err,
    ensures
        registry.open_docs(reply) == registry,
{
}

/// One step keeps the documentation window unique: an invocation creates a
/// window only where the lookup found none, and the user's actions add no
/// window.
pub proof fn step_keeps_docs_unique(registry: Registry, step: Step)
    requires
        registry.at_most_one(docs_label()),
    ensures
        registry.step(step).at_most_one(docs_label()),
{
    let label = docs_label();
    let after = registry.step(step);
    assert forall|first: int, second: int| #[trigger]
        after.labelled(first, label) && #[trigger] after.labelled(second, label) implies first
        == second by {
        match step {
            Step::Open(reply) => {
                if reply is Ok && !registry.holds(label) {
                    let last = registry.windows.len() as int;
                    if first < last {
                        assert(registry.labelled(first, label));
                    }
                    if second < last {
                        assert(registry.labelled(second, label));
                    }
                } else {
                    assert(registry.labelled(first, label));
                    assert(registry.labelled(second, label));
                }
            },
            Step::External(ExternalEvent::FocusLost) => {
                assert(registry.labelled(first, label));
                assert(registry.labelled(second, label));
            },
            Step::External(ExternalEvent::Closed) => {
                registry.windows.lemma_filter_pred(
                    |window: OpenWindow| window.config.label != label,
                    first,
                );
            },
        }
    }
}

/// Whatever sequence of invocations and actions of the user a registry goes
/// through, and whatever the host replies to each request, a registry that
/// started with at most one documentation window never holds two.
pub proof fn docs_window_stays_unique(registry: Registry, steps: Seq<Step>)
    requires
        registry.at_most_one(docs_label()),
    ensures
        registry.run(steps).at_most_one(docs_label()),
    decreases steps.len(),
{
    if steps.len() > 0 {
        docs_window_stays_unique(registry, steps.drop_last());
        step_keeps_docs_unique(registry.run(steps.drop_last()), steps.last());
    }
}

/// From the start of the application on, at most one documentation window is
/// open at any time.
pub proof fn docs_window_unique_from_start(steps: Seq<Step>)
    ensures
        Registry::empty().run(steps).at_most_one(docs_label()),
{
    docs_window_stays_unique(Registry::empty(), steps);
}

/// The three states follow the registry through an invocation: the state of
/// the documentation window afterwards is the one that the state machine
/// gives for the state before and the host's reply.
pub proof fn state_follows_open(registry: Registry, reply: Result<(), Seq<char>>)
    ensures
        registry.open_docs(reply).docs_state() == registry.docs_state().opened(reply is Ok),
{
    if reply is Ok {
        if registry.holds(docs_label()) {
            open_focuses_when_present(registry, reply);
        } else {
            open_creates_when_absent(registry, reply);
        }
    }
}

/// The three states follow the registry through an action of the user.
pub proof fn state_follows_user(registry: Registry, event: ExternalEvent)
    ensures
        registry.disturb(event).docs_state() == registry.docs_state().disturbed(event),
{
    let label = docs_label();
    let after = registry.disturb(event);
    match event {
        ExternalEvent::FocusLost => {
            if registry.holds(label) {
                let index = choose|index: int| registry.labelled(index, label);
                assert(after.labelled(index, label));
            }
            if after.holds(label) {
                let index = choose|index: int| after.labelled(index, label);
                assert(registry.labelled(index, label));
            }
        },
        ExternalEvent::Closed => {
            if after.holds(label) {
                let index = choose|index: int| after.labelled(index, label);
                registry.windows.lemma_filter_pred(
                    |window: OpenWindow| window.config.label != label,
                    index,
                );
            }
        },
    }
}

} // verus!

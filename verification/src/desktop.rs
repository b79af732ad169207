//! A model of a host: windows, their visibility and focus, the shortcut
//! registry, the focus observers and the events delivered. It carries out
//! what it is asked, but for windows that are gone, windows that cannot take
//! focus, and shortcuts that are taken.
//!
//! The model says what each [`Request`](crate::host::Request) means. Running
//! an operation against it gives the laws of the library something to speak
//! of: which windows are visible afterwards, which shortcuts are bound.

use vstd::prelude::*;
use crate::error::ErrorView;
use crate::host::{resign_event, Reply, RequestView, WindowEvent};
use crate::manager::{init_budget, InitProgress, ManagerView};
use crate::procedure::{
    budget, spec_close_all, spec_handle_window_event, spec_toggle_window, Progress, StepView,
};

verus! {

/// What firing a bound shortcut does.
pub enum Binding {
    /// It toggles the window with this label.
    Toggle(Seq<char>),
    /// It hides every registered window.
    CloseAll,
}

/// What was settled when a window's focus observer was installed.
pub struct Observer {
    pub auto_hide: bool,
    pub close_shortcut: Option<Seq<char>>,
}

/// An event that was delivered to a window's content.
pub struct Notice {
    pub label: Seq<char>,
    pub event: Seq<char>,
    pub payload: bool,
}

/// The state of the host.
#[verifier::ext_equal]
pub struct Desktop {
    /// The labels of the windows that exist.
    pub windows: Set<Seq<char>>,
    /// The labels of the windows that are visible.
    pub visible: Set<Seq<char>>,
    /// The window that holds input focus.
    pub focused: Option<Seq<char>>,
    /// The labels of the windows that cannot be given input focus.
    pub unfocusable: Set<Seq<char>>,
    /// The window that was last forced to the foreground.
    pub front: Option<Seq<char>>,
    /// The shortcut registry: at most one binding for each combination.
    pub shortcuts: Map<Seq<char>, Binding>,
    /// The windows whose focus changes are reported.
    pub observers: Map<Seq<char>, Observer>,
    /// The events delivered so far, oldest first.
    pub notices: Seq<Notice>,
}

impl Desktop {
    /// Only windows that exist are visible or hold focus.
    pub open spec fn wf(self) -> bool {
        &&& self.visible.subset_of(self.windows)
        &&& self.focused matches Some(label) ==> self.windows.contains(label)
    }

    /// The reply to a command on a window, and the state afterwards: the
    /// command is carried out if the window exists and fails if it does not.
    pub open spec fn on_window(self, label: Seq<char>, changed: Desktop) -> (Reply, Desktop) {
        if self.windows.contains(label) {
            (Reply::Done, changed)
        } else {
            (Reply::Failed, self)
        }
    }

    /// The reply to binding a shortcut, and the state afterwards: the binding
    /// is made if the registry does not have the combination and fails if it
    /// has.
    pub open spec fn bind(self, shortcut: Seq<char>, binding: Binding) -> (Reply, Desktop) {
        if self.shortcuts.dom().contains(shortcut) {
            (Reply::Failed, self)
        } else {
            (Reply::Done, Desktop { shortcuts: self.shortcuts.insert(shortcut, binding), ..self })
        }
    }

    /// The state once a hidden window has been shown: it is visible, holds
    /// input focus and is at the front.
    pub open spec fn shown(self, label: Seq<char>) -> Desktop {
        Desktop {
            visible: self.visible.insert(label),
            focused: Some(label),
            front: Some(label),
            ..self
        }
    }

    /// The state once the window's content has been told that the window lost
    /// focus.
    pub open spec fn notified(self, label: Seq<char>) -> Desktop {
        Desktop {
            notices: self.notices.push(Notice { label, event: resign_event(), payload: true }),
            ..self
        }
    }

    /// The state once the window has been hidden: it is not visible and does
    /// not hold input focus.
    pub open spec fn hidden(self, label: Seq<char>) -> Desktop {
        Desktop {
            visible: self.visible.remove(label),
            focused: if self.focused == Some(label) {
                None
            } else {
                self.focused
            },
            ..self
        }
    }

    /// The host's reply to a request, and its state afterwards.
    ///
    /// A request about a window that does not exist fails, and so does giving
    /// focus to a window that cannot take it. A shortcut is bound only when
    /// the registry does not have it, and removed only when it has.
    pub open spec fn serve(self, request: RequestView) -> (Reply, Desktop) {
        match request {
            RequestView::IsVisible { label } => if self.windows.contains(label) {
                (Reply::Flag(self.visible.contains(label)), self)
            } else {
                (Reply::Failed, self)
            },
            RequestView::Show { label } => self.on_window(
                label,
                Desktop { visible: self.visible.insert(label), ..self },
            ),
            RequestView::SetFocus { label } => if self.unfocusable.contains(label) {
                (Reply::Failed, self)
            } else {
                self.on_window(label, Desktop { focused: Some(label), ..self })
            },
            RequestView::BringToFront { label } => self.on_window(
                label,
                Desktop { front: Some(label), ..self },
            ),
            RequestView::Hide { label } => self.on_window(label, self.hidden(label)),
            RequestView::FindWindow { label } => (Reply::Flag(self.windows.contains(label)), self),
            RequestView::IsShortcutRegistered { shortcut } => (
                Reply::Flag(self.shortcuts.dom().contains(shortcut)),
                self,
            ),
            RequestView::RegisterToggleShortcut { shortcut, label } => self.bind(
                shortcut,
                Binding::Toggle(label),
            ),
            RequestView::RegisterCloseShortcut { shortcut } => self.bind(
                shortcut,
                Binding::CloseAll,
            ),
            RequestView::UnregisterShortcut { shortcut } => if self.shortcuts.dom().contains(
                shortcut,
            ) {
                (Reply::Done, Desktop { shortcuts: self.shortcuts.remove(shortcut), ..self })
            } else {
                (Reply::Failed, self)
            },
            RequestView::ObserveFocus { label, auto_hide, close_shortcut } => self.on_window(
                label,
                Desktop {
                    observers: self.observers.insert(label, Observer { auto_hide, close_shortcut }),
                    ..self
                },
            ),
            RequestView::Emit { label, event, payload } => self.on_window(
                label,
                Desktop { notices: self.notices.push(Notice { label, event, payload }), ..self },
            ),
        }
    }
}

/// How an operation ended, and the state in which it left the host.
#[verifier::ext_equal]
pub struct Outcome {
    pub result: Result<(), ErrorView>,
    pub desktop: Desktop,
}

impl Outcome {
    /// The operation succeeded and left the host in this state.
    pub open spec fn ok(desktop: Desktop) -> Outcome {
        Outcome { result: Ok(()), desktop }
    }

    /// The operation failed with this error and left the host in this state.
    pub open spec fn err(error: ErrorView, desktop: Desktop) -> Outcome {
        Outcome { result: Err(error), desktop }
    }
}

/// Runs an operation on the host to its end: each request is served and the
/// reply resumes the operation.
pub open spec fn run(step: Progress, desktop: Desktop) -> Outcome
    decreases budget(step),
{
    match step {
        StepView::Finished(result) => Outcome { result, desktop },
        StepView::Call(request, pending) => {
            let (reply, next) = desktop.serve(request);
            run(pending.resume(reply), next)
        },
    }
}

impl Desktop {
    /// The shortcut fires. A window's own shortcut toggles the window; the
    /// close shortcut hides every window in `registered`; a combination that
    /// is not bound does nothing.
    pub open spec fn fire(self, shortcut: Seq<char>, registered: Seq<Seq<char>>) -> Outcome {
        if self.shortcuts.dom().contains(shortcut) {
            match self.shortcuts[shortcut] {
                Binding::Toggle(label) => run(spec_toggle_window(label), self),
                Binding::CloseAll => run(spec_close_all(registered), self),
            }
        } else {
            Outcome::ok(self)
        }
    }

    /// The state once the window has gained or lost input focus, before
    /// anyone has reacted to it.
    pub open spec fn with_focus(self, label: Seq<char>, has_focus: bool) -> Desktop {
        Desktop {
            focused: if has_focus {
                Some(label)
            } else if self.focused == Some(label) {
                None
            } else {
                self.focused
            },
            ..self
        }
    }

    /// Something happens to the window, and its observer, if one is
    /// installed, handles the event. A change of focus moves the focus first;
    /// any other event changes nothing in what this model keeps.
    pub open spec fn deliver(self, label: Seq<char>, event: WindowEvent) -> Outcome {
        let moved = match event {
            WindowEvent::Focused(has_focus) => self.with_focus(label, has_focus),
            WindowEvent::Other => self,
        };
        if self.observers.dom().contains(label) {
            let observer = self.observers[label];
            run(
                spec_handle_window_event(
                    label,
                    observer.auto_hide,
                    observer.close_shortcut,
                    event,
                ),
                moved,
            )
        } else {
            Outcome::ok(moved)
        }
    }

    /// The window gains or loses input focus, and its observer, if one is
    /// installed, handles the change.
    pub open spec fn change_focus(self, label: Seq<char>, has_focus: bool) -> Outcome {
        self.deliver(label, WindowEvent::Focused(has_focus))
    }
}

/// How the set-up of a window ended, the host's state and the registered
/// windows afterwards.
#[verifier::ext_equal]
pub struct InitOutcome {
    pub result: Result<(), ErrorView>,
    pub desktop: Desktop,
    pub registered: Seq<Seq<char>>,
}

impl InitOutcome {
    /// The set-up succeeded.
    pub open spec fn ok(desktop: Desktop, registered: Seq<Seq<char>>) -> InitOutcome {
        InitOutcome { result: Ok(()), desktop, registered }
    }

    /// The set-up failed with this error.
    pub open spec fn err(
        error: ErrorView,
        desktop: Desktop,
        registered: Seq<Seq<char>>,
    ) -> InitOutcome {
        InitOutcome { result: Err(error), desktop, registered }
    }
}

/// Runs the set-up of a window on the host to its end: each request is
/// served and the reply resumes the set-up through the manager.
pub open spec fn run_init(manager: ManagerView, step: InitProgress, desktop: Desktop) -> InitOutcome
    decreases init_budget(step),
{
    match step {
        StepView::Finished(result) => InitOutcome {
            result,
            desktop,
            registered: manager.registered,
        },
        StepView::Call(request, pending) => {
            let (reply, next) = desktop.serve(request);
            run_init(manager.after(pending), manager.resume(pending, reply), next)
        },
    }
}

} // verus!

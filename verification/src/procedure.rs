//! The operations on windows and shortcuts, each as a small state machine.
//!
//! An operation starts with a function of this module, which returns a
//! [`Step`]: either the operation is finished, or it asks the host for one
//! thing and names the stage at which it waits. The host's reply resumes it
//! with [`Pending::resume`]. The machine decides everything: what is asked, in
//! which order, and which failure ends the operation with which error.

use vstd::prelude::*;
use crate::config::{text_view, WindowConfig};
use crate::error::{
    notify_message, register_message, unregister_message, Error, ErrorView,
};
use crate::host::{resign_event, Reply, Request, RequestView, WindowEvent};

verus! {

/// Where an operation stands: it asks one thing of the host and waits at a
/// stage `K`, or it has finished.
#[derive(Debug, PartialEq, Eq)]
pub enum Step<K> {
    /// The host is to carry out the request and resume the stage with its
    /// reply.
    Call(Request, K),
    /// Nothing is left to do.
    Finished(Result<(), Error>),
}

/// The mathematical value of a [`Step`].
pub enum StepView<K> {
    Call(RequestView, K),
    Finished(Result<(), ErrorView>),
}

/// The view of an operation's result.
pub open spec fn outcome_view(outcome: Result<(), Error>) -> Result<(), ErrorView> {
    match outcome {
        Ok(_) => Ok(()),
        Err(e) => Err(e@),
    }
}

impl<K: View> View for Step<K> {
    type V = StepView<K::V>;

    open spec fn view(&self) -> StepView<K::V> {
        match self {
            Step::Call(request, stage) => StepView::Call(request@, stage@),
            Step::Finished(outcome) => StepView::Finished(outcome_view(*outcome)),
        }
    }
}

/// What follows once the close shortcut has been removed.
#[derive(Debug, PartialEq, Eq)]
pub enum After {
    /// Nothing: the operation is finished.
    Nothing,
    /// The window lost focus: it is hidden, or told so.
    Leave { label: String, auto_hide: bool },
}

/// The mathematical value of an [`After`].
pub enum AfterView {
    Nothing,
    Leave { label: Seq<char>, auto_hide: bool },
}

impl View for After {
    type V = AfterView;

    open spec fn view(&self) -> AfterView {
        match self {
            After::Nothing => AfterView::Nothing,
            After::Leave { label, auto_hide } => AfterView::Leave {
                label: label@,
                auto_hide: *auto_hide,
            },
        }
    }
}

/// The stage at which an operation waits for the host's reply. Each stage
/// belongs to the request that was handed out with it.
#[derive(Debug, PartialEq, Eq)]
pub enum Pending {
    /// Showing: asked whether the window is visible.
    ShowVisibility { label: String },
    /// Showing: asked to make the window visible.
    ShowReveal { label: String },
    /// Showing: asked to give the window input focus.
    ShowFocus { label: String },
    /// Showing: asked to bring the window to the front.
    ShowFront,
    /// Showing: the window could not be given focus, and the host was asked
    /// to hide it again.
    ShowUndo,
    /// Hiding: asked whether the window is visible.
    HideVisibility { label: String },
    /// Hiding: asked to hide the window.
    HideConceal,
    /// Toggling: asked whether the window is visible.
    ToggleVisibility { label: String },
    /// Asked to bind a window's own shortcut.
    OwnShortcut,
    /// Registering the close shortcut: asked whether it is bound.
    CloseLookup { shortcut: String },
    /// Registering the close shortcut: asked to bind it.
    CloseBind,
    /// Removing the close shortcut: asked whether it is bound.
    RemoveLookup { shortcut: String, after: After },
    /// Removing the close shortcut: asked to unbind it.
    RemoveUnbind { after: After },
    /// Focus was lost: asked to hide the window.
    LeaveHide,
    /// Focus was lost: asked to tell the window.
    LeaveNotify,
    /// Closing all: asked whether the window at `index` exists.
    SweepFind { labels: Vec<String>, index: usize },
    /// Closing all: asked to hide the window at `index`.
    SweepHide { labels: Vec<String>, index: usize },
}

/// The mathematical value of a [`Pending`].
pub enum PendingView {
    ShowVisibility { label: Seq<char> },
    ShowReveal { label: Seq<char> },
    ShowFocus { label: Seq<char> },
    ShowFront,
    ShowUndo,
    HideVisibility { label: Seq<char> },
    HideConceal,
    ToggleVisibility { label: Seq<char> },
    OwnShortcut,
    CloseLookup { shortcut: Seq<char> },
    CloseBind,
    RemoveLookup { shortcut: Seq<char>, after: AfterView },
    RemoveUnbind { after: AfterView },
    LeaveHide,
    LeaveNotify,
    SweepFind { labels: Seq<Seq<char>>, index: nat },
    SweepHide { labels: Seq<Seq<char>>, index: nat },
}

/// The views of a list of strings, in order.
pub open spec fn texts(strings: Seq<String>) -> Seq<Seq<char>> {
    strings.map_values(|s: String| s@)
}

impl View for Pending {
    type V = PendingView;

    open spec fn view(&self) -> PendingView {
        match self {
            Pending::ShowVisibility { label } => PendingView::ShowVisibility { label: label@ },
            Pending::ShowReveal { label } => PendingView::ShowReveal { label: label@ },
            Pending::ShowFocus { label } => PendingView::ShowFocus { label: label@ },
            Pending::ShowFront => PendingView::ShowFront,
            Pending::ShowUndo => PendingView::ShowUndo,
            Pending::HideVisibility { label } => PendingView::HideVisibility { label: label@ },
            Pending::HideConceal => PendingView::HideConceal,
            Pending::ToggleVisibility { label } => PendingView::ToggleVisibility { label: label@ },
            Pending::OwnShortcut => PendingView::OwnShortcut,
            Pending::CloseLookup { shortcut } => PendingView::CloseLookup { shortcut: shortcut@ },
            Pending::CloseBind => PendingView::CloseBind,
            Pending::RemoveLookup { shortcut, after } => PendingView::RemoveLookup {
                shortcut: shortcut@,
                after: after@,
            },
            Pending::RemoveUnbind { after } => PendingView::RemoveUnbind { after: after@ },
            Pending::LeaveHide => PendingView::LeaveHide,
            Pending::LeaveNotify => PendingView::LeaveNotify,
            Pending::SweepFind { labels, index } => PendingView::SweepFind {
                labels: texts(labels@),
                index: *index as nat,
            },
            Pending::SweepHide { labels, index } => PendingView::SweepHide {
                labels: texts(labels@),
                index: *index as nat,
            },
        }
    }
}

/// A step of the window operations.
pub type Progress = StepView<PendingView>;

/// The operation has finished and succeeded.
pub open spec fn spec_done() -> Progress {
    StepView::Finished(Ok(()))
}

/// The operation has finished with this error.
pub open spec fn spec_failed(error: ErrorView) -> Progress {
    StepView::Finished(Err(error))
}

/// Showing a window starts by asking whether it is visible.
pub open spec fn spec_show_window(label: Seq<char>) -> Progress {
    StepView::Call(RequestView::IsVisible { label }, PendingView::ShowVisibility { label })
}

/// Hiding a window starts by asking whether it is visible.
pub open spec fn spec_hide_window(label: Seq<char>) -> Progress {
    StepView::Call(RequestView::IsVisible { label }, PendingView::HideVisibility { label })
}

/// Toggling a window starts by asking whether it is visible.
pub open spec fn spec_toggle_window(label: Seq<char>) -> Progress {
    StepView::Call(RequestView::IsVisible { label }, PendingView::ToggleVisibility { label })
}

/// A window's own shortcut is bound where it has one; else nothing is asked.
pub open spec fn spec_register_shortcut_for_window(
    label: Seq<char>,
    shortcut: Option<Seq<char>>,
) -> Progress {
    match shortcut {
        Some(shortcut) => StepView::Call(
            RequestView::RegisterToggleShortcut { shortcut, label },
            PendingView::OwnShortcut,
        ),
        None => spec_done(),
    }
}

/// Registering the close shortcut starts by asking whether it is bound; where
/// none is configured nothing is asked.
pub open spec fn spec_register_close_shortcut(close_shortcut: Option<Seq<char>>) -> Progress {
    match close_shortcut {
        Some(shortcut) => StepView::Call(
            RequestView::IsShortcutRegistered { shortcut },
            PendingView::CloseLookup { shortcut },
        ),
        None => spec_done(),
    }
}

/// What follows the removal of the close shortcut: nothing, or the window
/// that lost focus is hidden or told so, as its setting says.
pub open spec fn spec_after(after: AfterView) -> Progress {
    match after {
        AfterView::Nothing => spec_done(),
        AfterView::Leave { label, auto_hide } => if auto_hide {
            StepView::Call(RequestView::Hide { label }, PendingView::LeaveHide)
        } else {
            StepView::Call(
                RequestView::Emit { label, event: resign_event(), payload: true },
                PendingView::LeaveNotify,
            )
        },
    }
}

/// Removing the close shortcut starts by asking whether it is bound; where
/// none is configured what follows comes at once.
pub open spec fn spec_remove_close_shortcut(
    close_shortcut: Option<Seq<char>>,
    after: AfterView,
) -> Progress {
    match close_shortcut {
        Some(shortcut) => StepView::Call(
            RequestView::IsShortcutRegistered { shortcut },
            PendingView::RemoveLookup { shortcut, after },
        ),
        None => spec_after(after),
    }
}

/// Removing the close shortcut, with nothing to follow.
pub open spec fn spec_unregister_close_shortcut(close_shortcut: Option<Seq<char>>) -> Progress {
    spec_remove_close_shortcut(close_shortcut, AfterView::Nothing)
}

/// A change of a window's focus. Gaining focus registers the close shortcut.
/// Losing it removes the close shortcut and then hides the window or tells
/// it so.
pub open spec fn spec_handle_focus_state_change(
    label: Seq<char>,
    auto_hide: bool,
    close_shortcut: Option<Seq<char>>,
    has_focus: bool,
) -> Progress {
    if has_focus {
        spec_register_close_shortcut(close_shortcut)
    } else {
        spec_remove_close_shortcut(close_shortcut, AfterView::Leave { label, auto_hide })
    }
}

/// An event of a window. A change of focus is handled as such; any other
/// event asks nothing of the host.
pub open spec fn spec_handle_window_event(
    label: Seq<char>,
    auto_hide: bool,
    close_shortcut: Option<Seq<char>>,
    event: WindowEvent,
) -> Progress {
    match event {
        WindowEvent::Focused(has_focus) => spec_handle_focus_state_change(
            label,
            auto_hide,
            close_shortcut,
            has_focus,
        ),
        WindowEvent::Other => spec_done(),
    }
}

/// Closing all windows from position `index` on: the next window is looked
/// for, or nothing is left.
pub open spec fn spec_sweep(labels: Seq<Seq<char>>, index: nat) -> Progress {
    if index < labels.len() {
        StepView::Call(
            RequestView::FindWindow { label: labels[index as int] },
            PendingView::SweepFind { labels, index },
        )
    } else {
        spec_done()
    }
}

/// Closing all the windows with these labels, in order.
pub open spec fn spec_close_all(labels: Seq<Seq<char>>) -> Progress {
    spec_sweep(labels, 0)
}

impl PendingView {
    /// The step that follows when the host's reply reaches this stage.
    pub open spec fn resume(self, reply: Reply) -> Progress {
        match self {
            PendingView::ShowVisibility { label } => match reply.answer() {
                None => spec_failed(ErrorView::FailedToCheckWindowVisibility),
                Some(true) => spec_done(),
                Some(false) => StepView::Call(
                    RequestView::Show { label },
                    PendingView::ShowReveal { label },
                ),
            },
            PendingView::ShowReveal { label } => if reply.succeeded() {
                StepView::Call(RequestView::SetFocus { label }, PendingView::ShowFocus { label })
            } else {
                spec_failed(ErrorView::FailedToShowWindow)
            },
            PendingView::ShowFocus { label } => if reply.succeeded() {
                StepView::Call(RequestView::BringToFront { label }, PendingView::ShowFront)
            } else {
                StepView::Call(RequestView::Hide { label }, PendingView::ShowUndo)
            },
            PendingView::ShowFront => spec_done(),
            PendingView::ShowUndo => spec_failed(ErrorView::FailedToShowWindow),
            PendingView::HideVisibility { label } => match reply.answer() {
                None => spec_failed(ErrorView::FailedToCheckWindowVisibility),
                Some(true) => StepView::Call(RequestView::Hide { label }, PendingView::HideConceal),
                Some(false) => spec_done(),
            },
            PendingView::HideConceal => if reply.succeeded() {
                spec_done()
            } else {
                spec_failed(ErrorView::FailedToHideWindow)
            },
            PendingView::ToggleVisibility { label } => match reply.answer() {
                None => spec_failed(ErrorView::FailedToCheckWindowVisibility),
                Some(true) => spec_hide_window(label),
                Some(false) => spec_show_window(label),
            },
            PendingView::OwnShortcut => if reply.succeeded() {
                spec_done()
            } else {
                spec_failed(ErrorView::Other(register_message()))
            },
            PendingView::CloseLookup { shortcut } => match reply.answer() {
                None => spec_failed(ErrorView::Other(register_message())),
                Some(true) => spec_done(),
                Some(false) => StepView::Call(
                    RequestView::RegisterCloseShortcut { shortcut },
                    PendingView::CloseBind,
                ),
            },
            PendingView::CloseBind => if reply.succeeded() {
                spec_done()
            } else {
                spec_failed(ErrorView::Other(register_message()))
            },
            PendingView::RemoveLookup { shortcut, after } => match reply.answer() {
                None => spec_failed(ErrorView::Other(unregister_message())),
                Some(true) => StepView::Call(
                    RequestView::UnregisterShortcut { shortcut },
                    PendingView::RemoveUnbind { after },
                ),
                Some(false) => spec_after(after),
            },
            PendingView::RemoveUnbind { after } => if reply.succeeded() {
                spec_after(after)
            } else {
                spec_failed(ErrorView::Other(unregister_message()))
            },
            PendingView::LeaveHide => if reply.succeeded() {
                spec_done()
            } else {
                spec_failed(ErrorView::FailedToHideWindow)
            },
            PendingView::LeaveNotify => if reply.succeeded() {
                spec_done()
            } else {
                spec_failed(ErrorView::Other(notify_message()))
            },
            PendingView::SweepFind { labels, index } => if index < labels.len() && reply.answer()
                == Some(true) {
                StepView::Call(
                    RequestView::Hide { label: labels[index as int] },
                    PendingView::SweepHide { labels, index },
                )
            } else {
                spec_sweep(labels, index + 1)
            },
            PendingView::SweepHide { labels, index } => if reply.succeeded() {
                spec_sweep(labels, index + 1)
            } else {
                spec_failed(ErrorView::FailedToHideWindow)
            },
        }
    }
}

/// The most requests that an operation can still make once a reply has
/// reached this stage.
pub open spec fn remaining(pending: PendingView) -> nat {
    match pending {
        PendingView::ShowVisibility { .. } => 3,
        PendingView::ShowReveal { .. } => 2,
        PendingView::ShowFocus { .. } => 1,
        PendingView::ShowFront => 0,
        PendingView::ShowUndo => 0,
        PendingView::HideVisibility { .. } => 1,
        PendingView::HideConceal => 0,
        PendingView::ToggleVisibility { .. } => 4,
        PendingView::OwnShortcut => 0,
        PendingView::CloseLookup { .. } => 1,
        PendingView::CloseBind => 0,
        PendingView::RemoveLookup { .. } => 2,
        PendingView::RemoveUnbind { .. } => 1,
        PendingView::LeaveHide => 0,
        PendingView::LeaveNotify => 0,
        PendingView::SweepFind { labels, index } => if index < labels.len() {
            (2 * (labels.len() - index)) as nat
        } else {
            0
        },
        PendingView::SweepHide { labels, index } => if index < labels.len() {
            (2 * (labels.len() - index) - 1) as nat
        } else {
            0
        },
    }
}

/// The most requests that an operation can still make from this step on.
pub open spec fn budget(step: Progress) -> nat {
    match step {
        StepView::Call(_, pending) => 1 + remaining(pending),
        StepView::Finished(_) => 0,
    }
}

/// The finished step of an operation that succeeded.
fn done() -> (step: Step<Pending>)
    ensures
        step@ == spec_done(),
{
    Step::Finished(Ok(()))
}

/// The finished step of an operation that failed.
fn failed(error: Error) -> (step: Step<Pending>)
    ensures
        step@ == spec_failed(error@),
{
    Step::Finished(Err(error))
}

/// Starts showing the window: when it is not visible it is made visible,
/// given input focus and brought to the front; when it is visible nothing is
/// done. A window that was made visible and then cannot be given focus is
/// hidden again before the operation fails, so that a failed show leaves the
/// window as hidden as it was.
pub fn show_window(label: &str) -> (step: Step<Pending>)
    ensures
        step@ == spec_show_window(label@),
{
    Step::Call(
        Request::IsVisible { label: label.to_owned() },
        Pending::ShowVisibility { label: label.to_owned() },
    )
}

/// Starts hiding the window: when it is visible it is hidden; when it is not
/// nothing is done.
pub fn hide_window(label: &str) -> (step: Step<Pending>)
    ensures
        step@ == spec_hide_window(label@),
{
    Step::Call(
        Request::IsVisible { label: label.to_owned() },
        Pending::HideVisibility { label: label.to_owned() },
    )
}

/// Starts what a window's own shortcut does when it fires: the window is
/// hidden when visible and shown when not.
pub fn toggle_window(label: &str) -> (step: Step<Pending>)
    ensures
        step@ == spec_toggle_window(label@),
{
    Step::Call(
        Request::IsVisible { label: label.to_owned() },
        Pending::ToggleVisibility { label: label.to_owned() },
    )
}

/// Starts binding the window's own shortcut. A window without one asks
/// nothing of the host.
pub fn register_shortcut_for_window(label: &str, window_config: &WindowConfig) -> (step: Step<
    Pending,
>)
    ensures
        step@ == spec_register_shortcut_for_window(label@, window_config@.shortcut),
{
    match &window_config.shortcut {
        Some(shortcut) => Step::Call(
            Request::RegisterToggleShortcut { shortcut: shortcut.clone(), label: label.to_owned() },
            Pending::OwnShortcut,
        ),
        None => done(),
    }
}

/// Starts registering the close shortcut: it is bound unless the registry
/// has it already. Without a configured close shortcut nothing is asked.
pub fn register_close_shortcut(close_shortcut: &Option<String>) -> (step: Step<Pending>)
    ensures
        step@ == spec_register_close_shortcut(text_view(*close_shortcut)),
{
    match close_shortcut {
        Some(shortcut) => Step::Call(
            Request::IsShortcutRegistered { shortcut: shortcut.clone() },
            Pending::CloseLookup { shortcut: shortcut.clone() },
        ),
        None => done(),
    }
}

/// What follows the removal of the close shortcut.
fn proceed(after: After) -> (step: Step<Pending>)
    ensures
        step@ == spec_after(after@),
{
    match after {
        After::Nothing => done(),
        After::Leave { label, auto_hide } => {
            if auto_hide {
                Step::Call(Request::Hide { label }, Pending::LeaveHide)
            } else {
                Step::Call(
                    Request::Emit {
                        label,
                        event: "window_did_resign_key".to_owned(),
                        payload: true,
                    },
                    Pending::LeaveNotify,
                )
            }
        },
    }
}

/// Starts removing the close shortcut, with `after` to follow.
fn remove_close_shortcut(close_shortcut: &Option<String>, after: After) -> (step: Step<Pending>)
    ensures
        step@ == spec_remove_close_shortcut(text_view(*close_shortcut), after@),
{
    match close_shortcut {
        Some(shortcut) => Step::Call(
            Request::IsShortcutRegistered { shortcut: shortcut.clone() },
            Pending::RemoveLookup { shortcut: shortcut.clone(), after },
        ),
        None => proceed(after),
    }
}

/// Starts removing the close shortcut: it is unbound if the registry has it.
/// Without a configured close shortcut nothing is asked.
pub fn unregister_close_shortcut(close_shortcut: &Option<String>) -> (step: Step<Pending>)
    ensures
        step@ == spec_unregister_close_shortcut(text_view(*close_shortcut)),
{
    remove_close_shortcut(close_shortcut, After::Nothing)
}

/// Starts handling a change of the window's focus.
///
/// When the window gained focus the close shortcut is registered. When it
/// lost focus the close shortcut is removed; then the window is hidden if
/// `auto_hide` is set, and otherwise its content is sent the event that says
/// that it lost focus.
pub fn handle_focus_state_change(
    label: &str,
    auto_hide: bool,
    close_shortcut: &Option<String>,
    has_focus: bool,
) -> (step: Step<Pending>)
    ensures
        step@ == spec_handle_focus_state_change(
            label@,
            auto_hide,
            text_view(*close_shortcut),
            has_focus,
        ),
{
    if has_focus {
        register_close_shortcut(close_shortcut)
    } else {
        remove_close_shortcut(close_shortcut, After::Leave { label: label.to_owned(), auto_hide })
    }
}

/// Starts handling an event of an observed window. Only a change of focus
/// leads to anything: see [`handle_focus_state_change`]. Any other event
/// finishes at once with success and asks nothing of the host.
pub fn handle_window_event(
    label: &str,
    auto_hide: bool,
    close_shortcut: &Option<String>,
    event: WindowEvent,
) -> (step: Step<Pending>)
    ensures
        step@ == spec_handle_window_event(label@, auto_hide, text_view(*close_shortcut), event),
        event is Other ==> step@ == spec_done(),
{
    match event {
        WindowEvent::Focused(has_focus) => handle_focus_state_change(
            label,
            auto_hide,
            close_shortcut,
            has_focus,
        ),
        WindowEvent::Other => done(),
    }
}

/// Closing all from position `index` on.
fn sweep(labels: Vec<String>, index: usize) -> (step: Step<Pending>)
    ensures
        step@ == spec_sweep(texts(labels@), index as nat),
{
    if index < labels.len() {
        let label = labels[index].clone();
        Step::Call(Request::FindWindow { label }, Pending::SweepFind { labels, index })
    } else {
        done()
    }
}

/// Starts what the close shortcut does when it fires: every window in
/// `labels` that still exists is hidden, in order. A window that is gone is
/// passed over.
pub fn close_all(labels: Vec<String>) -> (step: Step<Pending>)
    ensures
        step@ == spec_close_all(texts(labels@)),
{
    sweep(labels, 0)
}

impl Pending {
    /// Resumes the operation with the host's reply to the request that was
    /// handed out with this stage. The step that follows has fewer requests
    /// left to make than this stage had.
    pub fn resume(self, reply: Reply) -> (step: Step<Pending>)
        ensures
            step@ == self@.resume(reply),
            budget(step@) <= remaining(self@),
    {
        match self {
            Pending::ShowVisibility { label } => match reply {
                Reply::Flag(true) => done(),
                Reply::Flag(false) => Step::Call(
                    Request::Show { label: label.clone() },
                    Pending::ShowReveal { label },
                ),
                _ => failed(Error::FailedToCheckWindowVisibility),
            },
            Pending::ShowReveal { label } => match reply {
                Reply::Failed => failed(Error::FailedToShowWindow),
                _ => Step::Call(
                    Request::SetFocus { label: label.clone() },
                    Pending::ShowFocus { label },
                ),
            },
            Pending::ShowFocus { label } => match reply {
                Reply::Failed => Step::Call(Request::Hide { label }, Pending::ShowUndo),
                _ => Step::Call(Request::BringToFront { label }, Pending::ShowFront),
            },
            Pending::ShowFront => done(),
            Pending::ShowUndo => failed(Error::FailedToShowWindow),
            Pending::HideVisibility { label } => match reply {
                Reply::Flag(true) => Step::Call(Request::Hide { label }, Pending::HideConceal),
                Reply::Flag(false) => done(),
                _ => failed(Error::FailedToCheckWindowVisibility),
            },
            Pending::HideConceal => match reply {
                Reply::Failed => failed(Error::FailedToHideWindow),
                _ => done(),
            },
            Pending::ToggleVisibility { label } => match reply {
                Reply::Flag(true) => hide_window(label.as_str()),
                Reply::Flag(false) => show_window(label.as_str()),
                _ => failed(Error::FailedToCheckWindowVisibility),
            },
            Pending::OwnShortcut => match reply {
                Reply::Failed => failed(Error::register_failed()),
                _ => done(),
            },
            Pending::CloseLookup { shortcut } => match reply {
                Reply::Flag(true) => done(),
                Reply::Flag(false) => Step::Call(
                    Request::RegisterCloseShortcut { shortcut },
                    Pending::CloseBind,
                ),
                _ => failed(Error::register_failed()),
            },
            Pending::CloseBind => match reply {
                Reply::Failed => failed(Error::register_failed()),
                _ => done(),
            },
            Pending::RemoveLookup { shortcut, after } => match reply {
                Reply::Flag(true) => Step::Call(
                    Request::UnregisterShortcut { shortcut },
                    Pending::RemoveUnbind { after },
                ),
                Reply::Flag(false) => proceed(after),
                _ => failed(Error::unregister_failed()),
            },
            Pending::RemoveUnbind { after } => match reply {
                Reply::Failed => failed(Error::unregister_failed()),
                _ => proceed(after),
            },
            Pending::LeaveHide => match reply {
                Reply::Failed => failed(Error::FailedToHideWindow),
                _ => done(),
            },
            Pending::LeaveNotify => match reply {
                Reply::Failed => failed(Error::notify_failed()),
                _ => done(),
            },
            Pending::SweepFind { labels, index } => {
                if index < labels.len() {
                    match reply {
                        Reply::Flag(true) => {
                            let request = Request::Hide { label: labels[index].clone() };
                            Step::Call(request, Pending::SweepHide { labels, index })
                        },
                        _ => sweep(labels, index + 1),
                    }
                } else {
                    done()
                }
            },
            Pending::SweepHide { labels, index } => match reply {
                Reply::Failed => failed(Error::FailedToHideWindow),
                _ => {
                    if index < labels.len() {
                        sweep(labels, index + 1)
                    } else {
                        done()
                    }
                },
            },
        }
    }
}

} // verus!

//! The vocabulary between the manager and its host: what the manager asks for,
//! one request at a time, and what the host answers.
//!
//! The host is the windowing toolkit together with the global shortcut
//! registry. The manager never touches either; it hands out a [`Request`],
//! the host carries it out and comes back with a [`Reply`].

use vstd::prelude::*;

verus! {

/// One thing that the manager asks of the host.
#[derive(Debug, PartialEq, Eq)]
pub enum Request {
    /// Say whether the window is visible. Answered with [`Reply::Flag`].
    IsVisible { label: String },
    /// Make the window visible.
    Show { label: String },
    /// Give the window input focus through the toolkit.
    SetFocus { label: String },
    /// Restore the window and force it to the foreground with the platform's
    /// own primitive. Where the platform has none, nothing is done.
    BringToFront { label: String },
    /// Hide the window.
    Hide { label: String },
    /// Say whether a window with this label exists. Answered with
    /// [`Reply::Flag`].
    FindWindow { label: String },
    /// Say whether the shortcut is bound in the registry. Answered with
    /// [`Reply::Flag`].
    IsShortcutRegistered { shortcut: String },
    /// Bind the shortcut so that firing it toggles the window.
    RegisterToggleShortcut { shortcut: String, label: String },
    /// Bind the shortcut so that firing it hides every registered window.
    RegisterCloseShortcut { shortcut: String },
    /// Remove the shortcut's binding.
    UnregisterShortcut { shortcut: String },
    /// From now on report each event of the window. The three settings are
    /// what the manager needs to handle such a report, and it picks the
    /// changes of focus out of the events itself.
    ObserveFocus { label: String, auto_hide: bool, close_shortcut: Option<String> },
    /// Deliver a named event with a flag as payload to the window's content.
    Emit { label: String, event: String, payload: bool },
}

/// The mathematical value of a [`Request`].
pub enum RequestView {
    IsVisible { label: Seq<char> },
    Show { label: Seq<char> },
    SetFocus { label: Seq<char> },
    BringToFront { label: Seq<char> },
    Hide { label: Seq<char> },
    FindWindow { label: Seq<char> },
    IsShortcutRegistered { shortcut: Seq<char> },
    RegisterToggleShortcut { shortcut: Seq<char>, label: Seq<char> },
    RegisterCloseShortcut { shortcut: Seq<char> },
    UnregisterShortcut { shortcut: Seq<char> },
    ObserveFocus { label: Seq<char>, auto_hide: bool, close_shortcut: Option<Seq<char>> },
    Emit { label: Seq<char>, event: Seq<char>, payload: bool },
}

impl View for Request {
    type V = RequestView;

    open spec fn view(&self) -> RequestView {
        match self {
            Request::IsVisible { label } => RequestView::IsVisible { label: label@ },
            Request::Show { label } => RequestView::Show { label: label@ },
            Request::SetFocus { label } => RequestView::SetFocus { label: label@ },
            Request::BringToFront { label } => RequestView::BringToFront { label: label@ },
            Request::Hide { label } => RequestView::Hide { label: label@ },
            Request::FindWindow { label } => RequestView::FindWindow { label: label@ },
            Request::IsShortcutRegistered { shortcut } => RequestView::IsShortcutRegistered {
                shortcut: shortcut@,
            },
            Request::RegisterToggleShortcut { shortcut, label } => {
                RequestView::RegisterToggleShortcut { shortcut: shortcut@, label: label@ }
            },
            Request::RegisterCloseShortcut { shortcut } => RequestView::RegisterCloseShortcut {
                shortcut: shortcut@,
            },
            Request::UnregisterShortcut { shortcut } => RequestView::UnregisterShortcut {
                shortcut: shortcut@,
            },
            Request::ObserveFocus { label, auto_hide, close_shortcut } => {
                RequestView::ObserveFocus {
                    label: label@,
                    auto_hide: *auto_hide,
                    close_shortcut: match close_shortcut {
                        Some(s) => Some(s@),
                        None => None,
                    },
                }
            },
            Request::Emit { label, event, payload } => RequestView::Emit {
                label: label@,
                event: event@,
                payload: *payload,
            },
        }
    }
}

/// The host's answer to one request.
#[derive(Debug, Clone, Copy, PartialEq, Eq)]
pub enum Reply {
    /// The request was carried out.
    Done,
    /// The answer to a question.
    Flag(bool),
    /// The toolkit or the registry reported an error.
    Failed,
}

impl Reply {
    /// The answer that the reply gives to a question. Anything but a flag is
    /// no answer.
    pub open spec fn answer(self) -> Option<bool> {
        match self {
            Reply::Flag(flag) => Some(flag),
            _ => None,
        }
    }

    /// Whether the reply reports that a command was carried out: anything but
    /// a failure does.
    pub open spec fn succeeded(self) -> bool {
        self != Reply::Failed
    }
}

/// Something that happened to a window, as the host reports it.
#[derive(Debug, Clone, Copy, PartialEq, Eq)]
pub enum WindowEvent {
    /// The window gained input focus (`true`) or lost it (`false`).
    Focused(bool),
    /// Anything else: the window was moved, resized, closed and the like.
    Other,
}

/// The name of the event that tells a window's content that the window lost
/// focus without being hidden.
pub open spec fn resign_event() -> Seq<char> {
    "window_did_resign_key"@
}

} // verus!

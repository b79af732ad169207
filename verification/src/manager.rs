//! The manager: the plugin's settings and the windows that have been set up.
//!
//! Setting a window up is an operation of its own kind, because it ends by
//! recording the window. It waits at an [`InitPending`] and is resumed
//! through the manager, which callers keep locked from the first step to the
//! last.

use vstd::prelude::*;
use crate::config::{
    clone_text, lemma_window_for, settings_view, text_view, PluginConfig, PluginConfigView,
    WindowConfig,
};
use crate::host::{Reply, Request, RequestView};
use crate::procedure::{
    close_all, hide_window, register_close_shortcut, register_shortcut_for_window, remaining,
    show_window, spec_close_all, spec_hide_window, spec_register_close_shortcut,
    spec_register_shortcut_for_window, spec_show_window, texts, Pending, PendingView, Progress,
    Step, StepView,
};

verus! {

/// The stage at which setting a window up waits for the host's reply. It
/// says which window is set up and how far the set-up has come; the settings
/// are read from the manager each time the set-up is resumed.
#[derive(Debug, PartialEq, Eq)]
pub enum InitPending {
    /// The window's own shortcut is being bound.
    OwnShortcut { inner: Pending, label: String },
    /// The close shortcut is being registered.
    CloseShortcut { inner: Pending, label: String },
    /// The focus observer is being installed.
    Observer { label: String },
}

/// The mathematical value of an [`InitPending`].
pub enum InitPendingView {
    OwnShortcut { inner: PendingView, label: Seq<char> },
    CloseShortcut { inner: PendingView, label: Seq<char> },
    Observer { label: Seq<char> },
}

impl View for InitPending {
    type V = InitPendingView;

    open spec fn view(&self) -> InitPendingView {
        match self {
            InitPending::OwnShortcut { inner, label } => InitPendingView::OwnShortcut {
                inner: inner@,
                label: label@,
            },
            InitPending::CloseShortcut { inner, label } => InitPendingView::CloseShortcut {
                inner: inner@,
                label: label@,
            },
            InitPending::Observer { label } => InitPendingView::Observer { label: label@ },
        }
    }
}

impl InitPendingView {
    /// The label of the window that is being set up.
    pub open spec fn label(self) -> Seq<char> {
        match self {
            InitPendingView::OwnShortcut { label, .. } => label,
            InitPendingView::CloseShortcut { label, .. } => label,
            InitPendingView::Observer { label } => label,
        }
    }
}

/// A step of setting a window up.
pub type InitProgress = StepView<InitPendingView>;

/// Setting up, last part: the focus observer is installed.
pub open spec fn spec_observe(
    label: Seq<char>,
    auto_hide: bool,
    close_shortcut: Option<Seq<char>>,
) -> InitProgress {
    StepView::Call(
        RequestView::ObserveFocus { label, auto_hide, close_shortcut },
        InitPendingView::Observer { label },
    )
}

/// Setting up, second part: the close shortcut is registered. A failure ends
/// the set-up; success leads on to the observer.
pub open spec fn spec_close_phase(
    inner: Progress,
    label: Seq<char>,
    auto_hide: bool,
    close_shortcut: Option<Seq<char>>,
) -> InitProgress {
    match inner {
        StepView::Call(request, stage) => StepView::Call(
            request,
            InitPendingView::CloseShortcut { inner: stage, label },
        ),
        StepView::Finished(Err(error)) => StepView::Finished(Err(error)),
        StepView::Finished(Ok(_)) => spec_observe(label, auto_hide, close_shortcut),
    }
}

/// Setting up, first part: the window's own shortcut is bound. A failure ends
/// the set-up; success leads on to the close shortcut.
pub open spec fn spec_own_phase(
    inner: Progress,
    label: Seq<char>,
    auto_hide: bool,
    close_shortcut: Option<Seq<char>>,
) -> InitProgress {
    match inner {
        StepView::Call(request, stage) => StepView::Call(
            request,
            InitPendingView::OwnShortcut { inner: stage, label },
        ),
        StepView::Finished(Err(error)) => StepView::Finished(Err(error)),
        StepView::Finished(Ok(_)) => spec_close_phase(
            spec_register_close_shortcut(close_shortcut),
            label,
            auto_hide,
            close_shortcut,
        ),
    }
}

/// The most requests that the set-up of a window can still make once a reply
/// has reached this stage.
pub open spec fn init_remaining(pending: InitPendingView) -> nat {
    match pending {
        InitPendingView::OwnShortcut { inner, .. } => remaining(inner) + 3,
        InitPendingView::CloseShortcut { inner, .. } => remaining(inner) + 1,
        InitPendingView::Observer { .. } => 0,
    }
}

/// The most requests that the set-up of a window can still make from this
/// step on.
pub open spec fn init_budget(step: InitProgress) -> nat {
    match step {
        StepView::Call(_, pending) => 1 + init_remaining(pending),
        StepView::Finished(_) => 0,
    }
}

/// The registered windows once `label` has been recorded: it is added at the
/// end unless it is there already.
pub open spec fn recorded(registered: Seq<Seq<char>>, label: Seq<char>) -> Seq<Seq<char>> {
    if registered.contains(label) {
        registered
    } else {
        registered.push(label)
    }
}

/// The mathematical value of a [`SpotlightManager`].
pub struct ManagerView {
    pub config: PluginConfigView,
    pub registered: Seq<Seq<char>>,
}

impl ManagerView {
    /// No window is registered twice, and every registered window was
    /// declared.
    pub open spec fn wf(self) -> bool {
        &&& self.registered.no_duplicates()
        &&& forall|i: int|
            0 <= i < self.registered.len() ==> self.config.manages(#[trigger] self.registered[i])
    }

    /// The first step of setting up the window with this label. A window that
    /// was not declared, or that is registered already, asks nothing of the
    /// host and succeeds.
    pub open spec fn init(self, label: Seq<char>) -> InitProgress {
        match self.config.window_for(label) {
            None => StepView::Finished(Ok(())),
            Some(settings) => if self.registered.contains(label) {
                StepView::Finished(Ok(()))
            } else {
                spec_own_phase(
                    spec_register_shortcut_for_window(label, settings.shortcut),
                    label,
                    settings.hides_on_focus_loss(),
                    self.config.global_close_shortcut,
                )
            },
        }
    }

    /// The step that follows when the host's reply reaches a stage of the
    /// set-up. A stage for a window that was not declared is ignored: it
    /// asks nothing more and succeeds. What the host reports of installing
    /// the observer is not looked at.
    pub open spec fn resume(self, pending: InitPendingView, reply: Reply) -> InitProgress {
        match self.config.window_for(pending.label()) {
            None => StepView::Finished(Ok(())),
            Some(settings) => match pending {
                InitPendingView::OwnShortcut { inner, label } => spec_own_phase(
                    inner.resume(reply),
                    label,
                    settings.hides_on_focus_loss(),
                    self.config.global_close_shortcut,
                ),
                InitPendingView::CloseShortcut { inner, label } => spec_close_phase(
                    inner.resume(reply),
                    label,
                    settings.hides_on_focus_loss(),
                    self.config.global_close_shortcut,
                ),
                InitPendingView::Observer { .. } => StepView::Finished(Ok(())),
            },
        }
    }

    /// The registered windows after a reply has reached a stage of the
    /// set-up: the last stage records its window if the window was declared;
    /// nothing else changes them.
    pub open spec fn registered_after(self, pending: InitPendingView) -> Seq<Seq<char>> {
        match pending {
            InitPendingView::Observer { label } => if self.config.manages(label) {
                recorded(self.registered, label)
            } else {
                self.registered
            },
            _ => self.registered,
        }
    }

    /// The manager after a reply has reached a stage of the set-up.
    pub open spec fn after(self, pending: InitPendingView) -> ManagerView {
        ManagerView { registered: self.registered_after(pending), ..self }
    }
}

/// Holds the plugin's settings and the labels of the windows whose shortcuts
/// and focus observer have been set up.
///
/// No label is ever held twice, and every label held is that of a declared
/// window.
#[derive(Debug)]
pub struct SpotlightManager {
    config: PluginConfig,
    registered_window: Vec<String>,
}

impl View for SpotlightManager {
    type V = ManagerView;

    closed spec fn view(&self) -> ManagerView {
        ManagerView { config: self.config@, registered: texts(self.registered_window@) }
    }
}

/// Whether `label` is among `registered`.
fn contains_label(registered: &Vec<String>, label: &String) -> (found: bool)
    ensures
        found == texts(registered@).contains(label@),
{
    let mut i: usize = 0;
    while i < registered.len()
        invariant
            i <= registered.len(),
            forall|j: int| 0 <= j < i ==> (#[trigger] texts(registered@)[j]) != label@,
        decreases registered.len() - i,
    {
        if registered[i] == *label {
            assert(texts(registered@)[i as int] == label@);
            return true;
        }
        i += 1;
    }
    false
}

/// Carries a step of a part of the set-up back into the set-up.
fn own_phase(
    inner: Step<Pending>,
    label: String,
    auto_hide: bool,
    close_shortcut: Option<String>,
) -> (step: Step<InitPending>)
    ensures
        step@ == spec_own_phase(inner@, label@, auto_hide, text_view(close_shortcut)),
{
    match inner {
        Step::Call(request, stage) => Step::Call(
            request,
            InitPending::OwnShortcut { inner: stage, label },
        ),
        Step::Finished(Err(error)) => Step::Finished(Err(error)),
        Step::Finished(Ok(_)) => {
            let inner = register_close_shortcut(&close_shortcut);
            close_phase(inner, label, auto_hide, close_shortcut)
        },
    }
}

/// Carries a step of registering the close shortcut back into the set-up.
fn close_phase(
    inner: Step<Pending>,
    label: String,
    auto_hide: bool,
    close_shortcut: Option<String>,
) -> (step: Step<InitPending>)
    ensures
        step@ == spec_close_phase(inner@, label@, auto_hide, text_view(close_shortcut)),
{
    match inner {
        Step::Call(request, stage) => Step::Call(
            request,
            InitPending::CloseShortcut { inner: stage, label },
        ),
        Step::Finished(Err(error)) => Step::Finished(Err(error)),
        Step::Finished(Ok(_)) => Step::Call(
            Request::ObserveFocus {
                label: label.clone(),
                auto_hide,
                close_shortcut,
            },
            InitPending::Observer { label },
        ),
    }
}

impl SpotlightManager {
    /// The labels of the registered windows, in the order in which they were
    /// recorded.
    pub open spec fn registered(&self) -> Seq<Seq<char>> {
        self@.registered
    }

    #[verifier::type_invariant]
    spec fn well_formed(self) -> bool {
        self@.wf()
    }

    /// A manager with these settings and no registered window.
    pub fn new(config: PluginConfig) -> (manager: SpotlightManager)
        ensures
            manager@.config == config@,
            manager.registered() == Seq::<Seq<char>>::empty(),
    {
        let manager = SpotlightManager { config, registered_window: Vec::new() };
        assert(manager.registered() =~= Seq::<Seq<char>>::empty());
        manager
    }

    /// The settings that the manager was built from.
    pub fn config(&self) -> (config: &PluginConfig)
        ensures
            config@ == self@.config,
    {
        &self.config
    }

    /// The settings of the window with this label, if it was declared.
    pub fn get_window_config(&self, label: &str) -> (found: Option<WindowConfig>)
        ensures
            settings_view(found) == self@.config.window_for(label@),
    {
        self.config.window_for(label)
    }

    /// Whether the window with this label has been set up.
    pub fn is_registered(&self, label: &str) -> (registered: bool)
        ensures
            registered == self.registered().contains(label@),
    {
        let wanted = label.to_owned();
        contains_label(&self.registered_window, &wanted)
    }

    /// A copy of the labels of the registered windows. None occurs twice,
    /// and each is the label of a declared window.
    pub fn registered_windows(&self) -> (labels: Vec<String>)
        ensures
            texts(labels@) == self.registered(),
            self@.wf(),
    {
        proof {
            use_type_invariant(self);
        }
        let mut labels: Vec<String> = Vec::new();
        let mut i: usize = 0;
        while i < self.registered_window.len()
            invariant
                i <= self.registered_window.len(),
                labels.len() == i,
                forall|j: int| 0 <= j < i ==> (#[trigger] labels[j])@ == self.registered_window[j]@,
            decreases self.registered_window.len() - i,
        {
            labels.push(self.registered_window[i].clone());
            i += 1;
        }
        assert(texts(labels@) =~= texts(self.registered_window@));
        labels
    }

    /// Starts setting up the window with this label.
    ///
    /// A window that was not declared in the settings is ignored, and one
    /// that is registered already is left alone: both finish at once with
    /// success. Otherwise the window's own shortcut is bound if it has one,
    /// the close shortcut is registered unless the registry has it, the focus
    /// observer is installed, and the window is recorded. A failure to bind
    /// the window's shortcut, or to look up or register the close shortcut,
    /// ends the set-up with an error, and the window is not recorded. What
    /// the host reports of installing the observer is not looked at: once
    /// that request has been answered the set-up succeeds.
    pub fn init_spotlight_window(&self, label: &str) -> (step: Step<InitPending>)
        ensures
            step@ == self@.init(label@),
            !self@.config.manages(label@) ==> step@ == StepView::<InitPendingView>::Finished(
                Ok(()),
            ),
            self.registered().contains(label@) ==> step@ == StepView::<InitPendingView>::Finished(
                Ok(()),
            ),
    {
        proof {
            lemma_window_for(self@.config, label@);
        }
        let settings = match self.get_window_config(label) {
            Some(settings) => settings,
            None => {
                return Step::Finished(Ok(()));
            },
        };
        let auto_hide = settings.hides_on_focus_loss();
        if self.is_registered(label) {
            return Step::Finished(Ok(()));
        }
        let inner = register_shortcut_for_window(label, &settings);
        let close_shortcut = clone_text(&self.config.global_close_shortcut);
        own_phase(inner, label.to_owned(), auto_hide, close_shortcut)
    }

    /// Resumes the set-up of a window with the host's reply to the request
    /// that was handed out with this stage.
    ///
    /// The window's settings are read anew. A stage for a window that was not
    /// declared is ignored: nothing more is asked, nothing is recorded, and
    /// the set-up succeeds. When the reply reaches the last stage of a
    /// declared window, the window is recorded, unless it has been recorded
    /// meanwhile.
    pub fn resume_init(&mut self, pending: InitPending, reply: Reply) -> (step: Step<InitPending>)
        ensures
            step@ == old(self)@.resume(pending@, reply),
            init_budget(step@) <= init_remaining(pending@),
            final(self)@ == old(self)@.after(pending@),
            final(self)@.wf(),
            !old(self)@.config.manages(pending@.label()) ==> final(self)@ == old(self)@ && step@
                == StepView::<InitPendingView>::Finished(Ok(())),
    {
        proof {
            use_type_invariant(&*self);
            lemma_window_for(self@.config, pending@.label());
        }
        match pending {
            InitPending::OwnShortcut { inner, label } => {
                match self.config.window_for(label.as_str()) {
                    Some(settings) => own_phase(
                        inner.resume(reply),
                        label,
                        settings.hides_on_focus_loss(),
                        clone_text(&self.config.global_close_shortcut),
                    ),
                    None => Step::Finished(Ok(())),
                }
            },
            InitPending::CloseShortcut { inner, label } => {
                match self.config.window_for(label.as_str()) {
                    Some(settings) => close_phase(
                        inner.resume(reply),
                        label,
                        settings.hides_on_focus_loss(),
                        clone_text(&self.config.global_close_shortcut),
                    ),
                    None => Step::Finished(Ok(())),
                }
            },
            InitPending::Observer { label } => {
                if self.config.manages(label.as_str()) && !contains_label(
                    &self.registered_window,
                    &label,
                ) {
                    let ghost before = self@;
                    let mut labels: Vec<String> = Vec::new();
                    core::mem::swap(&mut self.registered_window, &mut labels);
                    labels.push(label);
                    assert(texts(labels@) =~= before.registered.push(label@));
                    self.registered_window = labels;
                }
                assert(self@ =~= old(self)@.after(pending@));
                Step::Finished(Ok(()))
            },
        }
    }

    /// Starts showing the window with this label: when it is not visible it
    /// is made visible, given input focus and brought to the front.
    pub fn show(&self, label: &str) -> (step: Step<Pending>)
        ensures
            step@ == spec_show_window(label@),
    {
        show_window(label)
    }

    /// Starts hiding the window with this label, if it is visible.
    pub fn hide_window(&self, label: &str) -> (step: Step<Pending>)
        ensures
            step@ == spec_hide_window(label@),
    {
        hide_window(label)
    }

    /// Starts hiding every window that is registered by now. The labels are
    /// copied first, so the manager need not stay locked while the host
    /// works.
    pub fn close_all(&self) -> (step: Step<Pending>)
        ensures
            step@ == spec_close_all(self.registered()),
    {
        close_all(self.registered_windows())
    }
}

impl Default for SpotlightManager {
    /// A manager without settings and without registered windows.
    fn default() -> (manager: SpotlightManager)
        ensures
            manager@.config.windows.len() == 0,
            manager@.config.global_close_shortcut is None,
            manager.registered() == Seq::<Seq<char>>::empty(),
    {
        SpotlightManager::new(PluginConfig::default())
    }
}

} // verus!

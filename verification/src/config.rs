//! What the manager is told at construction: which windows it manages and
//! which shortcuts summon and dismiss them.

use vstd::prelude::*;

verus! {

/// The settings of one managed window.
#[derive(Debug, PartialEq, Eq)]
pub struct WindowConfig {
    /// The label of the window that these settings belong to.
    pub label: String,
    /// The global shortcut that shows the window when hidden and hides it
    /// when visible, if it has one.
    pub shortcut: Option<String>,
    /// Whether the window is hidden when it loses focus. When absent the
    /// window is hidden; when `false` it is only told that it lost focus.
    pub auto_hide: Option<bool>,
}

/// The mathematical value of a [`WindowConfig`].
pub struct WindowConfigView {
    pub label: Seq<char>,
    pub shortcut: Option<Seq<char>>,
    pub auto_hide: Option<bool>,
}

impl WindowConfigView {
    /// Whether losing focus hides the window: the setting, or `true` where
    /// nothing was set.
    pub open spec fn hides_on_focus_loss(self) -> bool {
        match self.auto_hide {
            Some(flag) => flag,
            None => true,
        }
    }
}

/// The view of an optional string.
pub open spec fn text_view(text: Option<String>) -> Option<Seq<char>> {
    match text {
        Some(s) => Some(s@),
        None => None,
    }
}

impl View for WindowConfig {
    type V = WindowConfigView;

    open spec fn view(&self) -> WindowConfigView {
        WindowConfigView {
            label: self.label@,
            shortcut: text_view(self.shortcut),
            auto_hide: self.auto_hide,
        }
    }
}

/// The view of settings that may be absent.
pub open spec fn settings_view(settings: Option<WindowConfig>) -> Option<WindowConfigView> {
    match settings {
        Some(found) => Some(found@),
        None => None,
    }
}

/// A copy of an optional string.
pub fn clone_text(text: &Option<String>) -> (copy: Option<String>)
    ensures
        text_view(copy) == text_view(*text),
{
    match text {
        Some(s) => Some(s.clone()),
        None => None,
    }
}

impl Clone for WindowConfig {
    fn clone(&self) -> (copy: WindowConfig)
        ensures
            copy@ == self@,
    {
        WindowConfig {
            label: self.label.clone(),
            shortcut: clone_text(&self.shortcut),
            auto_hide: self.auto_hide,
        }
    }
}

impl WindowConfig {
    /// Whether losing focus hides the window.
    pub fn hides_on_focus_loss(&self) -> (hides: bool)
        ensures
            hides == self@.hides_on_focus_loss(),
    {
        match self.auto_hide {
            Some(flag) => flag,
            None => true,
        }
    }
}

/// The settings of the whole plugin. They do not change once the manager has
/// been built from them.
#[derive(Debug, PartialEq, Eq)]
pub struct PluginConfig {
    /// The managed windows, in the order in which they were declared.
    pub windows: Option<Vec<WindowConfig>>,
    /// The one global shortcut that hides every registered window.
    pub global_close_shortcut: Option<String>,
}

/// The mathematical value of a [`PluginConfig`]. An absent list of windows
/// and an empty one are the same value.
pub struct PluginConfigView {
    pub windows: Seq<WindowConfigView>,
    pub global_close_shortcut: Option<Seq<char>>,
}

/// The views of a list of window settings, in order.
pub open spec fn windows_view(windows: Seq<WindowConfig>) -> Seq<WindowConfigView> {
    windows.map_values(|w: WindowConfig| w@)
}

impl PluginConfigView {
    /// The labels of the declared windows, in order.
    pub open spec fn labels(self) -> Seq<Seq<char>> {
        self.windows.map_values(|w: WindowConfigView| w.label)
    }

    /// Whether a window with this label was declared.
    pub open spec fn manages(self, label: Seq<char>) -> bool {
        self.labels().contains(label)
    }

    /// Whether the window declared at position `i` carries the label and none
    /// declared before it does.
    pub open spec fn is_first_with_label(self, label: Seq<char>, i: int) -> bool {
        &&& 0 <= i < self.windows.len()
        &&& self.windows[i].label == label
        &&& forall|j: int| 0 <= j < i ==> (#[trigger] self.windows[j]).label != label
    }

    /// The settings of the window with this label: those of the first
    /// declared window that carries it, or nothing where none does.
    pub open spec fn window_for(self, label: Seq<char>) -> Option<WindowConfigView> {
        match self.labels().index_of_first(label) {
            Some(i) => Some(self.windows[i]),
            None => None,
        }
    }
}

impl View for PluginConfig {
    type V = PluginConfigView;

    open spec fn view(&self) -> PluginConfigView {
        PluginConfigView {
            windows: match self.windows {
                Some(windows) => windows_view(windows@),
                None => Seq::empty(),
            },
            global_close_shortcut: text_view(self.global_close_shortcut),
        }
    }
}

/// What `window_for` finds is the first declared window that carries the
/// label; it finds nothing exactly when no declared window carries it.
pub proof fn lemma_window_for(config: PluginConfigView, label: Seq<char>)
    ensures
        config.window_for(label) is Some <==> config.manages(label),
        config.window_for(label) matches Some(found) ==> exists|i: int|
            config.is_first_with_label(label, i) && config.windows[i] == found,
{
    let labels = config.labels();
    labels.index_of_first_ensures(label);
    if let Some(i) = labels.index_of_first(label) {
        assert(labels[i] == label);
        assert(labels.contains(label));
        assert forall|j: int| 0 <= j < i implies (#[trigger] config.windows[j]).label != label by {
            assert(labels[j] == config.windows[j].label);
        }
        assert(config.is_first_with_label(label, i));
    }
}

/// The first declared window that carries the label is what `window_for`
/// finds.
pub proof fn lemma_window_for_first(config: PluginConfigView, label: Seq<char>, i: int)
    requires
        config.is_first_with_label(label, i),
    ensures
        config.window_for(label) == Some(config.windows[i]),
{
    let labels = config.labels();
    labels.index_of_first_ensures(label);
    assert(labels[i] == label);
    assert(labels.contains(label));
    let k = labels.index_of_first(label).unwrap();
    assert(labels[k] == config.windows[k].label);
    if k < i {
        assert(config.windows[k].label != label);
    }
    if i < k {
        assert(labels[i] != label);
    }
}

/// `window_for` finds nothing when no declared window carries the label.
pub proof fn lemma_window_for_none(config: PluginConfigView, label: Seq<char>)
    requires
        forall|j: int|
            0 <= j < config.windows.len() ==> (#[trigger] config.windows[j]).label != label,
    ensures
        config.window_for(label) is None,
{
    let labels = config.labels();
    labels.index_of_first_ensures(label);
    if let Some(k) = labels.index_of_first(label) {
        assert(labels[k] == config.windows[k].label);
    }
}

impl Default for PluginConfig {
    /// The settings that declare no window and no close shortcut.
    fn default() -> (config: PluginConfig)
        ensures
            config@.windows.len() == 0,
            config@.global_close_shortcut is None,
            config.windows is None,
    {
        PluginConfig { windows: None, global_close_shortcut: None }
    }
}

impl Clone for PluginConfig {
    fn clone(&self) -> (copy: PluginConfig)
        ensures
            copy@ == self@,
    {
        let windows = match &self.windows {
            Some(declared) => {
                let mut copies: Vec<WindowConfig> = Vec::new();
                let mut i: usize = 0;
                while i < declared.len()
                    invariant
                        i <= declared.len(),
                        copies.len() == i,
                        forall|j: int| 0 <= j < i ==> (#[trigger] copies[j])@ == declared[j]@,
                    decreases declared.len() - i,
                {
                    copies.push(declared[i].clone());
                    i += 1;
                }
                assert(windows_view(copies@) =~= windows_view(declared@));
                Some(copies)
            },
            None => None,
        };
        PluginConfig { windows, global_close_shortcut: clone_text(&self.global_close_shortcut) }
    }
}

impl PluginConfig {
    /// Whether a window with this label was declared.
    pub fn manages(&self, label: &str) -> (declared: bool)
        ensures
            declared == self@.manages(label@),
    {
        match &self.windows {
            Some(declared) => {
                let wanted = label.to_owned();
                let mut i: usize = 0;
                while i < declared.len()
                    invariant
                        i <= declared.len(),
                        wanted@ == label@,
                        self.windows == Some(*declared),
                        forall|j: int| 0 <= j < i ==> (#[trigger] self@.labels()[j]) != label@,
                    decreases declared.len() - i,
                {
                    if declared[i].label == wanted {
                        assert(self@.labels()[i as int] == label@);
                        return true;
                    }
                    i += 1;
                }
                false
            },
            None => false,
        }
    }

    /// The settings of the window with this label, if one was declared.
    pub fn window_for(&self, label: &str) -> (found: Option<WindowConfig>)
        ensures
            settings_view(found) == self@.window_for(label@),
    {
        match &self.windows {
            Some(declared) => {
                let wanted = label.to_owned();
                let mut i: usize = 0;
                while i < declared.len()
                    invariant
                        i <= declared.len(),
                        wanted@ == label@,
                        self.windows == Some(*declared),
                        forall|j: int| 0 <= j < i ==> (#[trigger] self@.windows[j]).label != label@,
                    decreases declared.len() - i,
                {
                    if declared[i].label == wanted {
                        proof {
                            lemma_window_for_first(self@, label@, i as int);
                        }
                        return Some(declared[i].clone());
                    }
                    i += 1;
                }
                proof {
                    lemma_window_for_none(self@, label@);
                }
                None
            },
            None => {
                proof {
                    lemma_window_for_none(self@, label@);
                }
                None
            },
        }
    }
}

} // verus!

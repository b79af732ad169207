use spotlight::procedure::{hide_window, show_window};
use spotlight::{
    Error, InitPending, Pending, PluginConfig, Reply, Request, SpotlightManager, Step,
    WindowConfig,
};

fn text(s: &str) -> String {
    s.to_string()
}

fn window(label: &str, shortcut: Option<&str>, auto_hide: Option<bool>) -> WindowConfig {
    WindowConfig { label: text(label), shortcut: shortcut.map(text), auto_hide }
}

fn manager_for(windows: Vec<WindowConfig>, close: Option<&str>) -> SpotlightManager {
    SpotlightManager::new(PluginConfig {
        windows: Some(windows),
        global_close_shortcut: close.map(text),
    })
}

fn sample() -> SpotlightManager {
    manager_for(
        vec![window("main", Some("Cmd+K"), Some(true))],
        Some("Cmd+Shift+Esc"),
    )
}

fn advance(
    manager: &mut SpotlightManager,
    step: Step<InitPending>,
    reply: Reply,
) -> Step<InitPending> {
    match step {
        Step::Call(_, pending) => manager.resume_init(pending, reply),
        Step::Finished(_) => panic!("the set-up has finished"),
    }
}

fn request_of(step: &Step<InitPending>) -> &Request {
    match step {
        Step::Call(request, _) => request,
        Step::Finished(_) => panic!("the set-up has finished"),
    }
}

fn set_up(manager: &mut SpotlightManager, label: &str, replies: &[Reply]) -> Result<(), Error> {
    let mut step = manager.init_spotlight_window(label);
    let mut next: usize = 0;
    loop {
        match step {
            Step::Finished(result) => {
                assert_eq!(next, replies.len());
                return result;
            }
            Step::Call(_, pending) => {
                step = manager.resume_init(pending, replies[next]);
                next += 1;
            }
        }
    }
}

#[test]
fn a_new_manager_has_no_registered_window() {
    let manager = sample();
    assert_eq!(manager.registered_windows(), Vec::<String>::new());
    assert!(!manager.is_registered("main"));
    assert_eq!(manager.config().global_close_shortcut, Some(text("Cmd+Shift+Esc")));
    assert_eq!(manager.close_all(), Step::Finished(Ok(())));
}

#[test]
fn the_default_manager_manages_nothing() {
    let mut manager = SpotlightManager::default();
    assert_eq!(manager.config(), &PluginConfig::default());
    assert_eq!(manager.registered_windows(), Vec::<String>::new());
    assert_eq!(set_up(&mut manager, "main", &[]), Ok(()));
    assert_eq!(manager.registered_windows(), Vec::<String>::new());
}

#[test]
fn init_ignores_a_window_without_config() {
    let mut manager = sample();
    assert_eq!(manager.init_spotlight_window("other"), Step::Finished(Ok(())));
    assert_eq!(set_up(&mut manager, "other", &[]), Ok(()));
    assert!(!manager.is_registered("other"));
    assert_eq!(manager.registered_windows(), Vec::<String>::new());
}

#[test]
fn init_registers_shortcuts_and_observer_in_order() {
    let mut manager = sample();
    let step = manager.init_spotlight_window("main");
    assert_eq!(
        step,
        Step::Call(
            Request::RegisterToggleShortcut { shortcut: text("Cmd+K"), label: text("main") },
            InitPending::OwnShortcut {
                inner: Pending::OwnShortcut,
                label: text("main"),
            }
        )
    );
    let step = advance(&mut manager, step, Reply::Done);
    assert_eq!(
        step,
        Step::Call(
            Request::IsShortcutRegistered { shortcut: text("Cmd+Shift+Esc") },
            InitPending::CloseShortcut {
                inner: Pending::CloseLookup { shortcut: text("Cmd+Shift+Esc") },
                label: text("main"),
            }
        )
    );
    let step = advance(&mut manager, step, Reply::Flag(false));
    assert_eq!(
        step,
        Step::Call(
            Request::RegisterCloseShortcut { shortcut: text("Cmd+Shift+Esc") },
            InitPending::CloseShortcut {
                inner: Pending::CloseBind,
                label: text("main"),
            }
        )
    );
    let step = advance(&mut manager, step, Reply::Done);
    assert_eq!(
        step,
        Step::Call(
            Request::ObserveFocus {
                label: text("main"),
                auto_hide: true,
                close_shortcut: Some(text("Cmd+Shift+Esc")),
            },
            InitPending::Observer { label: text("main") }
        )
    );
    assert!(!manager.is_registered("main"));
    let step = advance(&mut manager, step, Reply::Done);
    assert_eq!(step, Step::Finished(Ok(())));
    assert!(manager.is_registered("main"));
    assert_eq!(manager.registered_windows(), vec![text("main")]);
}

#[test]
fn init_twice_registers_once() {
    let mut manager = sample();
    let replies = [Reply::Done, Reply::Flag(false), Reply::Done, Reply::Done];
    assert_eq!(set_up(&mut manager, "main", &replies), Ok(()));
    assert_eq!(manager.registered_windows(), vec![text("main")]);
    assert_eq!(manager.init_spotlight_window("main"), Step::Finished(Ok(())));
    assert_eq!(set_up(&mut manager, "main", &[]), Ok(()));
    assert_eq!(manager.registered_windows(), vec![text("main")]);
}

#[test]
fn init_does_not_register_the_close_shortcut_twice() {
    let mut manager = manager_for(
        vec![window("main", Some("Cmd+K"), None), window("notes", Some("Cmd+J"), None)],
        Some("Esc"),
    );
    let first = [Reply::Done, Reply::Flag(false), Reply::Done, Reply::Done];
    assert_eq!(set_up(&mut manager, "main", &first), Ok(()));
    let step = manager.init_spotlight_window("notes");
    let step = advance(&mut manager, step, Reply::Done);
    assert_eq!(
        request_of(&step),
        &Request::IsShortcutRegistered { shortcut: text("Esc") }
    );
    let step = advance(&mut manager, step, Reply::Flag(true));
    assert_eq!(
        request_of(&step),
        &Request::ObserveFocus {
            label: text("notes"),
            auto_hide: true,
            close_shortcut: Some(text("Esc"))
        }
    );
    assert_eq!(advance(&mut manager, step, Reply::Done), Step::Finished(Ok(())));
    assert_eq!(manager.registered_windows(), vec![text("main"), text("notes")]);
}

#[test]
fn init_without_own_shortcut_starts_with_the_close_shortcut() {
    let mut manager = manager_for(vec![window("main", None, Some(false))], Some("Esc"));
    let step = manager.init_spotlight_window("main");
    assert_eq!(
        step,
        Step::Call(
            Request::IsShortcutRegistered { shortcut: text("Esc") },
            InitPending::CloseShortcut {
                inner: Pending::CloseLookup { shortcut: text("Esc") },
                label: text("main"),
            }
        )
    );
    let step = advance(&mut manager, step, Reply::Flag(true));
    assert_eq!(
        request_of(&step),
        &Request::ObserveFocus {
            label: text("main"),
            auto_hide: false,
            close_shortcut: Some(text("Esc"))
        }
    );
}

#[test]
fn init_without_any_shortcut_only_observes_focus() {
    let mut manager = manager_for(vec![window("main", None, None)], None);
    let step = manager.init_spotlight_window("main");
    assert_eq!(
        step,
        Step::Call(
            Request::ObserveFocus { label: text("main"), auto_hide: true, close_shortcut: None },
            InitPending::Observer { label: text("main") }
        )
    );
    assert_eq!(advance(&mut manager, step, Reply::Failed), Step::Finished(Ok(())));
    assert_eq!(manager.registered_windows(), vec![text("main")]);
}

#[test]
fn init_fails_when_the_own_shortcut_cannot_be_registered() {
    let mut manager = sample();
    assert_eq!(
        set_up(&mut manager, "main", &[Reply::Failed]),
        Err(Error::Other(text("failed to register shortcut")))
    );
    assert!(!manager.is_registered("main"));
    assert_eq!(manager.registered_windows(), Vec::<String>::new());
}

#[test]
fn init_fails_when_the_registry_cannot_be_asked() {
    let mut manager = sample();
    assert_eq!(
        set_up(&mut manager, "main", &[Reply::Done, Reply::Failed]),
        Err(Error::Other(text("failed to register shortcut")))
    );
    assert!(!manager.is_registered("main"));
}

#[test]
fn init_fails_when_the_close_shortcut_cannot_be_registered() {
    let mut manager = sample();
    assert_eq!(
        set_up(&mut manager, "main", &[Reply::Done, Reply::Flag(false), Reply::Failed]),
        Err(Error::Other(text("failed to register shortcut")))
    );
    assert!(!manager.is_registered("main"));
}

#[test]
fn init_can_be_tried_again_after_a_failure() {
    let mut manager = sample();
    assert!(set_up(&mut manager, "main", &[Reply::Failed]).is_err());
    let replies = [Reply::Done, Reply::Flag(true), Reply::Done];
    assert_eq!(set_up(&mut manager, "main", &replies), Ok(()));
    assert_eq!(manager.registered_windows(), vec![text("main")]);
}

#[test]
fn two_set_ups_of_one_window_record_it_once() {
    let mut manager = manager_for(vec![window("main", None, None)], None);
    let first = manager.init_spotlight_window("main");
    let second = manager.init_spotlight_window("main");
    assert_eq!(advance(&mut manager, first, Reply::Done), Step::Finished(Ok(())));
    assert_eq!(advance(&mut manager, second, Reply::Done), Step::Finished(Ok(())));
    assert_eq!(manager.registered_windows(), vec![text("main")]);
}

#[test]
fn windows_are_registered_in_the_order_of_their_set_up() {
    let mut manager = manager_for(
        vec![window("a", None, None), window("b", None, None), window("c", None, None)],
        None,
    );
    assert_eq!(set_up(&mut manager, "c", &[Reply::Done]), Ok(()));
    assert_eq!(set_up(&mut manager, "a", &[Reply::Done]), Ok(()));
    assert_eq!(set_up(&mut manager, "c", &[]), Ok(()));
    assert_eq!(set_up(&mut manager, "b", &[Reply::Done]), Ok(()));
    assert_eq!(manager.registered_windows(), vec![text("c"), text("a"), text("b")]);
    assert!(manager.is_registered("a"));
    assert!(!manager.is_registered("d"));
}

#[test]
fn manager_show_and_hide_start_the_window_operations() {
    let manager = sample();
    assert_eq!(manager.show("main"), show_window("main"));
    assert_eq!(manager.hide_window("main"), hide_window("main"));
    assert_eq!(
        manager.show("main"),
        Step::Call(
            Request::IsVisible { label: text("main") },
            Pending::ShowVisibility { label: text("main") }
        )
    );
}

#[test]
fn manager_closes_the_windows_registered_by_now() {
    let mut manager = manager_for(vec![window("a", None, None), window("b", None, None)], None);
    assert_eq!(set_up(&mut manager, "b", &[Reply::Done]), Ok(()));
    assert_eq!(set_up(&mut manager, "a", &[Reply::Done]), Ok(()));
    assert_eq!(
        manager.close_all(),
        Step::Call(
            Request::FindWindow { label: text("b") },
            Pending::SweepFind { labels: vec![text("b"), text("a")], index: 0 }
        )
    );
}

#[test]
fn a_stage_for_an_undeclared_window_records_nothing() {
    let mut manager = SpotlightManager::default();
    let stage = InitPending::Observer { label: text("ghost") };
    assert_eq!(manager.resume_init(stage, Reply::Failed), Step::Finished(Ok(())));
    assert_eq!(manager.registered_windows(), Vec::<String>::new());
    assert!(!manager.is_registered("ghost"));

    let mut manager = sample();
    let stage = InitPending::Observer { label: text("ghost") };
    assert_eq!(manager.resume_init(stage, Reply::Done), Step::Finished(Ok(())));
    assert_eq!(manager.registered_windows(), Vec::<String>::new());
}

#[test]
fn a_stage_for_an_undeclared_window_asks_nothing_more() {
    let mut manager = sample();
    let stage = InitPending::OwnShortcut { inner: Pending::OwnShortcut, label: text("ghost") };
    assert_eq!(manager.resume_init(stage, Reply::Done), Step::Finished(Ok(())));
    let stage = InitPending::CloseShortcut {
        inner: Pending::CloseLookup { shortcut: text("Cmd+Shift+Esc") },
        label: text("ghost"),
    };
    assert_eq!(manager.resume_init(stage, Reply::Flag(false)), Step::Finished(Ok(())));
    let stage = InitPending::CloseShortcut { inner: Pending::CloseBind, label: text("ghost") };
    assert_eq!(manager.resume_init(stage, Reply::Failed), Step::Finished(Ok(())));
    assert_eq!(manager.registered_windows(), Vec::<String>::new());
}

#[test]
fn a_resumed_set_up_reads_the_settings_from_the_manager() {
    let mut manager = manager_for(vec![window("main", None, Some(false))], Some("Esc"));
    let stage = InitPending::CloseShortcut {
        inner: Pending::CloseLookup { shortcut: text("Other") },
        label: text("main"),
    };
    assert_eq!(
        manager.resume_init(stage, Reply::Flag(true)),
        Step::Call(
            Request::ObserveFocus {
                label: text("main"),
                auto_hide: false,
                close_shortcut: Some(text("Esc"))
            },
            InitPending::Observer { label: text("main") }
        )
    );
}

#[test]
fn every_registered_window_is_declared() {
    let mut manager = manager_for(vec![window("a", None, None), window("b", None, None)], None);
    for label in ["ghost", "b", "", "a", "b", "A"] {
        let stage = InitPending::Observer { label: text(label) };
        assert_eq!(manager.resume_init(stage, Reply::Done), Step::Finished(Ok(())));
    }
    assert_eq!(manager.registered_windows(), vec![text("b"), text("a")]);
    for label in manager.registered_windows() {
        assert!(manager.config().manages(&label));
    }
}

#[test]
fn config_says_which_windows_are_declared() {
    let manager = sample();
    assert!(manager.config().manages("main"));
    assert!(!manager.config().manages("ghost"));
    assert!(!manager.config().manages(""));
    assert!(!PluginConfig::default().manages("main"));
}

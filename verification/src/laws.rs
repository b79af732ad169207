//! The laws of the library.
//!
//! The first laws hold whatever the host replies. The others speak of
//! operations that run to their end on the host of [`crate::desktop`].

use vstd::prelude::*;
use crate::config::{lemma_window_for, PluginConfigView, WindowConfigView};
use crate::desktop::{
    run, run_init, Binding, Desktop, InitOutcome, Notice, Observer, Outcome,
};
use crate::error::{register_message, ErrorView};
use crate::host::{resign_event, Reply, RequestView, WindowEvent};
use crate::manager::{init_budget, init_remaining, recorded, InitPendingView, ManagerView};
use crate::procedure::{
    budget, remaining, spec_close_all, spec_failed, spec_handle_focus_state_change,
    spec_hide_window, spec_show_window, spec_sweep, spec_toggle_window, PendingView, StepView,
};

verus! {

/// Whatever the host replies, an operation that is resumed stays within the
/// number of requests that its stage allows: every operation comes to an end.
pub proof fn lemma_resume_within_budget(pending: PendingView, reply: Reply)
    ensures
        budget(pending.resume(reply)) <= remaining(pending),
{
}

/// Whatever the host replies, the set-up of a window stays within the number
/// of requests that its stage allows.
pub proof fn lemma_init_resume_within_budget(
    manager: ManagerView,
    pending: InitPendingView,
    reply: Reply,
)
    ensures
        init_budget(manager.resume(pending, reply)) <= init_remaining(pending),
{
    match pending {
        InitPendingView::OwnShortcut { inner, .. } => {
            lemma_resume_within_budget(inner, reply);
        },
        InitPendingView::CloseShortcut { inner, .. } => {
            lemma_resume_within_budget(inner, reply);
        },
        InitPendingView::Observer { .. } => {},
    }
}

/// A stage of the set-up of a window that was not declared is ignored,
/// whoever made it and whatever the host replies: nothing more is asked of
/// the host, the set-up succeeds, and the window is not recorded.
pub proof fn lemma_undeclared_stage_is_ignored(
    manager: ManagerView,
    pending: InitPendingView,
    reply: Reply,
)
    requires
        !manager.config.manages(pending.label()),
    ensures
        manager.resume(pending, reply) == StepView::<InitPendingView>::Finished(Ok(())),
        manager.after(pending) == manager,
{
    lemma_window_for(manager.config, pending.label());
}

/// Resuming the set-up keeps the manager in order: no window is registered
/// twice, and only declared windows are registered.
pub proof fn lemma_resume_keeps_manager_in_order(manager: ManagerView, pending: InitPendingView)
    requires
        manager.wf(),
    ensures
        manager.after(pending).wf(),
{
    let next = manager.after(pending);
    if next.registered != manager.registered {
        let label = pending.label();
        assert(next.registered == manager.registered.push(label));
        assert forall|i: int| 0 <= i < next.registered.len() implies manager.config.manages(
            #[trigger] next.registered[i],
        ) by {
            if i < manager.registered.len() {
                assert(next.registered[i] == manager.registered[i]);
            }
        }
    }
}

/// The set-up of a window fails only on a reply that is a failure or that
/// leaves a question unanswered.
pub proof fn lemma_init_failure_needs_a_failed_reply(
    manager: ManagerView,
    pending: InitPendingView,
    reply: Reply,
)
    requires
        manager.resume(pending, reply) matches StepView::Finished(Err(_)),
        !(pending matches InitPendingView::OwnShortcut { inner, .. } && inner is ShowUndo),
        !(pending matches InitPendingView::CloseShortcut { inner, .. } && inner is ShowUndo),
    ensures
        reply.answer() is None,
{
}

/// An operation fails only on a reply that is a failure or that leaves a
/// question unanswered: no operation makes up an error. The one stage that
/// fails on any reply is the one that undoes a show, where the failure has
/// come before.
pub proof fn lemma_failure_needs_a_failed_reply(pending: PendingView, reply: Reply)
    requires
        pending.resume(reply) matches StepView::Finished(Err(_)),
        pending !is ShowUndo,
    ensures
        reply.answer() is None,
{
}

/// A window that was made visible and cannot be given focus is hidden again,
/// whatever the host replies to that, and the show fails; the window is not
/// brought to the front.
pub proof fn lemma_failed_focus_undoes_the_show(label: Seq<char>, focus: Reply, undo: Reply)
    requires
        !focus.succeeded(),
    ensures
        (PendingView::ShowFocus { label }).resume(focus) == StepView::Call(
            RequestView::Hide { label },
            PendingView::ShowUndo,
        ),
        PendingView::ShowUndo.resume(undo) == spec_failed(ErrorView::FailedToShowWindow),
{
}

/// The close shortcut is bound only in answer to a lookup that found the
/// registry without it: it is never bound twice.
pub proof fn lemma_close_shortcut_bound_only_when_absent(
    pending: PendingView,
    reply: Reply,
    shortcut: Seq<char>,
)
    requires
        pending.resume(reply) matches StepView::Call(request, _) && request == (
        RequestView::RegisterCloseShortcut { shortcut }),
    ensures
        pending == (PendingView::CloseLookup { shortcut }),
        reply == Reply::Flag(false),
{
}

/// While a window is set up, too, the close shortcut is bound only in answer
/// to a lookup that found the registry without it.
pub proof fn lemma_init_binds_close_shortcut_only_when_absent(
    manager: ManagerView,
    pending: InitPendingView,
    reply: Reply,
    shortcut: Seq<char>,
)
    requires
        manager.resume(pending, reply) matches StepView::Call(request, _) && request == (
        RequestView::RegisterCloseShortcut { shortcut }),
    ensures
        pending matches InitPendingView::OwnShortcut { inner, .. } ==> inner == (
        PendingView::CloseLookup { shortcut }),
        pending matches InitPendingView::CloseShortcut { inner, .. } ==> inner == (
        PendingView::CloseLookup { shortcut }),
        pending !is Observer,
        reply == Reply::Flag(false),
{
}

/// The close shortcut is removed only in answer to a lookup that found it in
/// the registry.
pub proof fn lemma_close_shortcut_removed_only_when_present(
    pending: PendingView,
    reply: Reply,
    shortcut: Seq<char>,
)
    requires
        pending.resume(reply) matches StepView::Call(request, _) && request == (
        RequestView::UnregisterShortcut { shortcut }),
    ensures
        pending matches PendingView::RemoveLookup { shortcut: asked, .. } && asked == shortcut,
        reply == Reply::Flag(true),
{
}

/// Showing a window. A visible window is left as it is. A hidden window that
/// can take focus becomes visible, gets input focus and comes to the front.
/// A hidden window that cannot take focus is hidden again and the show
/// fails. Showing a window that does not exist fails at the visibility check
/// and changes nothing.
pub proof fn lemma_show(desktop: Desktop, label: Seq<char>)
    ensures
        run(spec_show_window(label), desktop) == if !desktop.windows.contains(label) {
            Outcome::err(ErrorView::FailedToCheckWindowVisibility, desktop)
        } else if desktop.visible.contains(label) {
            Outcome::ok(desktop)
        } else if desktop.unfocusable.contains(label) {
            Outcome::err(ErrorView::FailedToShowWindow, desktop.hidden(label))
        } else {
            Outcome::ok(desktop.shown(label))
        },
{
    reveal_with_fuel(run, 5);
}

/// A show that fails leaves the window as visible or hidden as it was, and
/// does not bring it to the front.
pub proof fn lemma_failed_show_keeps_visibility(desktop: Desktop, label: Seq<char>)
    requires
        run(spec_show_window(label), desktop).result is Err,
    ensures
        run(spec_show_window(label), desktop).desktop.visible == desktop.visible,
        run(spec_show_window(label), desktop).desktop.front == desktop.front,
{
    lemma_show(desktop, label);
    if desktop.windows.contains(label) && !desktop.visible.contains(label) {
        assert(desktop.visible.remove(label) =~= desktop.visible);
    }
}

/// A hide that fails leaves the window as visible or hidden as it was.
pub proof fn lemma_failed_hide_keeps_visibility(desktop: Desktop, label: Seq<char>)
    requires
        run(spec_hide_window(label), desktop).result is Err,
    ensures
        run(spec_hide_window(label), desktop).desktop == desktop,
{
    lemma_hide(desktop, label);
}

/// Hiding a window that exists succeeds. A visible window becomes hidden; a
/// hidden one is left as it is. Hiding a window that does not exist fails at
/// the visibility check and changes nothing.
pub proof fn lemma_hide(desktop: Desktop, label: Seq<char>)
    ensures
        run(spec_hide_window(label), desktop) == if !desktop.windows.contains(label) {
            Outcome::err(ErrorView::FailedToCheckWindowVisibility, desktop)
        } else if desktop.visible.contains(label) {
            Outcome::ok(desktop.hidden(label))
        } else {
            Outcome::ok(desktop)
        },
{
    reveal_with_fuel(run, 3);
}

/// Toggling a window that exists hides it when it is visible and shows it
/// when it is hidden; a hidden window that cannot take focus stays hidden,
/// and the toggle fails.
pub proof fn lemma_toggle(desktop: Desktop, label: Seq<char>)
    requires
        desktop.windows.contains(label),
    ensures
        run(spec_toggle_window(label), desktop) == if desktop.visible.contains(label) {
            Outcome::ok(desktop.hidden(label))
        } else if desktop.unfocusable.contains(label) {
            Outcome::err(ErrorView::FailedToShowWindow, desktop.hidden(label))
        } else {
            Outcome::ok(desktop.shown(label))
        },
{
    reveal_with_fuel(run, 2);
    lemma_show(desktop, label);
    lemma_hide(desktop, label);
}

/// Firing the shortcut of a hidden window leaves the window visible and
/// focused; firing it again leaves the window hidden.
///
/// Left out is a window that cannot take focus: it stays hidden.
pub proof fn lemma_toggle_round_trip(
    desktop: Desktop,
    shortcut: Seq<char>,
    label: Seq<char>,
    registered: Seq<Seq<char>>,
)
    requires
        desktop.shortcuts.dom().contains(shortcut),
        desktop.shortcuts[shortcut] == Binding::Toggle(label),
        desktop.windows.contains(label),
        !desktop.unfocusable.contains(label),
        !desktop.visible.contains(label),
    ensures
        ({
            let once = desktop.fire(shortcut, registered);
            let twice = once.desktop.fire(shortcut, registered);
            &&& once.result is Ok
            &&& once.desktop.visible.contains(label)
            &&& once.desktop.focused == Some(label)
            &&& twice.result is Ok
            &&& !twice.desktop.visible.contains(label)
            &&& twice.desktop.visible == desktop.visible
        }),
{
    lemma_toggle(desktop, label);
    let once = desktop.fire(shortcut, registered);
    lemma_toggle(once.desktop, label);
    let twice = once.desktop.fire(shortcut, registered);
    assert(twice.desktop.visible =~= desktop.visible);
}

/// The state once the close shortcut has been registered: it is bound to
/// hide all windows unless the registry had the combination already.
pub open spec fn with_close_shortcut(
    desktop: Desktop,
    close_shortcut: Option<Seq<char>>,
) -> Desktop {
    match close_shortcut {
        Some(shortcut) => if desktop.shortcuts.dom().contains(shortcut) {
            desktop
        } else {
            Desktop { shortcuts: desktop.shortcuts.insert(shortcut, Binding::CloseAll), ..desktop }
        },
        None => desktop,
    }
}

/// The state once the close shortcut has been removed.
pub open spec fn without_close_shortcut(
    desktop: Desktop,
    close_shortcut: Option<Seq<char>>,
) -> Desktop {
    match close_shortcut {
        Some(shortcut) => Desktop { shortcuts: desktop.shortcuts.remove(shortcut), ..desktop },
        None => desktop,
    }
}

/// Handling a gain of focus succeeds and leaves the close shortcut bound. A
/// combination that the registry has already is not bound again.
pub proof fn lemma_focus_gained(
    desktop: Desktop,
    label: Seq<char>,
    auto_hide: bool,
    close_shortcut: Option<Seq<char>>,
)
    ensures
        run(spec_handle_focus_state_change(label, auto_hide, close_shortcut, true), desktop)
            == Outcome::ok(with_close_shortcut(desktop, close_shortcut)),
{
    reveal_with_fuel(run, 3);
}

/// Handling a loss of focus of a window that exists succeeds. The close
/// shortcut is removed. Then a window that hides on focus loss is hidden;
/// any other stays as visible as it was and is sent the event that says that
/// it lost focus.
pub proof fn lemma_focus_lost(
    desktop: Desktop,
    label: Seq<char>,
    auto_hide: bool,
    close_shortcut: Option<Seq<char>>,
)
    requires
        desktop.windows.contains(label),
    ensures
        run(spec_handle_focus_state_change(label, auto_hide, close_shortcut, false), desktop)
            == Outcome::ok(
            if auto_hide {
                without_close_shortcut(desktop, close_shortcut).hidden(label)
            } else {
                without_close_shortcut(desktop, close_shortcut).notified(label)
            },
        ),
{
    reveal_with_fuel(run, 4);
    if let Some(shortcut) = close_shortcut {
        if !desktop.shortcuts.dom().contains(shortcut) {
            assert(desktop.shortcuts.remove(shortcut) =~= desktop.shortcuts);
        }
    }
}

/// When an observed window loses focus, it is hidden if it hides on focus
/// loss; if it does not, it stays as visible as it was and receives the event
/// that says that it lost focus, and nothing else.
pub proof fn lemma_focus_loss_hides_or_notifies(desktop: Desktop, label: Seq<char>)
    requires
        desktop.windows.contains(label),
        desktop.observers.dom().contains(label),
    ensures
        ({
            let after = desktop.change_focus(label, false);
            let auto_hide = desktop.observers[label].auto_hide;
            &&& after.result is Ok
            &&& auto_hide ==> !after.desktop.visible.contains(label) && after.desktop.notices
                == desktop.notices
            &&& !auto_hide ==> after.desktop.visible == desktop.visible && after.desktop.notices
                == desktop.notices.push(
                Notice { label, event: resign_event(), payload: true },
            )
        }),
{
    let observer = desktop.observers[label];
    lemma_focus_lost(
        desktop.with_focus(label, false),
        label,
        observer.auto_hide,
        observer.close_shortcut,
    );
}

/// An event that is no change of focus asks nothing of the host and leaves
/// it as it is: the close shortcut is neither bound nor removed, and no
/// window is hidden.
pub proof fn lemma_other_events_change_nothing(desktop: Desktop, label: Seq<char>)
    ensures
        desktop.deliver(label, WindowEvent::Other) == Outcome::ok(desktop),
{
    reveal_with_fuel(run, 1);
}

/// Whether the window that holds input focus is one of the declared windows.
pub open spec fn managed_window_focused(desktop: Desktop, config: PluginConfigView) -> bool {
    desktop.focused matches Some(label) && config.manages(label)
}

/// After a change of focus of a declared and observed window has been
/// handled, the close shortcut is bound exactly when a declared window holds
/// input focus.
///
/// A loss of focus is left out when another declared window already holds
/// focus at the time it is handled: the close shortcut is then removed
/// although a declared window is focused.
pub proof fn lemma_close_shortcut_tracks_focus(
    desktop: Desktop,
    config: PluginConfigView,
    close_shortcut: Seq<char>,
    label: Seq<char>,
    has_focus: bool,
)
    requires
        config.global_close_shortcut == Some(close_shortcut),
        config.manages(label),
        desktop.windows.contains(label),
        desktop.observers.dom().contains(label),
        desktop.observers[label].close_shortcut == config.global_close_shortcut,
        !has_focus ==> (desktop.focused matches Some(other) ==> other == label || !config.manages(
            other,
        )),
    ensures
        ({
            let after = desktop.change_focus(label, has_focus);
            &&& after.result is Ok
            &&& after.desktop.shortcuts.dom().contains(close_shortcut) <==> managed_window_focused(
                after.desktop,
                config,
            )
        }),
{
    let observer = desktop.observers[label];
    let moved = desktop.with_focus(label, has_focus);
    if has_focus {
        lemma_focus_gained(moved, label, observer.auto_hide, observer.close_shortcut);
    } else {
        lemma_focus_lost(moved, label, observer.auto_hide, observer.close_shortcut);
    }
}

/// The labels of `labels` from position `index` on.
pub open spec fn labels_from(labels: Seq<Seq<char>>, index: nat) -> Set<Seq<char>> {
    Set::new(|label: Seq<char>| exists|j: int| index <= j < labels.len() && labels[j] == label)
}

/// The state once every window of `labels` that exists has been hidden.
pub open spec fn swept(desktop: Desktop, labels: Set<Seq<char>>) -> Desktop {
    Desktop {
        visible: desktop.visible.difference(labels.intersect(desktop.windows)),
        focused: if desktop.focused matches Some(label) && labels.contains(label)
            && desktop.windows.contains(label) {
            None
        } else {
            desktop.focused
        },
        ..desktop
    }
}

/// Closing all from position `index` on succeeds and hides every window
/// from there on that exists.
pub proof fn lemma_sweep(labels: Seq<Seq<char>>, index: nat, desktop: Desktop)
    ensures
        run(spec_sweep(labels, index), desktop) == Outcome::ok(
            swept(desktop, labels_from(labels, index)),
        ),
    decreases labels.len() - index,
{
    reveal_with_fuel(run, 3);
    let rest = labels_from(labels, index);
    if index < labels.len() {
        let label = labels[index as int];
        let later = labels_from(labels, index + 1);
        assert(rest =~= later.insert(label)) by {
            assert forall|l: Seq<char>| rest.contains(l) implies later.insert(label).contains(
                l,
            ) by {
                let j = choose|j: int| index <= j < labels.len() && labels[j] == l;
                if j != index {
                    assert(index + 1 <= j < labels.len() && labels[j] == l);
                }
            }
            assert forall|l: Seq<char>| later.insert(label).contains(l) implies rest.contains(
                l,
            ) by {
                if l == label {
                    assert(index <= index < labels.len() && labels[index as int] == l);
                } else {
                    let j = choose|j: int| index + 1 <= j < labels.len() && labels[j] == l;
                    assert(index <= j < labels.len() && labels[j] == l);
                }
            }
        }
        if desktop.windows.contains(label) {
            let next = desktop.hidden(label);
            lemma_sweep(labels, index + 1, next);
            assert(swept(next, later) =~= swept(desktop, rest));
        } else {
            lemma_sweep(labels, index + 1, desktop);
            assert(swept(desktop, later) =~= swept(desktop, rest));
        }
    } else {
        assert(rest =~= Set::<Seq<char>>::empty());
        assert(swept(desktop, rest) =~= desktop);
    }
}

/// Closing all succeeds and hides every listed window that exists. It
/// leaves the visibility of every other window as it was.
pub proof fn lemma_close_all(labels: Seq<Seq<char>>, desktop: Desktop)
    ensures
        run(spec_close_all(labels), desktop) == Outcome::ok(swept(desktop, labels.to_set())),
{
    lemma_sweep(labels, 0, desktop);
    assert(labels_from(labels, 0) =~= labels.to_set());
}

/// Firing the close shortcut hides every registered window, whichever window
/// holds focus, and succeeds also where such a window is hidden already or
/// is gone.
pub proof fn lemma_close_shortcut_hides_all(
    desktop: Desktop,
    shortcut: Seq<char>,
    registered: Seq<Seq<char>>,
)
    requires
        desktop.wf(),
        desktop.shortcuts.dom().contains(shortcut),
        desktop.shortcuts[shortcut] == Binding::CloseAll,
    ensures
        ({
            let after = desktop.fire(shortcut, registered);
            &&& after.result is Ok
            &&& forall|label: Seq<char>| #[trigger]
                registered.contains(label) ==> !after.desktop.visible.contains(label)
            &&& forall|label: Seq<char>|
                !registered.contains(label) ==> (#[trigger] after.desktop.visible.contains(label)
                    <==> desktop.visible.contains(label))
        }),
{
    lemma_close_all(registered, desktop);
}

/// The state in which a successful set-up leaves the host: the window's own
/// shortcut is bound if it has one, the close shortcut is registered, and the
/// window's focus is observed.
pub open spec fn set_up(
    desktop: Desktop,
    label: Seq<char>,
    settings: WindowConfigView,
    close_shortcut: Option<Seq<char>>,
) -> Desktop {
    let own = match settings.shortcut {
        Some(shortcut) => Desktop {
            shortcuts: desktop.shortcuts.insert(shortcut, Binding::Toggle(label)),
            ..desktop
        },
        None => desktop,
    };
    let closed = with_close_shortcut(own, close_shortcut);
    Desktop {
        observers: closed.observers.insert(
            label,
            Observer { auto_hide: settings.hides_on_focus_loss(), close_shortcut },
        ),
        ..closed
    }
}

/// Whether the host can bind the window's own shortcut: the window has none,
/// or the registry does not have the combination yet.
pub open spec fn can_bind(desktop: Desktop, settings: WindowConfigView) -> bool {
    settings.shortcut matches Some(shortcut) ==> !desktop.shortcuts.dom().contains(shortcut)
}

/// Setting up a window that exists. An undeclared window and a registered
/// one ask nothing of the host. Otherwise the set-up succeeds exactly when
/// the host can bind the window's own shortcut: then the host is set up and
/// the window is recorded last; else nothing has changed.
pub proof fn lemma_init(manager: ManagerView, label: Seq<char>, desktop: Desktop)
    requires
        desktop.windows.contains(label),
    ensures
        run_init(manager, manager.init(label), desktop) == (
        match manager.config.window_for(label) {
            None => InitOutcome::ok(desktop, manager.registered),
            Some(settings) => if manager.registered.contains(label) {
                InitOutcome::ok(desktop, manager.registered)
            } else if can_bind(desktop, settings) {
                InitOutcome::ok(
                    set_up(desktop, label, settings, manager.config.global_close_shortcut),
                    manager.registered.push(label),
                )
            } else {
                InitOutcome::err(
                    ErrorView::Other(register_message()),
                    desktop,
                    manager.registered,
                )
            },
        }),
{
    reveal_with_fuel(run_init, 5);
    lemma_window_for(manager.config, label);
}

/// Setting up a declared window records it exactly when the set-up succeeds,
/// in whatever state the host is.
pub proof fn lemma_init_records(manager: ManagerView, label: Seq<char>, desktop: Desktop)
    requires
        manager.config.manages(label),
    ensures
        ({
            let after = run_init(manager, manager.init(label), desktop);
            after.registered == if after.result is Ok {
                recorded(manager.registered, label)
            } else {
                manager.registered
            }
        }),
{
    reveal_with_fuel(run_init, 5);
    lemma_window_for(manager.config, label);
}

/// Setting up a window that was not declared succeeds, asks nothing of the
/// host and records nothing.
pub proof fn lemma_init_ignores_undeclared(
    manager: ManagerView,
    label: Seq<char>,
    desktop: Desktop,
)
    requires
        !manager.config.manages(label),
    ensures
        manager.init(label) == StepView::<InitPendingView>::Finished(Ok(())),
        run_init(manager, manager.init(label), desktop) == InitOutcome::ok(
            desktop,
            manager.registered,
        ),
{
    reveal_with_fuel(run_init, 1);
    lemma_window_for(manager.config, label);
}

/// Setting up a declared window twice leaves exactly one entry for it among
/// the registered windows, and once the first set-up has succeeded the second
/// asks nothing of the host.
///
/// Left out are the hosts on which both set-ups fail: then the window is not
/// registered at all.
pub proof fn lemma_init_twice(
    manager: ManagerView,
    label: Seq<char>,
    first_desktop: Desktop,
    second_desktop: Desktop,
)
    requires
        manager.registered.no_duplicates(),
        manager.config.manages(label),
        ({
            let first = run_init(manager, manager.init(label), first_desktop);
            let again = ManagerView { registered: first.registered, ..manager };
            let second = run_init(again, again.init(label), second_desktop);
            first.result is Ok || second.result is Ok
        }),
    ensures
        ({
            let first = run_init(manager, manager.init(label), first_desktop);
            let again = ManagerView { registered: first.registered, ..manager };
            let second = run_init(again, again.init(label), second_desktop);
            &&& second.registered.no_duplicates()
            &&& second.registered.to_multiset().count(label) == 1
            &&& first.result is Ok ==> second == InitOutcome::ok(second_desktop, first.registered)
        }),
{
    let first = run_init(manager, manager.init(label), first_desktop);
    let again = ManagerView { registered: first.registered, ..manager };
    let second = run_init(again, again.init(label), second_desktop);
    lemma_init_records(manager, label, first_desktop);
    lemma_init_records(again, label, second_desktop);
    lemma_window_for(manager.config, label);
    if first.result is Ok {
        assert(first.registered.contains(label)) by {
            if !manager.registered.contains(label) {
                assert(manager.registered.push(label)[manager.registered.len() as int] == label);
            }
        }
        reveal_with_fuel(run_init, 1);
    } else {
        assert(second.registered.contains(label)) by {
            if !first.registered.contains(label) {
                assert(first.registered.push(label)[first.registered.len() as int] == label);
            }
        }
    }
    assert(second.registered.no_duplicates());
    assert(second.registered.contains(label));
    second.registered.to_multiset_ensures();
    second.registered.lemma_multiset_has_no_duplicates();
}

/// The life of a window that hides on focus loss, on a host on which its
/// shortcuts can be bound: it is set up and shown; when it loses focus it is
/// hidden and the close shortcut is removed; when it gains focus again the
/// close shortcut is back; and firing the close shortcut then succeeds and
/// leaves the window hidden.
pub proof fn lemma_set_up_show_and_dismiss(
    manager: ManagerView,
    label: Seq<char>,
    settings: WindowConfigView,
    close_shortcut: Seq<char>,
    desktop: Desktop,
)
    requires
        manager.config.window_for(label) == Some(settings),
        manager.config.global_close_shortcut == Some(close_shortcut),
        settings.hides_on_focus_loss(),
        settings.shortcut != Some(close_shortcut),
        !manager.registered.contains(label),
        desktop.windows.contains(label),
        !desktop.unfocusable.contains(label),
        can_bind(desktop, settings),
        !desktop.shortcuts.dom().contains(close_shortcut),
    ensures
        ({
            let ready = run_init(manager, manager.init(label), desktop);
            let summoned = run(spec_show_window(label), ready.desktop);
            let left = summoned.desktop.change_focus(label, false);
            let back = left.desktop.change_focus(label, true);
            let dismissed = back.desktop.fire(close_shortcut, ready.registered);
            &&& ready.result is Ok
            &&& ready.registered == manager.registered.push(label)
            &&& summoned.result is Ok
            &&& summoned.desktop.visible.contains(label)
            &&& left.result is Ok
            &&& !left.desktop.visible.contains(label)
            &&& !left.desktop.shortcuts.dom().contains(close_shortcut)
            &&& back.result is Ok
            &&& back.desktop.shortcuts.dom().contains(close_shortcut)
            &&& dismissed.result is Ok
            &&& !dismissed.desktop.visible.contains(label)
        }),
{
    lemma_init(manager, label, desktop);
    let ready = run_init(manager, manager.init(label), desktop);
    lemma_show(ready.desktop, label);
    let summoned = run(spec_show_window(label), ready.desktop);
    let observer = summoned.desktop.observers[label];
    lemma_focus_lost(
        summoned.desktop.with_focus(label, false),
        label,
        observer.auto_hide,
        observer.close_shortcut,
    );
    let left = summoned.desktop.change_focus(label, false);
    lemma_focus_gained(
        left.desktop.with_focus(label, true),
        label,
        observer.auto_hide,
        observer.close_shortcut,
    );
    let back = left.desktop.change_focus(label, true);
    assert(back.desktop.shortcuts[close_shortcut] == Binding::CloseAll);
    lemma_close_all(ready.registered, back.desktop);
    assert(ready.registered.to_set().contains(label)) by {
        assert(ready.registered[manager.registered.len() as int] == label);
    }
}

} // verus!

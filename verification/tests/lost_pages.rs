use dioxus_shell::app::{App, LaunchConfig, RendererState, StartWindow, WindowCloseBehaviour};
use dioxus_shell::effect::{Effect, WindowAction, WindowId};
use dioxus_shell::platform::{Os, Target};
use dioxus_shell::reload::{
    PendingReload, PAGE_RELOAD_ATTEMPTS, PAGE_RELOAD_PATIENCE, PAGE_RELOAD_PATIENCE_LATER,
};
use std::time::Duration;

#[test]
fn the_quick_attempts_are_quick_and_the_rest_are_slow_and_never_stop() {
    for attempt in 1..=PAGE_RELOAD_ATTEMPTS {
        assert_eq!(App::page_reload_patience(attempt), PAGE_RELOAD_PATIENCE);
    }
    for attempt in [PAGE_RELOAD_ATTEMPTS + 1, 20, 1_000, u32::MAX] {
        assert_eq!(
            App::page_reload_patience(attempt),
            PAGE_RELOAD_PATIENCE_LATER
        );
    }
    assert!(PAGE_RELOAD_PATIENCE < PAGE_RELOAD_PATIENCE_LATER);
    assert!(Duration::from_secs(PAGE_RELOAD_PATIENCE) >= Duration::from_secs(5));
}

fn app(open: &[WindowId]) -> App {
    let mut app = App::new(
        LaunchConfig {
            exit_on_last_window_close: true,
            disable_dma_buf_on_wayland: false,
            tray_icon_show_window_on_click: false,
            window: StartWindow {
                visible: true,
                explicit_inner_size: false,
                explicit_position: false,
            },
        },
        Target {
            os: Os::Ios,
            debug_assertions: false,
        },
    );
    app.handle_new_window(&open.to_vec());
    app
}

fn on(id: WindowId, action: WindowAction) -> Effect {
    Effect::Window { id, action }
}

fn clock(id: WindowId, loss: u64, attempt: u32) -> Effect {
    Effect::StartReloadClock {
        id,
        loss,
        attempt,
        patience: if attempt <= 6 { 8 } else { 30 },
    }
}

fn loading(id: WindowId, loss: u64, attempt: u32) -> Vec<Effect> {
    vec![
        on(id, WindowAction::SetPageAwaited { awaited: true }),
        on(id, WindowAction::SetPageLoaded { loaded: false }),
        on(id, WindowAction::ForgetConnection),
        on(id, WindowAction::LoadPage),
        clock(id, loss, attempt),
    ]
}

#[test]
fn a_lost_page_is_loaded_again() {
    let mut app = app(&[5]);
    assert_eq!(app.reload_lost_page(5), loading(5, 1, 1));
    assert_eq!(app.webviews[&5], RendererState::Replaced);
    assert_eq!(
        app.pending_reloads[&5],
        PendingReload {
            loss: 1,
            attempt: 1,
            begun_waits: 0
        }
    );
}

#[test]
fn a_lost_page_is_loaded_from_the_address_of_the_page() {
    let mut app = app(&[5]);
    let mut urls = Vec::new();
    for effect in app.reload_lost_page(5) {
        if let Effect::Window { id, action } = effect {
            assert_eq!(action.url().is_some(), action == WindowAction::LoadPage);
            urls.extend(action.url().map(|url| (id, url)));
        }
    }
    assert_eq!(urls, [(5, "dioxus://index.html/")]);
    assert_eq!(WindowAction::SetFocus.url(), None);
    assert_eq!(WindowAction::Discard.url(), None);
}

#[test]
fn a_lost_page_is_awaited_through_everything_but_its_return() {
    let mut app = app(&[5, 6]);
    assert!(!app.pending_reloads.contains_key(&5));
    app.reload_lost_page(5);
    app.reload_lost_page(6);
    app.page_reload_due(5, 1, 1, false);
    app.page_reload_due(5, 1, 2, true);
    app.page_reload_due(5, 1, 1, false);
    app.handle_initialize_msg(6);
    app.window_destroyed(6);
    app.handle_new_window(&vec![7]);
    app.reload_lost_page(5);
    app.tick();
    assert!(app.pending_reloads.contains_key(&5));
    assert!(!app.pending_reloads.contains_key(&6));
    assert!(!app.pending_reloads.contains_key(&7));
    app.handle_close_requested(5, WindowCloseBehaviour::WindowCloses);
    assert!(app.pending_reloads.contains_key(&5));
    app.window_destroyed(5);
    assert!(!app.pending_reloads.contains_key(&5));
}

#[test]
fn a_page_lost_in_no_open_window_is_counted_and_left_alone() {
    let mut app = app(&[5]);
    assert!(app.reload_lost_page(6).is_empty());
    assert_eq!(app.losses, 1);
    assert!(app.pending_reloads.is_empty());
    assert_eq!(app.reload_lost_page(5), loading(5, 2, 1));
}

#[test]
fn a_page_that_does_not_report_in_is_asked_for_again_without_end() {
    let mut app = app(&[5]);
    app.reload_lost_page(5);
    for attempt in 1..50 {
        assert_eq!(
            app.page_reload_due(5, 1, attempt, false),
            loading(5, 1, attempt + 1)
        );
    }
    assert_eq!(app.pending_reloads[&5].attempt, 50);
}

#[test]
fn the_last_number_for_an_attempt_is_not_the_last_attempt() {
    let mut app = app(&[5]);
    app.reload_lost_page(5);
    let last = PendingReload {
        loss: 1,
        attempt: u32::MAX,
        begun_waits: 0,
    };
    app.pending_reloads.insert(5, last);
    for _ in 0..3 {
        assert_eq!(
            app.page_reload_due(5, 1, u32::MAX, false),
            loading(5, 1, u32::MAX)
        );
        assert_eq!(app.pending_reloads[&5], last);
    }
}

#[test]
fn a_page_that_is_back_is_not_made_navigable_by_a_late_clock() {
    let mut app = app(&[5, 6]);
    app.reload_lost_page(5);
    app.handle_initialize_msg(5);
    let allow = on(5, WindowAction::SetPageAwaited { awaited: true });
    assert!(!app.page_reload_due(5, 1, 1, false).contains(&allow));
    assert!(!app.reload_lost_page(6).contains(&allow));
    assert!(app.reload_lost_page(5).contains(&allow));
}

#[test]
fn a_load_that_has_begun_is_waited_on_once() {
    let mut app = app(&[5]);
    app.reload_lost_page(5);
    assert_eq!(app.page_reload_due(5, 1, 1, true), [clock(5, 1, 1)]);
    assert_eq!(app.pending_reloads[&5].begun_waits, 1);
    assert_eq!(app.page_reload_due(5, 1, 1, true), loading(5, 1, 2));
    assert_eq!(app.pending_reloads[&5].begun_waits, 0);
    assert_eq!(app.page_reload_due(5, 1, 2, true), [clock(5, 1, 2)]);
}

#[test]
fn a_clock_that_is_out_of_date_changes_nothing() {
    let mut app = app(&[5, 6]);
    assert!(app.page_reload_due(5, 1, 1, false).is_empty());
    app.reload_lost_page(5);
    app.page_reload_due(5, 1, 1, false);
    let pending = app.pending_reloads[&5];
    assert!(app.page_reload_due(5, 1, 1, true).is_empty());
    assert!(app.page_reload_due(5, 1, 3, true).is_empty());
    assert!(app.page_reload_due(5, 2, 2, true).is_empty());
    assert!(app.page_reload_due(6, 1, 2, true).is_empty());
    assert_eq!(app.pending_reloads[&5], pending);
}

#[test]
fn a_page_lost_afresh_is_a_new_loss() {
    let mut app = app(&[5]);
    app.reload_lost_page(5);
    app.page_reload_due(5, 1, 1, false);
    assert_eq!(app.reload_lost_page(5), loading(5, 2, 1));
    assert!(app.page_reload_due(5, 1, 2, false).is_empty());
    assert!(app.page_reload_due(5, 1, 1, false).is_empty());
    assert_eq!(app.page_reload_due(5, 2, 1, false), loading(5, 2, 2));
}

#[test]
fn a_page_that_reports_in_is_built_and_left_alone() {
    let mut app = app(&[5]);
    app.reload_lost_page(5);
    assert_eq!(
        app.handle_initialize_msg(5),
        [
            on(5, WindowAction::SetPageAwaited { awaited: false }),
            on(5, WindowAction::SetPageLoaded { loaded: true }),
            on(5, WindowAction::PageArrived),
            on(5, WindowAction::RebuildIntoNewPage),
            on(5, WindowAction::SendEdits),
            on(5, WindowAction::ReplayHeadElements),
            on(5, WindowAction::SetVisible { visible: true }),
            Effect::RequestPoll { id: 5 },
        ]
    );
    assert!(app.pending_reloads.is_empty());
    assert_eq!(app.webviews[&5], RendererState::Current);
    assert!(app.page_reload_due(5, 1, 1, false).is_empty());
}

#[test]
fn on_linux_a_page_that_reports_in_does_not_show_its_window() {
    let mut app = app(&[5]);
    app.target.os = Os::Linux;
    let effects = app.handle_initialize_msg(5);
    assert_eq!(effects.len(), 7);
    assert!(!effects.contains(&on(5, WindowAction::SetVisible { visible: true })));
}

#[test]
fn a_window_that_is_gone_is_not_waited_on() {
    let mut app = app(&[5, 6]);
    app.reload_lost_page(5);
    app.window_destroyed(5);
    assert!(app.pending_reloads.is_empty());
    assert!(app.page_reload_due(5, 1, 1, false).is_empty());
}

#[test]
fn a_window_that_was_closed_is_not_loaded_again() {
    let mut app = app(&[5, 6]);
    app.reload_lost_page(5);
    app.handle_close_requested(5, WindowCloseBehaviour::WindowCloses);
    assert!(app.page_reload_due(5, 1, 1, true).is_empty());
    assert_eq!(app.pending_reloads[&5].attempt, 1);
}

#[test]
fn one_windows_loss_leaves_the_others_alone() {
    let mut app = app(&[5, 6]);
    app.reload_lost_page(5);
    app.reload_lost_page(6);
    app.page_reload_due(5, 1, 1, false);
    assert_eq!(app.pending_reloads[&6].attempt, 1);
    assert_eq!(app.pending_reloads[&6].loss, 2);
    app.handle_initialize_msg(6);
    assert_eq!(app.pending_reloads[&5].attempt, 2);
}

/// While pages are lost, waited on and found again, each page that is waited on in an open window
/// has one clock.
#[test]
fn every_awaited_page_has_one_clock_running() {
    let mut app = app(&[1, 2, 3]);
    let mut clocks: Vec<(WindowId, u64, u32)> = Vec::new();
    let mut navigable: Vec<WindowId> = Vec::new();
    let mut lost = [false; 4];
    let mut seed: u64 = 12345;
    for _ in 0..2000 {
        seed = seed.wrapping_mul(6364136223846793005).wrapping_add(1442695040888963407);
        let choice = (seed >> 33) % 8;
        let id = 1 + (seed >> 40) % 3;
        let effects = match choice {
            0 => {
                lost[id as usize] = true;
                app.reload_lost_page(id)
            }
            1 => {
                lost[id as usize] = false;
                app.handle_initialize_msg(id)
            }
            _ if clocks.is_empty() => Vec::new(),
            _ => {
                let due = clocks.remove((seed >> 45) as usize % clocks.len());
                app.page_reload_due(due.0, due.1, due.2, seed & (1 << 50) != 0)
            }
        };
        for effect in effects {
            match effect {
                Effect::StartReloadClock {
                    id, loss, attempt, ..
                } => clocks.push((id, loss, attempt)),
                Effect::Window {
                    id,
                    action: WindowAction::SetPageAwaited { awaited },
                } => {
                    navigable.retain(|other| *other != id);
                    if awaited {
                        navigable.push(id);
                    }
                }
                _ => {}
            }
        }
        for id in 1..=3 {
            assert_eq!(app.pending_reloads.contains_key(&id), lost[id as usize]);
            assert_eq!(
                app.pending_reloads.contains_key(&id),
                app.webviews[&id] == RendererState::Replaced
            );
            if let Some(pending) = app.pending_reloads.get(&id) {
                let running = clocks
                    .iter()
                    .filter(|clock| **clock == (id, pending.loss, pending.attempt))
                    .count();
                assert_eq!(running, 1);
                assert!(navigable.contains(&id));
            }
        }
    }
}

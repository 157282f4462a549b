use dioxus_shell::app::{
    App, DmaBufSetup, LaunchConfig, MouseButton, RendererState, StartWindow, TrayIconEvent,
    WindowCloseBehaviour,
};
use dioxus_shell::effect::{ControlFlow, Effect, Toast, WindowAction, WindowId};
use dioxus_shell::hot_reload::{DevserverMsg, HotReloadMsg};
use dioxus_shell::platform::{EnvVar, Os, Target};
use dioxus_shell::text::decimal;
use dioxus_shell::toast::ToastContent;
use dioxus_shell::window_state::{
    persist_window_state, resume_from_state, resumes_from_state, Monitor, Placement,
    PreservedWindowState, Unit, WindowGeometry,
};
use serde_json::Value;

fn app(os: Os, debug_assertions: bool) -> App {
    App::new(
        LaunchConfig {
            exit_on_last_window_close: true,
            disable_dma_buf_on_wayland: true,
            tray_icon_show_window_on_click: true,
            window: StartWindow {
                visible: true,
                explicit_inner_size: false,
                explicit_position: true,
            },
        },
        Target {
            os,
            debug_assertions,
        },
    )
}

fn on(id: WindowId, action: WindowAction) -> Effect {
    Effect::Window { id, action }
}

/// The windows that effects are for, in ascending order, where every effect is this action.
fn all(effects: &[Effect], wanted: WindowAction) -> Vec<WindowId> {
    let mut ids = Vec::new();
    for effect in effects {
        match effect {
            Effect::Window { id, action } if *action == wanted => ids.push(*id),
            other => panic!("{other:?}"),
        }
    }
    ids.sort();
    ids
}

#[test]
fn an_application_starts_with_nothing_open() {
    let app = app(Os::Linux, true);
    assert_eq!(app.control_flow, ControlFlow::Wait);
    assert!(app.webviews.is_empty());
    assert!(app.pending_reloads.is_empty());
    assert_eq!(app.losses, 0);
    assert!(app.is_visible_before_start);
    assert!(!app.float_all);
    assert!(!app.show_devtools);
    assert!(app.unmounted.is_some());
    assert!(app.handle_loop_destroyed().is_empty());
}

#[test]
fn the_first_window_is_kept_hidden_except_on_linux() {
    for (os, shown) in [(Os::Linux, true), (Os::MacOs, false), (Os::Windows, false)] {
        let mut app = app(os, false);
        assert_eq!(
            app.handle_start_cause_init(),
            StartWindow {
                visible: shown,
                explicit_inner_size: false,
                explicit_position: true,
            }
        );
        assert!(app.is_visible_before_start);
        assert!(app.unmounted.is_none());
        app.first_window_made(7);
        assert_eq!(app.webviews.get(&7), Some(&RendererState::Current));
    }
}

#[test]
fn every_round_of_events_begins_by_waiting() {
    let mut app = app(Os::Linux, true);
    app.handle_hot_reload_msg(&DevserverMsg::Shutdown, 0);
    assert_eq!(app.control_flow, ControlFlow::Exit);
    assert_eq!(app.tick(), [Effect::ApplyEventHandlers]);
    assert_eq!(app.control_flow, ControlFlow::Wait);
}

#[test]
fn new_windows_are_polled_in_the_order_they_were_made() {
    let mut app = app(Os::Linux, true);
    assert_eq!(
        app.handle_new_window(&vec![3, 1, 2]),
        [
            Effect::RequestPoll { id: 3 },
            Effect::RequestPoll { id: 1 },
            Effect::RequestPoll { id: 2 }
        ]
    );
    let mut open: Vec<WindowId> = app.webviews.keys().copied().collect();
    open.sort();
    assert_eq!(open, [1, 2, 3]);
    assert!(app.handle_new_window(&vec![]).is_empty());
}

#[test]
fn the_menu_floats_every_window_and_shows_every_developer_tool() {
    let mut app = app(Os::Linux, true);
    app.handle_new_window(&vec![1, 2]);

    let first = app.handle_menu_event("dioxus-float-top");
    assert_eq!(
        all(&first, WindowAction::SetAlwaysOnTop { on_top: false }),
        [1, 2]
    );
    assert!(app.float_all);
    let second = app.handle_menu_event("dioxus-float-top");
    assert_eq!(
        all(&second, WindowAction::SetAlwaysOnTop { on_top: true }),
        [1, 2]
    );
    assert!(!app.float_all);

    let shown = app.handle_menu_event("dioxus-toggle-dev-tools");
    assert_eq!(all(&shown, WindowAction::OpenDevtools), [1, 2]);
    assert!(app.show_devtools);
    let hidden = app.handle_menu_event("dioxus-toggle-dev-tools");
    assert_eq!(all(&hidden, WindowAction::CloseDevtools), [1, 2]);
    assert!(!app.show_devtools);

    assert!(app.handle_menu_event("dioxus-float-to").is_empty());
    assert!(app.handle_menu_event("").is_empty());
}

#[test]
fn a_click_on_the_tray_icon_brings_every_window_to_the_front() {
    let mut app = app(Os::Linux, true);
    app.handle_new_window(&vec![4, 5]);
    let click = TrayIconEvent::Click {
        button: MouseButton::Left,
    };
    let effects = app.handle_tray_icon_event(click);
    let first = match effects[0] {
        Effect::Window { id, .. } => id,
        other => panic!("{other:?}"),
    };
    let second = if first == 4 { 5 } else { 4 };
    let show = WindowAction::SetVisible { visible: true };
    assert_eq!(
        effects,
        [
            on(first, show),
            on(first, WindowAction::SetFocus),
            on(second, show),
            on(second, WindowAction::SetFocus)
        ]
    );

    let right = TrayIconEvent::Click {
        button: MouseButton::Right,
    };
    assert!(app.handle_tray_icon_event(right).is_empty());
    assert!(app.handle_tray_icon_event(TrayIconEvent::Other).is_empty());
    assert!(app.handle_tray_menu_event("anything").is_empty());
    app.tray_icon_show_window_on_click = false;
    assert!(app.handle_tray_icon_event(click).is_empty());
}

#[test]
fn a_window_that_hides_stays_open() {
    let mut app = app(Os::Linux, true);
    app.handle_new_window(&vec![1]);
    assert_eq!(
        app.handle_close_requested(1, WindowCloseBehaviour::WindowHides),
        [on(1, WindowAction::SetVisible { visible: false })]
    );
    assert!(app.webviews.contains_key(&1));
    assert_eq!(app.control_flow, ControlFlow::Wait);
}

#[test]
fn the_application_is_over_with_its_last_window() {
    let mut app = app(Os::Linux, true);
    app.handle_new_window(&vec![1, 2]);
    let closes = WindowCloseBehaviour::WindowCloses;
    assert!(app.handle_close_requested(9, closes).is_empty());
    let effects = app.handle_close_requested(1, closes);
    assert!(matches!(
        effects[0],
        Effect::PersistWindowState { id: 1 } | Effect::PersistWindowState { id: 2 }
    ));
    assert_eq!(effects[1..], [on(1, WindowAction::Discard)]);
    assert_eq!(app.control_flow, ControlFlow::Wait);
    assert_eq!(
        app.handle_loop_destroyed(),
        [Effect::PersistWindowState { id: 2 }]
    );
    app.handle_close_requested(2, closes);
    assert_eq!(app.control_flow, ControlFlow::Exit);
}

#[test]
fn closing_the_only_window_writes_its_place_down_first() {
    let mut app = app(Os::Linux, true);
    app.handle_new_window(&vec![1]);
    assert_eq!(
        app.handle_close_requested(1, WindowCloseBehaviour::WindowCloses),
        [
            Effect::PersistWindowState { id: 1 },
            on(1, WindowAction::Discard)
        ]
    );
    assert!(app.webviews.is_empty());
    assert!(app.handle_loop_destroyed().is_empty());
}

#[test]
fn an_application_may_outlive_its_last_window() {
    let mut app = app(Os::Linux, false);
    app.exit_on_last_window_close = false;
    app.handle_new_window(&vec![1]);
    assert_eq!(
        app.handle_close_requested(1, WindowCloseBehaviour::WindowCloses),
        [on(1, WindowAction::Discard)]
    );
    assert!(app.window_destroyed(1).is_empty());
    assert_eq!(app.control_flow, ControlFlow::Wait);
}

#[test]
fn a_destroyed_window_is_let_go_of() {
    let mut app = app(Os::Linux, true);
    app.handle_new_window(&vec![1, 2]);
    assert_eq!(app.window_destroyed(1), [on(1, WindowAction::Discard)]);
    assert_eq!(app.control_flow, ControlFlow::Wait);
    assert_eq!(app.window_destroyed(2), [on(2, WindowAction::Discard)]);
    assert_eq!(app.control_flow, ControlFlow::Exit);
}

#[test]
fn only_open_windows_are_resized_polled_and_answered() {
    let mut app = app(Os::Linux, true);
    app.handle_new_window(&vec![1]);
    assert_eq!(
        app.resize_window(1, 640, 480),
        [on(
            1,
            WindowAction::SetBounds {
                width: 640,
                height: 480
            }
        )]
    );
    assert!(app.resize_window(2, 640, 480).is_empty());
    assert_eq!(app.poll_vdom(1), [on(1, WindowAction::PollDocument)]);
    assert!(app.poll_vdom(2).is_empty());
    assert_eq!(app.handle_query_msg(Some("answer"), 1), Some("answer"));
    assert_eq!(app.handle_query_msg(Some("answer"), 2), None);
    assert_eq!(app.handle_query_msg(None::<u8>, 1), None);
}

fn changes(assets: &[&str], jump_table: bool, for_build_id: Option<u64>) -> DevserverMsg {
    DevserverMsg::HotReload(HotReloadMsg {
        assets: assets.iter().map(|asset| asset.to_string()).collect(),
        jump_table,
        for_build_id,
        ms_elapsed: 120,
    })
}

#[test]
fn changes_are_applied_and_said_to_be() {
    let mut app = app(Os::Linux, true);
    app.handle_new_window(&vec![1]);
    let apply = on(1, WindowAction::ApplyChanges);
    let poll = on(1, WindowAction::PollDocument);
    let kick = on(1, WindowAction::KickStylesheets);
    let said = on(
        1,
        WindowAction::ShowToast {
            toast: Toast::HotPatched { ms_elapsed: 120 },
        },
    );
    assert_eq!(
        app.handle_hot_reload_msg(&changes(&[], false, None), 8),
        [apply, poll]
    );
    assert_eq!(
        app.handle_hot_reload_msg(&changes(&["main.css"], false, Some(8)), 8),
        [apply, poll, kick]
    );
    assert_eq!(
        app.handle_hot_reload_msg(&changes(&["main.css"], true, Some(8)), 8),
        [apply, poll, kick, said]
    );
    assert_eq!(
        app.handle_hot_reload_msg(&changes(&[], true, Some(8)), 8),
        [apply, poll, said]
    );
    assert_eq!(
        app.handle_hot_reload_msg(&changes(&[], true, Some(7)), 8),
        [apply, poll]
    );
    assert_eq!(
        app.handle_hot_reload_msg(&changes(&[], true, None), 8),
        [apply, poll]
    );
}

#[test]
fn every_window_says_how_the_build_is_going() {
    let mut app = app(Os::Linux, true);
    app.handle_new_window(&vec![1, 2, 3]);
    for (msg, toast) in [
        (DevserverMsg::FullReloadCommand, Toast::Rebuilt),
        (DevserverMsg::FullReloadStart, Toast::Rebuilding),
        (DevserverMsg::FullReloadFailed, Toast::BuildFailed),
        (DevserverMsg::HotPatchStart, Toast::HotPatching),
    ] {
        let effects = app.handle_hot_reload_msg(&msg, 0);
        assert_eq!(all(&effects, WindowAction::ShowToast { toast }), [1, 2, 3]);
        assert_eq!(app.control_flow, ControlFlow::Wait);
    }
    assert!(app.handle_hot_reload_msg(&DevserverMsg::Other, 0).is_empty());
    assert_eq!(app.control_flow, ControlFlow::Wait);
    assert!(app
        .handle_hot_reload_msg(&DevserverMsg::Shutdown, 0)
        .is_empty());
    assert_eq!(app.control_flow, ControlFlow::Exit);
}

fn content(
    header_text: &str,
    message: &str,
    level: &str,
    duration: u64,
    after_reload: bool,
) -> ToastContent {
    ToastContent {
        header_text: header_text.to_string(),
        message: message.to_string(),
        level: level.to_string(),
        duration,
        after_reload,
    }
}

#[test]
fn toasts_say_what_happened() {
    assert_eq!(
        Toast::HotPatched { ms_elapsed: 1034 }.content(),
        content(
            "Hot-patch success!",
            "App successfully patched in 1034 ms",
            "success",
            2,
            false
        )
    );
    assert_eq!(
        Toast::Rebuilt.content(),
        content(
            "Successfully rebuilt.",
            "Your app was rebuilt successfully and without error.",
            "success",
            2,
            true
        )
    );
    assert_eq!(
        Toast::Rebuilding.content(),
        content(
            "Your app is being rebuilt.",
            "A non-hot-reloadable change occurred and we must rebuild.",
            "info",
            3600,
            false
        )
    );
    assert_eq!(
        Toast::BuildFailed.content(),
        content(
            "Oops! The build failed.",
            "We tried to rebuild your app, but something went wrong.",
            "error",
            3600,
            false
        )
    );
    assert_eq!(
        Toast::HotPatching.content(),
        content(
            "Hot-patching app...",
            "Hot-patching modified Rust code.",
            "info",
            3600,
            false
        )
    );
}

#[test]
fn numbers_are_written_in_decimal() {
    for n in [0, 1, 9, 10, 11, 99, 100, 1_000_000_007, u64::MAX] {
        assert_eq!(decimal(n), n.to_string());
    }
}

fn link(params: Value) -> Option<String> {
    app(Os::Linux, true).handle_browser_open(&params)
}

fn object(members: &[(&str, Value)]) -> Value {
    let mut map = serde_json::Map::new();
    for (key, value) in members {
        map.insert(key.to_string(), value.clone());
    }
    Value::Object(map)
}

#[test]
fn a_link_is_opened_where_the_parameters_name_one() {
    let href = Value::String("https://dioxuslabs.com".to_string());
    let other = Value::String("other".to_string());
    assert_eq!(
        link(object(&[("href", href.clone())])),
        Some("https://dioxuslabs.com".to_string())
    );
    assert_eq!(
        link(object(&[("a", other.clone()), ("href", href.clone())])),
        Some("https://dioxuslabs.com".to_string())
    );
    assert_eq!(link(object(&[("url", href.clone())])), None);
    assert_eq!(link(object(&[("href", Value::Bool(true))])), None);
    assert_eq!(link(object(&[("href", Value::Null)])), None);
    assert_eq!(link(object(&[("href", object(&[("href", href.clone())]))])), None);
    assert_eq!(link(object(&[])), None);
    assert_eq!(link(href.clone()), None);
    assert_eq!(link(Value::Array(vec![href])), None);
    assert_eq!(link(Value::Null), None);
}

fn var(key: &str, value: &str) -> EnvVar {
    EnvVar {
        key: key.to_string(),
        value: value.to_string(),
    }
}

#[test]
fn buffers_are_kept_off_on_wayland() {
    let linux = app(Os::Linux, true);
    assert_eq!(
        linux.disable_dma_buf(&mut DmaBufSetup::new(), true, "wayland"),
        [
            var("WEBKIT_DISABLE_DMABUF_RENDERER", "1"),
            var("GDK_BACKEND", "x11")
        ]
    );
    for (dri_exists, session_type) in [(false, "wayland"), (true, "x11"), (true, "")] {
        assert_eq!(
            linux.disable_dma_buf(&mut DmaBufSetup::new(), dri_exists, session_type),
            [var("GDK_BACKEND", "x11")]
        );
    }
}

#[test]
fn only_the_first_application_that_asks_keeps_buffers_off() {
    let mut setup = DmaBufSetup::new();
    let mut unconcerned = app(Os::Linux, true);
    unconcerned.disable_dma_buf_on_wayland = false;
    assert!(unconcerned
        .disable_dma_buf(&mut setup, true, "wayland")
        .is_empty());
    assert!(app(Os::MacOs, true)
        .disable_dma_buf(&mut setup, true, "wayland")
        .is_empty());
    assert!(!setup.done);
    let linux = app(Os::Linux, true);
    assert_eq!(linux.disable_dma_buf(&mut setup, true, "wayland").len(), 2);
    assert!(setup.done);
    assert!(linux.disable_dma_buf(&mut setup, true, "wayland").is_empty());
    assert!(app(Os::Linux, false)
        .disable_dma_buf(&mut setup, true, "x11")
        .is_empty());
}

fn geometry() -> WindowGeometry {
    WindowGeometry {
        monitor: Some(Monitor {
            name: Some("DP-1".to_string()),
        }),
        outer_position: Some((-20, 40)),
        logical_outer_position: (-10, 20),
        inner_size: (1000, 150),
        logical_outer_size: (500, 428),
        decorated: true,
    }
}

fn state(x: i32, y: i32, width: u32, height: u32) -> PreservedWindowState {
    PreservedWindowState {
        x,
        y,
        width,
        height,
        monitor: "DP-1".to_string(),
    }
}

#[test]
fn where_a_window_was_is_written_down() {
    assert_eq!(
        persist_window_state(Os::Linux, &geometry()),
        Some(state(-20, 40, 1000, 200))
    );
    assert_eq!(
        persist_window_state(Os::MacOs, &geometry()),
        Some(state(-10, 20, 500, 400))
    );
    let bare = WindowGeometry {
        decorated: false,
        ..geometry()
    };
    assert_eq!(
        persist_window_state(Os::MacOs, &bare),
        Some(state(-10, 20, 500, 428))
    );
    let flat = WindowGeometry {
        logical_outer_size: (10, 27),
        ..geometry()
    };
    assert_eq!(
        persist_window_state(Os::MacOs, &flat),
        Some(state(-10, 20, 200, 200))
    );
}

#[test]
fn a_window_that_cannot_tell_its_place_is_not_written_down() {
    let adrift = WindowGeometry {
        monitor: None,
        ..geometry()
    };
    assert_eq!(persist_window_state(Os::Linux, &adrift), None);
    let nameless = WindowGeometry {
        monitor: Some(Monitor { name: None }),
        ..geometry()
    };
    assert_eq!(persist_window_state(Os::Linux, &nameless), None);
    let placeless = WindowGeometry {
        outer_position: None,
        ..geometry()
    };
    assert_eq!(persist_window_state(Os::MacOs, &placeless), None);
}

#[test]
fn a_window_comes_back_where_it_was() {
    for (os, unit, x, y, width, height) in [
        (Os::Linux, Unit::Physical, -20, 40, 1000, 200),
        (Os::MacOs, Unit::Logical, -10, 20, 500, 400),
    ] {
        let target = Target {
            os,
            debug_assertions: true,
        };
        let position = Placement::OuterPosition { unit, x, y };
        let size = Placement::InnerSize {
            unit,
            width,
            height,
        };
        let state = persist_window_state(os, &geometry());
        assert_eq!(
            resume_from_state(target, &state, false, false),
            [position, size]
        );
        assert_eq!(resume_from_state(target, &state, true, false), [position]);
        assert_eq!(resume_from_state(target, &state, false, true), [size]);
        assert!(resume_from_state(target, &state, true, true).is_empty());
        assert!(resume_from_state(target, &None, false, false).is_empty());
    }
}

#[test]
fn only_a_desktop_under_development_comes_back() {
    for (os, debug_assertions, resumes) in [
        (Os::Linux, true, true),
        (Os::MacOs, true, true),
        (Os::Windows, true, true),
        (Os::Other, true, true),
        (Os::Linux, false, false),
        (Os::Android, true, false),
        (Os::Ios, true, false),
    ] {
        let target = Target {
            os,
            debug_assertions,
        };
        assert_eq!(resumes_from_state(target), resumes);
        let steps = resume_from_state(target, &Some(state(1, 2, 300, 400)), false, false);
        assert_eq!(steps.len(), if resumes { 2 } else { 0 });
    }
    for debug_assertions in [true, false] {
        let mut app = app(Os::Linux, debug_assertions);
        app.handle_new_window(&vec![3]);
        let written: &[Effect] = if debug_assertions {
            &[Effect::PersistWindowState { id: 3 }]
        } else {
            &[]
        };
        assert_eq!(app.handle_loop_destroyed(), written);
    }
}

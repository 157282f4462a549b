//! The application: its windows, the pages in them, and what is done about each event.

use crate::effect::{ControlFlow, Effect, Toast, WindowAction, WindowId};
use crate::hot_reload::{DevserverMsg, HotReloadMsg};
use crate::platform::{EnvVar, Os, Target};
use crate::reload::{
    PendingReload, PAGE_LOAD_BEGUN_WAITS, PAGE_RELOAD_ATTEMPTS, PAGE_RELOAD_PATIENCE,
    PAGE_RELOAD_PATIENCE_LATER,
};
use crate::text::same_text;
use std::collections::HashMap;
use vstd::prelude::*;

verus! {

broadcast use vstd::std_specs::hash::group_hash_axioms;

/// What stands in a window where its page is drawn.
#[derive(Debug, Clone, Copy, PartialEq, Eq, Structural)]
pub enum RendererState {
    /// The page the window was made with, or one that has reported in since.
    Current,
    /// A page loaded in the place of one that was lost, and not heard from yet.
    Replaced,
}

/// What happens to a window that is asked to close.
#[derive(Debug, Clone, Copy, PartialEq, Eq, Structural)]
pub enum WindowCloseBehaviour {
    /// It is hidden.
    WindowHides,
    /// It is closed.
    WindowCloses,
}

/// A button of the mouse.
#[derive(Debug, Clone, Copy, PartialEq, Eq, Structural)]
pub enum MouseButton {
    Left,
    Right,
    Middle,
}

/// Something that happened to the tray icon.
#[derive(Debug, Clone, Copy, PartialEq, Eq, Structural)]
pub enum TrayIconEvent {
    /// It was clicked.
    Click { button: MouseButton },
    /// Anything else.
    Other,
}

/// How the first window is to be made.
#[derive(Debug, Clone, Copy, PartialEq, Eq, Structural)]
pub struct StartWindow {
    /// Whether the window is shown.
    pub visible: bool,
    /// Whether a size was asked for.
    pub explicit_inner_size: bool,
    /// Whether a position was asked for.
    pub explicit_position: bool,
}

/// What an application is launched with.
#[derive(Debug, Clone, Copy, PartialEq, Eq, Structural)]
pub struct LaunchConfig {
    pub exit_on_last_window_close: bool,
    pub disable_dma_buf_on_wayland: bool,
    pub tray_icon_show_window_on_click: bool,
    pub window: StartWindow,
}

/// Whether the variables that keep WebKitGTK off its buffers have been set in the process.
#[derive(Debug)]
pub struct DmaBufSetup {
    pub done: bool,
}

impl DmaBufSetup {
    pub fn new() -> (setup: DmaBufSetup)
        ensures
            !setup.done,
            setup.done == dma_buf_done(Seq::empty()),
    {
        DmaBufSetup { done: false }
    }
}

/// The single top-level object that manages all the running windows.
#[derive(Debug)]
pub struct App {
    /// What the application was built for.
    pub target: Target,
    /// How the first window is to be made, until it is.
    pub unmounted: Option<StartWindow>,
    pub control_flow: ControlFlow,
    pub is_visible_before_start: bool,
    pub exit_on_last_window_close: bool,
    pub disable_dma_buf_on_wayland: bool,
    /// The windows that are open.
    pub webviews: HashMap<WindowId, RendererState>,
    /// For each window whose page is being loaded again, which loss is being recovered from and
    /// how many times the load has been asked for.
    pub pending_reloads: HashMap<WindowId, PendingReload>,
    /// Every loss of a page is numbered, so that a clock started for one loss cannot be mistaken
    /// for a clock started for a later one.
    pub losses: u64,
    pub float_all: bool,
    pub show_devtools: bool,
    pub tray_icon_show_window_on_click: bool,
}

/// An [`App`] with its collections as maps.
#[verifier::ext_equal]
pub struct AppView {
    pub target: Target,
    pub unmounted: Option<StartWindow>,
    pub control_flow: ControlFlow,
    pub is_visible_before_start: bool,
    pub exit_on_last_window_close: bool,
    pub disable_dma_buf_on_wayland: bool,
    pub webviews: Map<WindowId, RendererState>,
    pub pending_reloads: Map<WindowId, PendingReload>,
    pub losses: nat,
    pub float_all: bool,
    pub show_devtools: bool,
    pub tray_icon_show_window_on_click: bool,
}

impl View for App {
    type V = AppView;

    open spec fn view(&self) -> AppView {
        AppView {
            target: self.target,
            unmounted: self.unmounted,
            control_flow: self.control_flow,
            is_visible_before_start: self.is_visible_before_start,
            exit_on_last_window_close: self.exit_on_last_window_close,
            disable_dma_buf_on_wayland: self.disable_dma_buf_on_wayland,
            webviews: self.webviews@,
            pending_reloads: self.pending_reloads@,
            losses: self.losses as nat,
            float_all: self.float_all,
            show_devtools: self.show_devtools,
            tray_icon_show_window_on_click: self.tray_icon_show_window_on_click,
        }
    }
}

/// An application as a whole.
impl AppView {
    /// An application that has been launched, and to which nothing has happened yet.
    pub open spec fn launched(config: LaunchConfig, target: Target) -> AppView {
        AppView {
            target,
            unmounted: Some(config.window),
            control_flow: ControlFlow::Wait,
            is_visible_before_start: true,
            exit_on_last_window_close: config.exit_on_last_window_close,
            disable_dma_buf_on_wayland: config.disable_dma_buf_on_wayland,
            webviews: Map::empty(),
            pending_reloads: Map::empty(),
            losses: 0,
            float_all: false,
            show_devtools: false,
            tray_icon_show_window_on_click: config.tray_icon_show_window_on_click,
        }
    }

    /// The event loop has started, and the first window is about to be made.
    pub open spec fn started(self) -> AppView {
        AppView {
            unmounted: None,
            is_visible_before_start: self.unmounted->0.visible,
            ..self
        }
    }

    /// How the first window is made when the event loop starts.
    pub open spec fn start_window(self) -> StartWindow {
        StartWindow {
            visible: self.unmounted->0.visible && self.target.os == Os::Linux,
            ..self.unmounted->0
        }
    }

    /// A round of events has begun.
    pub open spec fn ticked(self) -> AppView {
        AppView { control_flow: ControlFlow::Wait, ..self }
    }

    pub open spec fn tick_effects(self) -> Seq<Effect> {
        seq![Effect::ApplyEventHandlers]
    }

    /// An item of the menu was chosen.
    pub open spec fn menu_chosen(self, item: Seq<char>) -> AppView {
        if item == "dioxus-float-top"@ {
            AppView { float_all: !self.float_all, ..self }
        } else if item == "dioxus-toggle-dev-tools"@ {
            AppView { show_devtools: !self.show_devtools, ..self }
        } else {
            self
        }
    }

    /// `effects` is what choosing an item of the menu asks for.
    pub open spec fn menu_effects(self, item: Seq<char>, effects: Seq<Effect>) -> bool {
        if item == "dioxus-float-top"@ {
            crate::effect::once_for_each(
                effects,
                self.webviews.dom(),
                WindowAction::SetAlwaysOnTop { on_top: self.float_all },
            )
        } else if item == "dioxus-toggle-dev-tools"@ {
            crate::effect::once_for_each(
                effects,
                self.webviews.dom(),
                if self.show_devtools {
                    WindowAction::CloseDevtools
                } else {
                    WindowAction::OpenDevtools
                },
            )
        } else {
            effects == Seq::<Effect>::empty()
        }
    }

    /// `effects` is what something that happened to the tray icon asks for.
    pub open spec fn tray_icon_effects(self, event: TrayIconEvent, effects: Seq<Effect>) -> bool {
        if self.tray_icon_show_window_on_click && event == (TrayIconEvent::Click {
            button: MouseButton::Left,
        }) {
            exists|ids: Seq<WindowId>| #[trigger]
                crate::effect::lists_windows(ids, self.webviews.dom()) && effects
                    == crate::effect::for_each_both(
                    ids,
                    WindowAction::SetVisible { visible: true },
                    WindowAction::SetFocus,
                )
        } else {
            effects == Seq::<Effect>::empty()
        }
    }

    /// The development server has reported something.
    pub open spec fn hot_reloaded(self, msg: DevserverMsg) -> AppView {
        AppView {
            control_flow: if msg is Shutdown {
                ControlFlow::Exit
            } else {
                self.control_flow
            },
            ..self
        }
    }

    /// What a window's document having work to do asks for.
    pub open spec fn poll_effects(self, id: WindowId) -> Seq<Effect> {
        if self.is_open(id) {
            seq![Effect::Window { id, action: WindowAction::PollDocument }]
        } else {
            seq![]
        }
    }

    /// The part of a page's answer that is passed on to its window's queries.
    pub open spec fn passed_on<R>(self, result: Option<R>, id: WindowId) -> Option<R> {
        if self.is_open(id) {
            result
        } else {
            None
        }
    }
}

/// Windows that come and go.
impl AppView {
    /// Windows have been made.
    pub open spec fn with_windows(self, created: Seq<WindowId>) -> AppView {
        AppView {
            webviews: Map::new(
                |id: WindowId| self.is_open(id) || created.contains(id),
                |id: WindowId|
                    if created.contains(id) {
                        RendererState::Current
                    } else {
                        self.webviews[id]
                    },
            ),
            ..self
        }
    }

    /// What making windows asks for.
    pub open spec fn new_window_effects(self, created: Seq<WindowId>) -> Seq<Effect> {
        created.map_values(|id: WindowId| Effect::RequestPoll { id })
    }

    /// What giving a window another size asks for.
    pub open spec fn resize_effects(self, id: WindowId, width: u32, height: u32) -> Seq<Effect> {
        if self.is_open(id) {
            seq![Effect::Window { id, action: WindowAction::SetBounds { width, height } }]
        } else {
            seq![]
        }
    }

    /// A window is gone. With the last one the application may be over.
    pub open spec fn without_window(self, id: WindowId) -> AppView {
        AppView {
            webviews: self.webviews.remove(id),
            control_flow: if self.exit_on_last_window_close && self.webviews.remove(
                id,
            ).is_empty() {
                ControlFlow::Exit
            } else {
                self.control_flow
            },
            ..self
        }
    }

    /// A window is gone, and its page is not waited on any longer.
    pub open spec fn destroyed(self, id: WindowId) -> AppView {
        AppView {
            pending_reloads: self.pending_reloads.remove(id),
            ..self.without_window(id)
        }
    }

    pub open spec fn destroyed_effects(self, id: WindowId) -> Seq<Effect> {
        if self.is_open(id) {
            seq![Effect::Window { id, action: WindowAction::Discard }]
        } else {
            seq![]
        }
    }

    /// A window was asked to close. One that only hides stays open.
    pub open spec fn close_requested(
        self,
        id: WindowId,
        close_behaviour: WindowCloseBehaviour,
    ) -> AppView {
        if self.is_open(id) && close_behaviour == WindowCloseBehaviour::WindowCloses {
            self.without_window(id)
        } else {
            self
        }
    }

    /// `effects` is what a window that was asked to close asks for.
    pub open spec fn close_effects(
        self,
        id: WindowId,
        close_behaviour: WindowCloseBehaviour,
        effects: Seq<Effect>,
    ) -> bool {
        if !self.is_open(id) {
            effects == Seq::<Effect>::empty()
        } else if close_behaviour == WindowCloseBehaviour::WindowHides {
            effects == seq![
                Effect::Window { id, action: WindowAction::SetVisible { visible: false } },
            ]
        } else {
            exists|saved: Seq<Effect>| #[trigger]
                self.persist_effects(saved) && effects == saved + seq![
                    Effect::Window { id, action: WindowAction::Discard },
                ]
        }
    }

    /// `effects` asks for the place of one of the open windows to be written down. Where the
    /// application is not being developed, or no window is open, there is nothing to write down.
    pub open spec fn persist_effects(self, effects: Seq<Effect>) -> bool {
        if self.target.debug_assertions && !self.webviews.is_empty() {
            exists|id: WindowId| #[trigger]
                self.is_open(id) && effects == seq![Effect::PersistWindowState { id }]
        } else {
            effects == Seq::<Effect>::empty()
        }
    }

    /// Whether the application wants WebKitGTK kept off the buffers it has trouble with.
    pub open spec fn wants_no_dma_buf(self) -> bool {
        self.target.os == Os::Linux && self.disable_dma_buf_on_wayland
    }

    /// Whether the variables have been set once this application has asked.
    pub open spec fn dma_buf_done_after(self, done: bool) -> bool {
        done || self.wants_no_dma_buf()
    }

    /// The variables set on Linux, where the application asked for them and they have not been
    /// set in the process before.
    pub open spec fn dma_buf_assignments(
        self,
        done: bool,
        dri_exists: bool,
        session_type: Seq<char>,
    ) -> Seq<(Seq<char>, Seq<char>)> {
        if !self.wants_no_dma_buf() || done {
            seq![]
        } else if dri_exists && session_type == "wayland"@ {
            seq![("WEBKIT_DISABLE_DMABUF_RENDERER"@, "1"@), ("GDK_BACKEND"@, "x11"@)]
        } else {
            seq![("GDK_BACKEND"@, "x11"@)]
        }
    }
}

/// Lost pages, and the loading of them again.
impl AppView {
    /// No pending load recovers from a loss that has not been numbered yet, none is at an
    /// attempt before the first, and none has been waited on more often than is allowed.
    pub open spec fn wf(self) -> bool {
        forall|id: WindowId| #[trigger]
            self.pending_reloads.contains_key(id) ==> {
                &&& 1 <= self.pending_reloads[id].loss <= self.losses
                &&& 1 <= self.pending_reloads[id].attempt
                &&& self.pending_reloads[id].begun_waits <= PAGE_LOAD_BEGUN_WAITS
            }
    }

    pub open spec fn is_open(self, id: WindowId) -> bool {
        self.webviews.contains_key(id)
    }

    /// The pending load that is attempt `attempt` at recovering from `loss`.
    pub open spec fn loading(self, id: WindowId, loss: nat, attempt: u32) -> AppView {
        if self.is_open(id) {
            AppView {
                webviews: self.webviews.insert(id, RendererState::Replaced),
                pending_reloads: self.pending_reloads.insert(
                    id,
                    PendingReload { loss: loss as u64, attempt, begun_waits: 0 },
                ),
                ..self
            }
        } else {
            self
        }
    }

    /// What loading a page again asks for: every navigation to it is allowed from here, its load
    /// has not begun, what is sent next is kept for it, and its time runs.
    pub open spec fn loading_effects(self, id: WindowId, loss: nat, attempt: u32) -> Seq<Effect> {
        if self.is_open(id) {
            seq![
                Effect::Window { id, action: WindowAction::SetPageAwaited { awaited: true } },
                Effect::Window { id, action: WindowAction::SetPageLoaded { loaded: false } },
                Effect::Window { id, action: WindowAction::ForgetConnection },
                Effect::Window { id, action: WindowAction::LoadPage },
                Effect::StartReloadClock {
                    id,
                    loss: loss as u64,
                    attempt,
                    patience: crate::reload::patience(attempt),
                },
            ]
        } else {
            seq![]
        }
    }

    /// A page lost afresh is a new loss, and its first load is attempt one.
    pub open spec fn lost(self, id: WindowId) -> AppView {
        (AppView { losses: self.losses + 1, ..self }).loading(id, self.losses + 1, 1)
    }

    pub open spec fn lost_effects(self, id: WindowId) -> Seq<Effect> {
        self.loading_effects(id, self.losses + 1, 1)
    }

    /// Attempt `attempt` at recovering from `loss` is the one being waited on.
    pub open spec fn is_awaited(self, id: WindowId, loss: u64, attempt: u32) -> bool {
        &&& self.pending_reloads.contains_key(id)
        &&& self.pending_reloads[id].loss == loss
        &&& self.pending_reloads[id].attempt == attempt
    }

    /// A load that has begun is waited on rather than asked for again, a limited number of times.
    pub open spec fn waits_on(self, id: WindowId, page_loaded: bool) -> bool {
        &&& self.is_open(id)
        &&& page_loaded
        &&& self.pending_reloads[id].begun_waits < PAGE_LOAD_BEGUN_WAITS
    }

    /// The time of attempt `attempt` at recovering from `loss` is up.
    pub open spec fn due(
        self,
        id: WindowId,
        loss: u64,
        attempt: u32,
        page_loaded: bool,
    ) -> AppView {
        if !self.is_awaited(id, loss, attempt) {
            self
        } else if self.waits_on(id, page_loaded) {
            AppView {
                pending_reloads: self.pending_reloads.insert(
                    id,
                    PendingReload {
                        loss,
                        attempt,
                        begun_waits: (self.pending_reloads[id].begun_waits + 1) as u32,
                    },
                ),
                ..self
            }
        } else {
            self.loading(id, loss as nat, crate::reload::next_attempt(attempt))
        }
    }

    pub open spec fn due_effects(
        self,
        id: WindowId,
        loss: u64,
        attempt: u32,
        page_loaded: bool,
    ) -> Seq<Effect> {
        if !self.is_awaited(id, loss, attempt) {
            seq![]
        } else if self.waits_on(id, page_loaded) {
            seq![
                Effect::StartReloadClock {
                    id,
                    loss,
                    attempt,
                    patience: crate::reload::patience(attempt),
                },
            ]
        } else {
            self.loading_effects(id, loss as nat, crate::reload::next_attempt(attempt))
        }
    }

    /// The page in an open window has reported in.
    pub open spec fn reported_in(self, id: WindowId) -> AppView {
        AppView {
            webviews: self.webviews.insert(id, RendererState::Current),
            pending_reloads: self.pending_reloads.remove(id),
            ..self
        }
    }

    pub open spec fn reported_in_effects(self, id: WindowId) -> Seq<Effect> {
        seq![
            Effect::Window { id, action: WindowAction::SetPageAwaited { awaited: false } },
            Effect::Window { id, action: WindowAction::SetPageLoaded { loaded: true } },
            Effect::Window { id, action: WindowAction::PageArrived },
            Effect::Window { id, action: WindowAction::RebuildIntoNewPage },
            Effect::Window { id, action: WindowAction::SendEdits },
            Effect::Window { id, action: WindowAction::ReplayHeadElements },
        ] + (if self.target.os != Os::Linux {
            seq![
                Effect::Window {
                    id,
                    action: WindowAction::SetVisible { visible: self.is_visible_before_start },
                },
            ]
        } else {
            seq![]
        }) + seq![Effect::RequestPoll { id }]
    }
}

impl App {
    /// The process drawing a window's page has been terminated by the platform. The page is
    /// loaded again, and asked for again for as long as it does not report in.
    pub fn reload_lost_page(&mut self, id: WindowId) -> (effects: Vec<Effect>)
        requires
            old(self).losses < u64::MAX,
        ensures
            final(self)@ == old(self)@.lost(id),
            effects@ == old(self)@.lost_effects(id),
            old(self)@.wf() ==> final(self)@.wf(),
    {
        self.losses = self.losses + 1;
        self.load_lost_page(id, self.losses, 1)
    }

    /// The time an attempt to load a lost page again was given is up. `page_loaded` says whether
    /// the load has been seen to begin, where the window is still open.
    ///
    /// If that attempt is still the one being waited on, the page never reported in. A load that
    /// has begun is almost always about to commit, and a second load asked for now would race
    /// it, so it is given more time once; otherwise the page is loaded again. If the page has
    /// since reported in, a later attempt has replaced this one, or the page has been lost
    /// afresh, there is nothing to do.
    pub fn page_reload_due(
        &mut self,
        id: WindowId,
        loss: u64,
        attempt: u32,
        page_loaded: bool,
    ) -> (effects: Vec<Effect>)
        ensures
            final(self)@ == old(self)@.due(id, loss, attempt, page_loaded),
            effects@ == old(self)@.due_effects(id, loss, attempt, page_loaded),
            old(self)@.wf() ==> final(self)@.wf(),
    {
        let pending: PendingReload = match self.pending_reloads.get(&id) {
            Some(pending) => *pending,
            None => {
                return Vec::new();
            },
        };
        if pending.loss != loss || pending.attempt != attempt {
            return Vec::new();
        }
        let begun: bool = self.webviews.contains_key(&id) && page_loaded;
        if begun && pending.begun_waits < PAGE_LOAD_BEGUN_WAITS {
            self.pending_reloads.insert(
                id,
                PendingReload { loss, attempt, begun_waits: pending.begun_waits + 1 },
            );
            return vec![
                Effect::StartReloadClock {
                    id,
                    loss,
                    attempt,
                    patience: App::page_reload_patience(attempt),
                },
            ];
        }
        self.load_lost_page(id, loss, attempt.saturating_add(1))
    }

    /// How many seconds an attempt is given: the quick ones a few, the rest half a minute, so a
    /// machine slow to bring a process up is asked again rather than given up on, and not asked
    /// so often that it never gets there.
    pub fn page_reload_patience(attempt: u32) -> (seconds: u64)
        ensures
            seconds == crate::reload::patience(attempt),
    {
        if attempt <= PAGE_RELOAD_ATTEMPTS {
            PAGE_RELOAD_PATIENCE
        } else {
            PAGE_RELOAD_PATIENCE_LATER
        }
    }

    /// Loads a lost page again and starts the clock on its reporting in.
    fn load_lost_page(&mut self, id: WindowId, loss: u64, attempt: u32) -> (effects: Vec<Effect>)
        ensures
            final(self)@ == old(self)@.loading(id, loss as nat, attempt),
            effects@ == old(self)@.loading_effects(id, loss as nat, attempt),
            old(self)@.wf() && 1 <= loss <= old(self)@.losses && 1 <= attempt
                ==> final(self)@.wf(),
    {
        if !self.webviews.contains_key(&id) {
            return Vec::new();
        }
        self.pending_reloads.insert(id, PendingReload { loss, attempt, begun_waits: 0 });
        self.webviews.insert(id, RendererState::Replaced);
        vec![
            Effect::Window { id, action: WindowAction::SetPageAwaited { awaited: true } },
            Effect::Window { id, action: WindowAction::SetPageLoaded { loaded: false } },
            Effect::Window { id, action: WindowAction::ForgetConnection },
            Effect::Window { id, action: WindowAction::LoadPage },
            Effect::StartReloadClock {
                id,
                loss,
                attempt,
                patience: App::page_reload_patience(attempt),
            },
        ]
    }
}

/// The windows, one by one and all together.
impl App {
    pub fn new(config: LaunchConfig, target: Target) -> (app: App)
        ensures
            app@ == AppView::launched(config, target),
            app@.wf(),
    {
        App {
            target,
            unmounted: Some(config.window),
            control_flow: ControlFlow::Wait,
            is_visible_before_start: true,
            exit_on_last_window_close: config.exit_on_last_window_close,
            disable_dma_buf_on_wayland: config.disable_dma_buf_on_wayland,
            webviews: HashMap::new(),
            pending_reloads: HashMap::new(),
            losses: 0,
            float_all: false,
            show_devtools: false,
            tray_icon_show_window_on_click: config.tray_icon_show_window_on_click,
        }
    }

    /// The open windows, in no particular order.
    fn window_ids(&self) -> (ids: Vec<WindowId>)
        ensures
            crate::effect::lists_windows(ids@, self@.webviews.dom()),
    {
        let mut ids: Vec<WindowId> = Vec::new();
        let keys = self.webviews.keys();
        let ghost listed = vstd::std_specs::iter::IteratorSpec::remaining(&keys);
        for id in iter: keys
            invariant
                iter.seq() == listed,
                ids@ == listed.unref().take(iter.index() as int),
        {
            ids.push(*id);
        }
        assert(ids@ == listed.unref());
        ids
    }
}

/// What is done about each event.
impl App {
    /// One effect for each of `ids` in turn.
    fn for_each(ids: &Vec<WindowId>, action: WindowAction) -> (effects: Vec<Effect>)
        ensures
            effects@ == crate::effect::for_each(ids@, action),
    {
        let mut effects: Vec<Effect> = Vec::new();
        for i in 0..ids.len()
            invariant
                effects@ == crate::effect::for_each(ids@.take(i as int), action),
        {
            effects.push(Effect::Window { id: ids[i], action });
        }
        effects
    }

    /// Two effects for each of `ids` in turn.
    fn for_each_both(
        ids: &Vec<WindowId>,
        first: WindowAction,
        second: WindowAction,
    ) -> (effects: Vec<Effect>)
        ensures
            effects@ == crate::effect::for_each_both(ids@, first, second),
    {
        let mut effects: Vec<Effect> = Vec::new();
        for i in 0..ids.len()
            invariant
                effects@ == crate::effect::for_each_both(ids@.take(i as int), first, second),
        {
            effects.push(Effect::Window { id: ids[i], action: first });
            effects.push(Effect::Window { id: ids[i], action: second });
        }
        effects
    }

    /// A round of events begins: unless one of them says otherwise, the loop waits after it.
    pub fn tick(&mut self) -> (effects: Vec<Effect>)
        ensures
            final(self)@ == old(self)@.ticked(),
            effects@ == old(self)@.tick_effects(),
    {
        self.control_flow = ControlFlow::Wait;
        vec![Effect::ApplyEventHandlers]
    }

    /// An item of the menu was chosen.
    pub fn handle_menu_event(&mut self, item: &str) -> (effects: Vec<Effect>)
        ensures
            final(self)@ == old(self)@.menu_chosen(item@),
            old(self)@.menu_effects(item@, effects@),
    {
        proof {
            reveal_strlit("dioxus-float-top");
            reveal_strlit("dioxus-toggle-dev-tools");
            assert("dioxus-float-top"@.len() != "dioxus-toggle-dev-tools"@.len());
        }
        if same_text(item, "dioxus-float-top") {
            let action = WindowAction::SetAlwaysOnTop { on_top: self.float_all };
            self.float_all = !self.float_all;
            App::for_each(&self.window_ids(), action)
        } else if same_text(item, "dioxus-toggle-dev-tools") {
            self.show_devtools = !self.show_devtools;
            let action = if self.show_devtools {
                WindowAction::OpenDevtools
            } else {
                WindowAction::CloseDevtools
            };
            App::for_each(&self.window_ids(), action)
        } else {
            Vec::new()
        }
    }

    /// An item of the tray icon's menu was chosen. Nothing is done about it.
    pub fn handle_tray_menu_event(&mut self, _item: &str) -> (effects: Vec<Effect>)
        ensures
            final(self)@ == old(self)@,
            effects@ == Seq::<Effect>::empty(),
    {
        Vec::new()
    }

    /// Something happened to the tray icon. A click with the left button brings every window to
    /// the front, if the application asked for that.
    pub fn handle_tray_icon_event(&mut self, event: TrayIconEvent) -> (effects: Vec<Effect>)
        ensures
            final(self)@ == old(self)@,
            old(self)@.tray_icon_effects(event, effects@),
    {
        if let TrayIconEvent::Click { button } = event {
            if button == MouseButton::Left && self.tray_icon_show_window_on_click {
                return App::for_each_both(
                    &self.window_ids(),
                    WindowAction::SetVisible { visible: true },
                    WindowAction::SetFocus,
                );
            }
        }
        Vec::new()
    }

    /// Windows that were waiting to be made have been made, in this order.
    pub fn handle_new_window(&mut self, created: &Vec<WindowId>) -> (effects: Vec<Effect>)
        ensures
            final(self)@ == old(self)@.with_windows(created@),
            effects@ == old(self)@.new_window_effects(created@),
    {
        let mut effects: Vec<Effect> = Vec::new();
        for i in 0..created.len()
            invariant
                self@ == old(self)@.with_windows(created@.take(i as int)),
                effects@ == created@.take(i as int).map_values(
                    |id: WindowId| Effect::RequestPoll { id },
                ),
        {
            let id: WindowId = created[i];
            self.webviews.insert(id, RendererState::Current);
            effects.push(Effect::RequestPoll { id });
            proof {
                let before = created@.take(i as int);
                let after = created@.take(i + 1);
                assert forall|k: WindowId| after.contains(k) == (before.contains(k) || k == id) by {
                    if k == id {
                        assert(after[i as int] == k);
                    }
                }
            }
        }
        assert(created@.take(created@.len() as int) == created@);
        effects
    }

    /// A window was asked to close; `close_behaviour` is what the window asked for in that case.
    /// While an application is being developed, where a window is gets written down before one
    /// closes, so that the next run can come back to it even if it was the last.
    pub fn handle_close_requested(
        &mut self,
        id: WindowId,
        close_behaviour: WindowCloseBehaviour,
    ) -> (effects: Vec<Effect>)
        ensures
            final(self)@ == old(self)@.close_requested(id, close_behaviour),
            old(self)@.close_effects(id, close_behaviour, effects@),
            old(self)@.wf() ==> final(self)@.wf(),
    {
        if !self.webviews.contains_key(&id) {
            return Vec::new();
        }
        match close_behaviour {
            WindowCloseBehaviour::WindowHides => {
                let effects: Vec<Effect> = vec![
                    Effect::Window { id, action: WindowAction::SetVisible { visible: false } },
                ];
                assert(effects@ == seq![
                    Effect::Window { id, action: WindowAction::SetVisible { visible: false } },
                ]);
                effects
            },
            WindowCloseBehaviour::WindowCloses => {
                let mut effects = self.handle_loop_destroyed();
                let ghost saved = effects@;
                self.webviews.remove(&id);
                effects.push(Effect::Window { id, action: WindowAction::Discard });
                if self.exit_on_last_window_close && self.webviews.is_empty() {
                    self.control_flow = ControlFlow::Exit;
                }
                assert(effects@ == saved + seq![
                    Effect::Window { id, action: WindowAction::Discard },
                ]);
                effects
            },
        }
    }

    /// A window is gone, and with it whatever its page was being waited on for.
    pub fn window_destroyed(&mut self, id: WindowId) -> (effects: Vec<Effect>)
        ensures
            final(self)@ == old(self)@.destroyed(id),
            effects@ == old(self)@.destroyed_effects(id),
            old(self)@.wf() ==> final(self)@.wf(),
    {
        let mut effects: Vec<Effect> = Vec::new();
        if self.webviews.contains_key(&id) {
            effects.push(Effect::Window { id, action: WindowAction::Discard });
        }
        self.webviews.remove(&id);
        self.pending_reloads.remove(&id);
        if self.exit_on_last_window_close && self.webviews.is_empty() {
            self.control_flow = ControlFlow::Exit;
        }
        effects
    }

    /// A window was given another size, in physical pixels.
    pub fn resize_window(&self, id: WindowId, width: u32, height: u32) -> (effects: Vec<Effect>)
        ensures
            effects@ == self@.resize_effects(id, width, height),
    {
        if self.webviews.contains_key(&id) {
            vec![Effect::Window { id, action: WindowAction::SetBounds { width, height } }]
        } else {
            Vec::new()
        }
    }

    /// The event loop has started, and the first window is to be made as the result says. It is
    /// kept hidden until its page reports in, except on Linux.
    pub fn handle_start_cause_init(&mut self) -> (window: StartWindow)
        requires
            old(self).unmounted is Some,
        ensures
            final(self)@ == old(self)@.started(),
            window == old(self)@.start_window(),
    {
        let window: StartWindow = self.unmounted.take().unwrap();
        self.is_visible_before_start = window.visible;
        let visible: bool = window.visible && self.target.os == Os::Linux;
        StartWindow {
            visible,
            explicit_inner_size: window.explicit_inner_size,
            explicit_position: window.explicit_position,
        }
    }

    /// The first window has been made.
    pub fn first_window_made(&mut self, id: WindowId)
        ensures
            final(self)@ == old(self)@.with_windows(seq![id]),
    {
        self.webviews.insert(id, RendererState::Current);
        proof {
            assert forall|k: WindowId| seq![id].contains(k) == (k == id) by {
                assert(seq![id][0] == id);
            }
        }
    }

    /// The page in a window has reported in. The whole document is built into it, and what the
    /// document had put into the head of the page before it is put back.
    pub fn handle_initialize_msg(&mut self, id: WindowId) -> (effects: Vec<Effect>)
        requires
            old(self)@.is_open(id),
        ensures
            final(self)@ == old(self)@.reported_in(id),
            effects@ == old(self)@.reported_in_effects(id),
            old(self)@.wf() ==> final(self)@.wf(),
    {
        self.pending_reloads.remove(&id);
        self.webviews.insert(id, RendererState::Current);
        let mut effects: Vec<Effect> = vec![
            Effect::Window { id, action: WindowAction::SetPageAwaited { awaited: false } },
            Effect::Window { id, action: WindowAction::SetPageLoaded { loaded: true } },
            Effect::Window { id, action: WindowAction::PageArrived },
            Effect::Window { id, action: WindowAction::RebuildIntoNewPage },
            Effect::Window { id, action: WindowAction::SendEdits },
            Effect::Window { id, action: WindowAction::ReplayHeadElements },
        ];
        if self.target.os != Os::Linux {
            effects.push(
                Effect::Window {
                    id,
                    action: WindowAction::SetVisible { visible: self.is_visible_before_start },
                },
            );
        }
        effects.push(Effect::RequestPoll { id });
        effects
    }

    /// A page has answered a query; `result` is the answer, where it could be read. The result is
    /// the answer to be passed on to the window's queries.
    pub fn handle_query_msg<R>(&self, result: Option<R>, id: WindowId) -> (passed_on: Option<R>)
        ensures
            passed_on == self@.passed_on(result, id),
    {
        if self.webviews.contains_key(&id) {
            result
        } else {
            None
        }
    }

    /// The development server has reported something. `build_id` is the build that is running.
    pub fn handle_hot_reload_msg(&mut self, msg: &DevserverMsg, build_id: u64) -> (effects: Vec<
        Effect,
    >)
        ensures
            final(self)@ == old(self)@.hot_reloaded(*msg),
            hot_reload_effects(effects@, old(self)@.webviews.dom(), *msg, build_id),
    {
        match msg {
            DevserverMsg::HotReload(changes) => {
                let ids = self.window_ids();
                let mut effects = App::for_each_both(
                    &ids,
                    WindowAction::ApplyChanges,
                    WindowAction::PollDocument,
                );
                if !changes.assets.is_empty() {
                    let mut kicks = App::for_each(&ids, WindowAction::KickStylesheets);
                    effects.append(&mut kicks);
                }
                let patches: bool = match changes.for_build_id {
                    Some(patched) => changes.jump_table && patched == build_id,
                    None => false,
                };
                if patches {
                    let toast = Toast::HotPatched { ms_elapsed: changes.ms_elapsed };
                    let mut toasts = App::for_each(&ids, WindowAction::ShowToast { toast });
                    effects.append(&mut toasts);
                }
                effects
            },
            DevserverMsg::FullReloadCommand => self.send_toast_to_all(Toast::Rebuilt),
            DevserverMsg::FullReloadStart => self.send_toast_to_all(Toast::Rebuilding),
            DevserverMsg::FullReloadFailed => self.send_toast_to_all(Toast::BuildFailed),
            DevserverMsg::HotPatchStart => self.send_toast_to_all(Toast::HotPatching),
            DevserverMsg::Shutdown => {
                self.control_flow = ControlFlow::Exit;
                Vec::new()
            },
            DevserverMsg::Other => Vec::new(),
        }
    }

    fn send_toast_to_all(&self, toast: Toast) -> (effects: Vec<Effect>)
        ensures
            crate::effect::once_for_each(
                effects@,
                self@.webviews.dom(),
                WindowAction::ShowToast { toast },
            ),
    {
        App::for_each(&self.window_ids(), WindowAction::ShowToast { toast })
    }

    /// A window's document has work to do.
    pub fn poll_vdom(&self, id: WindowId) -> (effects: Vec<Effect>)
        ensures
            effects@ == self@.poll_effects(id),
    {
        if self.webviews.contains_key(&id) {
            vec![Effect::Window { id, action: WindowAction::PollDocument }]
        } else {
            Vec::new()
        }
    }

    /// The event loop is over. While an application is being developed, where its window was is
    /// written down, so that the next run can come back to it.
    pub fn handle_loop_destroyed(&self) -> (effects: Vec<Effect>)
        ensures
            self@.persist_effects(effects@),
    {
        if !self.target.debug_assertions {
            return Vec::new();
        }
        let ids = self.window_ids();
        if ids.len() == 0 {
            Vec::new()
        } else {
            let effects: Vec<Effect> = vec![Effect::PersistWindowState { id: ids[0] }];
            assert(self@.is_open(ids@[0]));
            assert(effects@ == seq![Effect::PersistWindowState { id: ids@[0] }]);
            effects
        }
    }

    /// The variables that keep WebKitGTK off the buffers it has trouble with. They are set once
    /// in a process, of which `setup` keeps track. `dri_exists` says whether the machine has
    /// direct rendering, `session_type` is what the session says it is.
    pub fn disable_dma_buf(
        &self,
        setup: &mut DmaBufSetup,
        dri_exists: bool,
        session_type: &str,
    ) -> (vars: Vec<EnvVar>)
        ensures
            crate::platform::assignments(vars@) == self@.dma_buf_assignments(
                old(setup).done,
                dri_exists,
                session_type@,
            ),
            final(setup).done == self@.dma_buf_done_after(old(setup).done),
    {
        let mut vars: Vec<EnvVar> = Vec::new();
        if self.target.os == Os::Linux && self.disable_dma_buf_on_wayland && !setup.done {
            setup.done = true;
            if dri_exists && same_text(session_type, "wayland") {
                vars.push(
                    EnvVar {
                        key: "WEBKIT_DISABLE_DMABUF_RENDERER".to_owned(),
                        value: "1".to_owned(),
                    },
                );
            }
            vars.push(EnvVar { key: "GDK_BACKEND".to_owned(), value: "x11".to_owned() });
        }
        vars
    }
}

/// Closing the only window of an application that is being developed asks for that very window to
/// be written down.
pub proof fn closing_the_only_window_saves_its_place(
    app: AppView,
    id: WindowId,
    saved: Seq<Effect>,
)
    requires
        app.target.debug_assertions,
        app.webviews.dom() == set![id],
        app.persist_effects(saved),
    ensures
        saved == seq![Effect::PersistWindowState { id }],
{
}

/// Whether the variables have been set once these applications, one after the other, have asked.
pub open spec fn dma_buf_done(asked: Seq<AppView>) -> bool
    decreases asked.len(),
{
    asked.len() > 0 && asked.last().dma_buf_done_after(dma_buf_done(asked.drop_last()))
}

/// Only the first application in a process that wants the variables is given them: once one has
/// asked, none that asks later is given any, and until one has, they have not been set.
pub proof fn dma_buf_variables_are_set_once(
    asked: Seq<AppView>,
    app: AppView,
    dri_exists: bool,
    session_type: Seq<char>,
)
    ensures
        dma_buf_done(asked) <==> exists|i: int|
            0 <= i < asked.len() && (#[trigger] asked[i]).wants_no_dma_buf(),
        dma_buf_done(asked) ==> app.dma_buf_assignments(
            dma_buf_done(asked),
            dri_exists,
            session_type,
        ) == Seq::<(Seq<char>, Seq<char>)>::empty(),
    decreases asked.len(),
{
    if asked.len() > 0 {
        let before = asked.drop_last();
        dma_buf_variables_are_set_once(before, app, dri_exists, session_type);
        if exists|i: int| 0 <= i < asked.len() && (#[trigger] asked[i]).wants_no_dma_buf() {
            let i = choose|i: int|
                0 <= i < asked.len() && (#[trigger] asked[i]).wants_no_dma_buf();
            if i < before.len() {
                assert(before[i].wants_no_dma_buf());
            }
        }
    }
}

/// What a hot reload asks for: every document is changed and polled; stylesheets are loaded again
/// if assets changed; and if the running code was patched, every page says so.
pub open spec fn changes_effects(
    ids: Seq<WindowId>,
    changes: HotReloadMsg,
    build_id: u64,
) -> Seq<Effect> {
    crate::effect::for_each_both(ids, WindowAction::ApplyChanges, WindowAction::PollDocument) + (
    if changes.assets@.len() > 0 {
        crate::effect::for_each(ids, WindowAction::KickStylesheets)
    } else {
        seq![]
    }) + (if changes.patches(build_id) {
        crate::effect::for_each(
            ids,
            WindowAction::ShowToast {
                toast: Toast::HotPatched { ms_elapsed: changes.ms_elapsed },
            },
        )
    } else {
        seq![]
    })
}

/// What a message from the development server asks for, of the windows in `open`.
pub open spec fn hot_reload_effects(
    effects: Seq<Effect>,
    open: Set<WindowId>,
    msg: DevserverMsg,
    build_id: u64,
) -> bool {
    match msg {
        DevserverMsg::HotReload(changes) => exists|ids: Seq<WindowId>| #[trigger]
            crate::effect::lists_windows(ids, open) && effects == changes_effects(
                ids,
                changes,
                build_id,
            ),
        DevserverMsg::FullReloadCommand => crate::effect::once_for_each(
            effects,
            open,
            WindowAction::ShowToast { toast: Toast::Rebuilt },
        ),
        DevserverMsg::FullReloadStart => crate::effect::once_for_each(
            effects,
            open,
            WindowAction::ShowToast { toast: Toast::Rebuilding },
        ),
        DevserverMsg::FullReloadFailed => crate::effect::once_for_each(
            effects,
            open,
            WindowAction::ShowToast { toast: Toast::BuildFailed },
        ),
        DevserverMsg::HotPatchStart => crate::effect::once_for_each(
            effects,
            open,
            WindowAction::ShowToast { toast: Toast::HotPatching },
        ),
        DevserverMsg::Shutdown | DevserverMsg::Other => effects == Seq::<Effect>::empty(),
    }
}

} // verus!

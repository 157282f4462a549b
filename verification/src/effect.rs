//! What a handler asks to have done.

use crate::reload::PAGE_URL;
use vstd::prelude::*;

verus! {

/// The number a window goes by. No two windows of a run share one.
pub type WindowId = u64;

/// What the event loop does once the events at hand are handled.
#[derive(Debug, Clone, Copy, PartialEq, Eq, Structural)]
pub enum ControlFlow {
    /// Wait for the next event.
    Wait,
    /// Leave the loop.
    Exit,
}

/// One thing a handler asks to have done. A handler's effects are performed in order.
#[derive(Debug, Clone, Copy, PartialEq, Eq, Structural)]
pub enum Effect {
    /// Hand the event at hand to every registered handler.
    ApplyEventHandlers,
    /// Write down where the window is, for the next run to come back to.
    PersistWindowState { id: WindowId },
    /// Report, once `patience` seconds have passed, that an attempt's time is up.
    StartReloadClock { id: WindowId, loss: u64, attempt: u32, patience: u64 },
    /// Have the window's document polled from the event loop.
    RequestPoll { id: WindowId },
    /// Do something to a window, or to the page in it.
    Window { id: WindowId, action: WindowAction },
}

/// What can be done to a window, or to the page in it.
#[derive(Debug, Clone, Copy, PartialEq, Eq, Structural)]
pub enum WindowAction {
    /// Keep the window above the others, or stop keeping it there.
    SetAlwaysOnTop { on_top: bool },
    /// Open the page's developer tools.
    OpenDevtools,
    /// Close the page's developer tools.
    CloseDevtools,
    /// Show the window, or hide it.
    SetVisible { visible: bool },
    /// Give the window the focus.
    SetFocus,
    /// Let go of the window and of the page in it.
    Discard,
    /// Lay the page out from the window's origin, in this size in physical pixels.
    SetBounds { width: u32, height: u32 },
    /// Say whether every navigation to the page is allowed.
    SetPageAwaited { awaited: bool },
    /// Say whether the page's load has begun.
    SetPageLoaded { loaded: bool },
    /// Forget the connection that the page which is gone never closed.
    ForgetConnection,
    /// Ask for the page to be loaded, from the address that [`WindowAction::url`] gives.
    LoadPage,
    /// Connect the edits to the page that has arrived.
    PageArrived,
    /// Build the whole document into the page that has arrived.
    RebuildIntoNewPage,
    /// Send the edits that have been queued.
    SendEdits,
    /// Put back what the document had put into the head.
    ReplayHeadElements,
    /// Poll the window's document until it is pending.
    PollDocument,
    /// Apply the changes of a hot reload to the window's document.
    ApplyChanges,
    /// Load the page's stylesheets again.
    KickStylesheets,
    /// Show a toast.
    ShowToast { toast: Toast },
}

impl WindowAction {
    /// The address that is loaded, by an action that loads one.
    pub fn url(&self) -> (url: Option<&'static str>)
        ensures
            (url is Some) == (*self is LoadPage),
            url is Some ==> url->0@ == "dioxus://index.html/"@,
    {
        match self {
            WindowAction::LoadPage => Some(PAGE_URL),
            _ => None,
        }
    }
}

/// The toasts a page may be asked to show.
#[derive(Debug, Clone, Copy, PartialEq, Eq, Structural)]
pub enum Toast {
    /// The running application was patched, in this many milliseconds.
    HotPatched { ms_elapsed: u64 },
    /// The application was rebuilt.
    Rebuilt,
    /// The application is being rebuilt.
    Rebuilding,
    /// The application could not be rebuilt.
    BuildFailed,
    /// The running application is being patched.
    HotPatching,
}

/// `ids` holds every window of `open`, each once. In which order is left open.
pub open spec fn lists_windows(ids: Seq<WindowId>, open: Set<WindowId>) -> bool {
    &&& ids.no_duplicates()
    &&& ids.to_set() == open
}

/// `action` for each of `ids` in turn.
pub open spec fn for_each(ids: Seq<WindowId>, action: WindowAction) -> Seq<Effect> {
    ids.map_values(|id: WindowId| Effect::Window { id, action })
}

/// For each of `ids` in turn, `first` and then `second`.
pub open spec fn for_each_both(
    ids: Seq<WindowId>,
    first: WindowAction,
    second: WindowAction,
) -> Seq<Effect> {
    Seq::new(
        2 * ids.len(),
        |i: int|
            Effect::Window {
                id: ids[i / 2],
                action: if i % 2 == 0 {
                    first
                } else {
                    second
                },
            },
    )
}

/// `effects` asks for `action` for every window of `open`, once each.
pub open spec fn once_for_each(
    effects: Seq<Effect>,
    open: Set<WindowId>,
    action: WindowAction,
) -> bool {
    exists|ids: Seq<WindowId>| #[trigger]
        lists_windows(ids, open) && effects == for_each(ids, action)
}

} // verus!

//! What each event does to an application, said of what was there before and what is there after.

use crate::app::{
    App, AppView, LaunchConfig, MouseButton, RendererState, TrayIconEvent, WindowCloseBehaviour,
};
use crate::effect::{ControlFlow, Effect, Toast, WindowAction, WindowId};
use crate::hot_reload::{DevserverMsg, HotReloadMsg};
use crate::platform::{Os, Target};
use vstd::prelude::*;

verus! {

/// Exactly one of `effects` is this one.
pub open spec fn once(effects: Seq<Effect>, effect: Effect) -> bool {
    exists|i: int|
        {
            &&& 0 <= i < effects.len()
            &&& #[trigger] effects[i] == effect
            &&& forall|j: int|
                0 <= j < effects.len() && #[trigger] effects[j] == effect ==> j == i
        }
}

/// One effect is asked for, and another after it.
pub open spec fn in_order(effects: Seq<Effect>, first: Effect, second: Effect) -> bool {
    exists|i: int, j: int|
        0 <= i < j < effects.len() && #[trigger] effects[i] == first && #[trigger] effects[j]
            == second
}

/// Every open window is asked for the same thing, once, and nothing else is asked for.
pub open spec fn all_windows(effects: Seq<Effect>, app: AppView, action: WindowAction) -> bool {
    &&& forall|id: WindowId| #[trigger]
        app.is_open(id) ==> once(effects, Effect::Window { id, action })
    &&& forall|i: int|
        0 <= i < effects.len() ==> (#[trigger] effects[i] matches Effect::Window {
            id,
            action: asked,
        } && app.is_open(id) && asked == action)
}

/// The windows, their pages and what is waited on in them are the same.
pub open spec fn same_windows(app: AppView, other: AppView) -> bool {
    &&& app.webviews == other.webviews
    &&& app.pending_reloads == other.pending_reloads
    &&& app.losses == other.losses
}

/// What the application was launched with, and what was chosen in its menu, is the same.
pub open spec fn same_settings(app: AppView, other: AppView) -> bool {
    &&& app.target == other.target
    &&& app.unmounted == other.unmounted
    &&& app.is_visible_before_start == other.is_visible_before_start
    &&& app.exit_on_last_window_close == other.exit_on_last_window_close
    &&& app.disable_dma_buf_on_wayland == other.disable_dma_buf_on_wayland
    &&& app.float_all == other.float_all
    &&& app.show_devtools == other.show_devtools
    &&& app.tray_icon_show_window_on_click == other.tray_icon_show_window_on_click
}

/// Every window but one is open in both or in neither, with the same page, and waited on alike.
pub open spec fn same_but_for(app: AppView, other: AppView, id: WindowId) -> bool {
    forall|w: WindowId|
        w != id ==> {
            &&& #[trigger] app.is_open(w) == other.is_open(w)
            &&& app.is_open(w) ==> app.webviews[w] == other.webviews[w]
            &&& app.pending_reloads.contains_key(w) == other.pending_reloads.contains_key(w)
            &&& app.pending_reloads.contains_key(w) ==> app.pending_reloads[w]
                == other.pending_reloads[w]
        }
}

/// Whether a window is shown once these effects have been performed, of one that was shown before
/// if `visible` says so.
pub open spec fn visible_after(visible: bool, effects: Seq<Effect>, id: WindowId) -> bool
    decreases effects.len(),
{
    if effects.len() == 0 {
        visible
    } else {
        match effects.last() {
            Effect::Window { id: shown, action: WindowAction::SetVisible { visible: now } }
                if shown == id => now,
            _ => visible_after(visible, effects.drop_last(), id),
        }
    }
}

/// These effects ask for the page in a window, as attempt `attempt` at recovering from `loss`.
///
/// By the time the page is asked for, every navigation to it is allowed, its load has not begun,
/// and the connection of the page that is gone is forgotten, so that what is sent next is kept for
/// the new page. Its time runs from there: eight seconds for the first six attempts, half a minute
/// for every other. Nothing else is asked for.
pub open spec fn asks_for_page(
    effects: Seq<Effect>,
    id: WindowId,
    loss: nat,
    attempt: int,
) -> bool {
    let awaited = Effect::Window { id, action: WindowAction::SetPageAwaited { awaited: true } };
    let not_begun = Effect::Window { id, action: WindowAction::SetPageLoaded { loaded: false } };
    let forget = Effect::Window { id, action: WindowAction::ForgetConnection };
    let load = Effect::Window { id, action: WindowAction::LoadPage };
    &&& effects.len() == 5
    &&& in_order(effects, awaited, not_begun)
    &&& in_order(effects, not_begun, forget)
    &&& in_order(effects, forget, load)
    &&& once(effects, load)
    &&& is_clock(effects.last(), id, loss, attempt)
}

/// This effect starts the clock of an attempt, with the attempt's patience.
pub open spec fn is_clock(effect: Effect, id: WindowId, loss: nat, attempt: int) -> bool {
    effect matches Effect::StartReloadClock { id: i, loss: l, attempt: a, patience } && {
        &&& i == id
        &&& l == loss
        &&& a == attempt
        &&& patience == if attempt <= 6 {
            8int
        } else {
            30int
        }
    }
}

/// A window is open in an application's view exactly where the application holds it, and is drawn
/// as the application has it; what is waited on in it is as the application has it too.
pub proof fn an_application_is_seen_as_it_is(app: App, id: WindowId)
    ensures
        app@.is_open(id) <==> app.webviews@.dom().contains(id),
        app@.webviews == app.webviews@,
        app@.pending_reloads == app.pending_reloads@,
        app@.losses == app.losses,
        app@.control_flow == app.control_flow,
        app@.target == app.target,
        app@.unmounted == app.unmounted,
        app@.is_visible_before_start == app.is_visible_before_start,
        app@.exit_on_last_window_close == app.exit_on_last_window_close,
        app@.disable_dma_buf_on_wayland == app.disable_dma_buf_on_wayland,
        app@.float_all == app.float_all,
        app@.show_devtools == app.show_devtools,
        app@.tray_icon_show_window_on_click == app.tray_icon_show_window_on_click,
{
}

/// A lost page is asked for at once, as the first attempt at a loss that has a number of its own.
/// A page lost in no open window is only counted.
pub proof fn a_lost_page_is_asked_for(app: AppView, id: WindowId)
    requires
        app.losses < u64::MAX,
    ensures
        app.lost(id).losses == app.losses + 1,
        app.is_open(id) ==> {
            &&& asks_for_page(app.lost_effects(id), id, app.losses + 1, 1)
            &&& app.lost(id).is_open(id)
            &&& app.lost(id).webviews[id] == RendererState::Replaced
            &&& app.lost(id).pending_reloads.contains_key(id)
            &&& app.lost(id).pending_reloads[id].loss == app.losses + 1
            &&& app.lost(id).pending_reloads[id].attempt == 1
            &&& app.lost(id).pending_reloads[id].begun_waits == 0
        },
        !app.is_open(id) ==> {
            &&& app.lost_effects(id).len() == 0
            &&& app.lost(id).webviews == app.webviews
            &&& app.lost(id).pending_reloads == app.pending_reloads
        },
        same_but_for(app, app.lost(id), id),
        same_settings(app, app.lost(id)),
        app.lost(id).control_flow == app.control_flow,
{
    if app.is_open(id) {
        loading_asks_for_page(app, id, (app.losses + 1) as u64, 1);
    }
}

proof fn loading_asks_for_page(app: AppView, id: WindowId, loss: u64, attempt: u32)
    requires
        app.is_open(id),
    ensures
        asks_for_page(app.loading_effects(id, loss as nat, attempt), id, loss as nat, attempt as int),
{
    let effects = app.loading_effects(id, loss as nat, attempt);
    assert(effects[0] == Effect::Window {
        id,
        action: WindowAction::SetPageAwaited { awaited: true },
    });
    assert(effects[1] == Effect::Window {
        id,
        action: WindowAction::SetPageLoaded { loaded: false },
    });
    assert(effects[2] == Effect::Window { id, action: WindowAction::ForgetConnection });
    assert(effects[3] == Effect::Window { id, action: WindowAction::LoadPage });
}

/// When the time of the attempt that is waited on is up, and its load has not been seen to begin or
/// has been waited on before, the page is asked for again, as the next attempt at the same loss.
/// The highest number stands for every attempt from there on.
pub proof fn an_attempt_that_failed_is_followed_by_another(
    app: AppView,
    id: WindowId,
    loss: u64,
    attempt: u32,
    page_loaded: bool,
)
    requires
        app.is_open(id),
        app.pending_reloads.contains_key(id),
        app.pending_reloads[id].loss == loss,
        app.pending_reloads[id].attempt == attempt,
        !page_loaded || app.pending_reloads[id].begun_waits > 0,
    ensures
        ({
            let after = app.due(id, loss, attempt, page_loaded);
            let next: int = if attempt < u32::MAX {
                attempt + 1
            } else {
                attempt as int
            };
            &&& asks_for_page(
                app.due_effects(id, loss, attempt, page_loaded),
                id,
                loss as nat,
                next,
            )
            &&& after.is_open(id)
            &&& after.webviews[id] == RendererState::Replaced
            &&& after.pending_reloads.contains_key(id)
            &&& after.pending_reloads[id].loss == loss
            &&& after.pending_reloads[id].attempt == next
            &&& after.pending_reloads[id].begun_waits == 0
        }),
{
    loading_asks_for_page(app, id, loss, crate::reload::next_attempt(attempt));
}

/// A load that has begun, and has not been waited on yet, is given its time once more rather than
/// asked for again: nothing but its clock is started, and the same attempt goes on being waited on.
pub proof fn a_begun_load_is_given_more_time(
    app: AppView,
    id: WindowId,
    loss: u64,
    attempt: u32,
)
    requires
        app.is_open(id),
        app.pending_reloads.contains_key(id),
        app.pending_reloads[id].loss == loss,
        app.pending_reloads[id].attempt == attempt,
        app.pending_reloads[id].begun_waits == 0,
    ensures
        ({
            let after = app.due(id, loss, attempt, true);
            let effects = app.due_effects(id, loss, attempt, true);
            &&& effects.len() == 1
            &&& is_clock(effects[0], id, loss as nat, attempt as int)
            &&& after.pending_reloads.contains_key(id)
            &&& after.pending_reloads[id].loss == loss
            &&& after.pending_reloads[id].attempt == attempt
            &&& after.pending_reloads[id].begun_waits == 1
            &&& after.webviews == app.webviews
        }),
{
}

/// A clock bears on no window but its own, and on nothing else; and where the window is not open,
/// or the attempt is not the one that is waited on, on nothing at all.
pub proof fn a_clock_bears_on_its_own_window(
    app: AppView,
    id: WindowId,
    loss: u64,
    attempt: u32,
    page_loaded: bool,
)
    ensures
        ({
            let after = app.due(id, loss, attempt, page_loaded);
            &&& same_but_for(app, after, id)
            &&& same_settings(app, after)
            &&& after.losses == app.losses
            &&& after.control_flow == app.control_flow
            &&& app.is_open(id) == after.is_open(id)
            &&& !app.is_open(id) || !app.pending_reloads.contains_key(id)
                || app.pending_reloads[id].loss != loss || app.pending_reloads[id].attempt
                != attempt ==> same_windows(app, after) && app.due_effects(
                id,
                loss,
                attempt,
                page_loaded,
            ).len() == 0
        }),
{
}

/// Waiting on pages is nothing but counting: neither the patience nor what is done depends on what
/// the application was built for or launched with.
pub proof fn pages_are_waited_on_alike_everywhere(
    app: AppView,
    other: AppView,
    id: WindowId,
    loss: u64,
    attempt: u32,
    page_loaded: bool,
)
    requires
        same_windows(app, other),
    ensures
        app.lost_effects(id) == other.lost_effects(id),
        same_windows(app.lost(id), other.lost(id)),
        app.due_effects(id, loss, attempt, page_loaded) == other.due_effects(
            id,
            loss,
            attempt,
            page_loaded,
        ),
        same_windows(
            app.due(id, loss, attempt, page_loaded),
            other.due(id, loss, attempt, page_loaded),
        ),
        same_windows(app.reported_in(id), other.reported_in(id)),
{
}

/// A page that has reported in is not navigated to any more, counts as loaded, and is given the
/// whole document and then what the document had put into the head, in this order; its window is
/// polled after that. On every system but Linux, where it was made as it is to be seen, the window
/// is made as visible as it was configured to be. Nothing else is asked for.
pub proof fn a_page_that_reports_in_is_built(app: AppView, id: WindowId)
    ensures
        ({
            let effects = app.reported_in_effects(id);
            let settled = Effect::Window {
                id,
                action: WindowAction::SetPageAwaited { awaited: false },
            };
            let loaded = Effect::Window { id, action: WindowAction::SetPageLoaded { loaded: true } };
            let arrived = Effect::Window { id, action: WindowAction::PageArrived };
            let rebuild = Effect::Window { id, action: WindowAction::RebuildIntoNewPage };
            let send = Effect::Window { id, action: WindowAction::SendEdits };
            let replay = Effect::Window { id, action: WindowAction::ReplayHeadElements };
            let poll = Effect::RequestPoll { id };
            &&& in_order(effects, settled, loaded)
            &&& in_order(effects, loaded, arrived)
            &&& in_order(effects, arrived, rebuild)
            &&& in_order(effects, rebuild, send)
            &&& in_order(effects, send, replay)
            &&& in_order(effects, replay, poll)
            &&& once(effects, rebuild)
            &&& effects.last() == poll
            &&& app.target.os == Os::Linux ==> effects.len() == 7
            &&& app.target.os != Os::Linux ==> {
                let shown = Effect::Window {
                    id,
                    action: WindowAction::SetVisible { visible: app.is_visible_before_start },
                };
                &&& effects.len() == 8
                &&& in_order(effects, replay, shown)
                &&& in_order(effects, shown, poll)
            }
        }),
{
    let effects = app.reported_in_effects(id);
    assert(effects[0] == Effect::Window {
        id,
        action: WindowAction::SetPageAwaited { awaited: false },
    });
    assert(effects[1] == Effect::Window {
        id,
        action: WindowAction::SetPageLoaded { loaded: true },
    });
    assert(effects[2] == Effect::Window { id, action: WindowAction::PageArrived });
    assert(effects[3] == Effect::Window { id, action: WindowAction::RebuildIntoNewPage });
    assert(effects[4] == Effect::Window { id, action: WindowAction::SendEdits });
    assert(effects[5] == Effect::Window { id, action: WindowAction::ReplayHeadElements });
    if app.target.os == Os::Linux {
        assert(effects[6] == Effect::RequestPoll { id });
    } else {
        assert(effects[6] == Effect::Window {
            id,
            action: WindowAction::SetVisible { visible: app.is_visible_before_start },
        });
        assert(effects[7] == Effect::RequestPoll { id });
    }
}

/// A page that has reported in is current and waited on no longer; nothing else changes.
pub proof fn a_page_that_reports_in_is_current(app: AppView, id: WindowId)
    ensures
        app.reported_in(id).is_open(id),
        app.reported_in(id).webviews[id] == RendererState::Current,
        !app.reported_in(id).pending_reloads.contains_key(id),
        same_but_for(app, app.reported_in(id), id),
        same_settings(app, app.reported_in(id)),
        app.reported_in(id).losses == app.losses,
        app.reported_in(id).control_flow == app.control_flow,
{
}

/// The first window is in the end as visible as the application was configured: whatever it was
/// made as, once its page has reported in it is shown if and only if that was asked for. Until
/// then it is not shown, except on Linux.
pub proof fn the_first_window_is_shown_as_configured(
    config: LaunchConfig,
    target: Target,
    id: WindowId,
)
    ensures
        ({
            let app = AppView::launched(config, target);
            let made = app.started().with_windows(seq![id]);
            let visible = app.start_window().visible;
            &&& visible ==> target.os == Os::Linux
            &&& visible_after(visible, made.reported_in_effects(id), id) == config.window.visible
        }),
{
    reveal_with_fuel(visible_after, 9);
}

/// However often its page is replaced, a window is shown as it was configured to be once the page
/// has reported in, on every system but Linux, where reporting in leaves it as it is.
pub proof fn reporting_in_shows_a_window_as_configured(app: AppView, visible: bool, id: WindowId)
    ensures
        visible_after(visible, app.reported_in_effects(id), id) == if app.target.os == Os::Linux {
            visible
        } else {
            app.is_visible_before_start
        },
{
    reveal_with_fuel(visible_after, 9);
}

/// Starting uses up how the first window is to be made, and remembers whether it is to be shown;
/// what was asked for of its place is handed on, and nothing else changes.
pub proof fn starting_makes_one_window(app: AppView)
    requires
        app.unmounted is Some,
    ensures
        app.started().unmounted is None,
        app.started().is_visible_before_start == app.unmounted->0.visible,
        app.start_window().explicit_inner_size == app.unmounted->0.explicit_inner_size,
        app.start_window().explicit_position == app.unmounted->0.explicit_position,
        app.start_window().visible <==> app.unmounted->0.visible && app.target.os == Os::Linux,
        same_windows(app, app.started()),
        app.started().control_flow == app.control_flow,
        same_settings(
            app,
            AppView {
                unmounted: app.unmounted,
                is_visible_before_start: app.is_visible_before_start,
                ..app.started()
            },
        ),
{
}

/// An application is launched as it was configured, with no window open, nothing lost, nothing
/// floating and no developer tools shown.
pub proof fn a_launched_application_is_as_configured(config: LaunchConfig, target: Target)
    ensures
        ({
            let app = AppView::launched(config, target);
            &&& app.target == target
            &&& app.unmounted == Some(config.window)
            &&& app.exit_on_last_window_close == config.exit_on_last_window_close
            &&& app.disable_dma_buf_on_wayland == config.disable_dma_buf_on_wayland
            &&& app.tray_icon_show_window_on_click == config.tray_icon_show_window_on_click
            &&& app.control_flow == ControlFlow::Wait
            &&& app.is_visible_before_start
            &&& !app.float_all
            &&& !app.show_devtools
            &&& app.losses == 0
            &&& forall|id: WindowId| !(#[trigger] app.is_open(id))
            &&& forall|id: WindowId| !(#[trigger] app.pending_reloads.contains_key(id))
        }),
{
}

/// Making windows closes none: every window that was open stays open, with its page as it was
/// unless it is one of those made, and those made are open with the page they were made with.
pub proof fn making_windows_closes_none(app: AppView, created: Seq<WindowId>)
    ensures
        ({
            let after = app.with_windows(created);
            &&& forall|id: WindowId| #[trigger]
                after.is_open(id) <==> app.is_open(id) || created.contains(id)
            &&& forall|id: WindowId|
                app.is_open(id) && !created.contains(id) ==> #[trigger] after.webviews[id]
                    == app.webviews[id]
            &&& forall|id: WindowId|
                created.contains(id) ==> #[trigger] after.webviews[id] == RendererState::Current
            &&& after.pending_reloads == app.pending_reloads
            &&& after.losses == app.losses
            &&& after.control_flow == app.control_flow
            &&& same_settings(app, after)
        }),
{
}

/// Each window that has been made is polled once, in the order of their being made.
pub proof fn windows_made_are_polled(app: AppView, created: Seq<WindowId>)
    ensures
        app.new_window_effects(created).len() == created.len(),
        forall|i: int|
            0 <= i < created.len() ==> #[trigger] app.new_window_effects(created)[i] == (
            Effect::RequestPoll { id: created[i] }),
{
}

/// Making windows in one go or one after the other comes to the same.
pub proof fn windows_may_be_made_one_after_the_other(
    app: AppView,
    first: Seq<WindowId>,
    then: Seq<WindowId>,
)
    ensures
        app.with_windows(first + then) == app.with_windows(first).with_windows(then),
        app.new_window_effects(first + then) == app.new_window_effects(first) + app.with_windows(
            first,
        ).new_window_effects(then),
{
    assert forall|id: WindowId|
        (first + then).contains(id) == (first.contains(id) || then.contains(id)) by {
        if first.contains(id) {
            assert((first + then)[first.index_of(id)] == id);
        }
        if then.contains(id) {
            assert((first + then)[first.len() + then.index_of(id)] == id);
        }
    }
    assert(app.with_windows(first + then) =~= app.with_windows(first).with_windows(then));
}

/// No window is open but, at most, this one.
pub open spec fn none_but(app: AppView, id: WindowId) -> bool {
    forall|other: WindowId| #[trigger] app.is_open(other) ==> other == id
}

/// A window that closes or is destroyed is not open any longer, and every other is as it was. If
/// it leaves no window open, the application is over, if it was launched so; otherwise it goes on
/// as it did. This is so on every system and in every build.
pub proof fn the_application_ends_with_its_last_window(app: AppView, id: WindowId)
    ensures
        !app.destroyed(id).is_open(id),
        same_but_for(app, app.destroyed(id), id),
        !app.destroyed(id).pending_reloads.contains_key(id),
        app.destroyed(id).losses == app.losses,
        same_settings(app, app.destroyed(id)),
        app.destroyed(id).control_flow == if app.exit_on_last_window_close && none_but(app, id) {
            ControlFlow::Exit
        } else {
            app.control_flow
        },
        app.is_open(id) ==> ({
            let closed = app.close_requested(id, WindowCloseBehaviour::WindowCloses);
            &&& !closed.is_open(id)
            &&& same_but_for(app, closed, id)
            &&& closed.pending_reloads == app.pending_reloads
            &&& closed.losses == app.losses
            &&& same_settings(app, closed)
            &&& closed.control_flow == app.destroyed(id).control_flow
        }),
{
    let left = app.webviews.remove(id);
    if none_but(app, id) {
        assert forall|other: WindowId| !left.contains_key(other) by {
            assert(app.is_open(other) ==> other == id);
        }
        assert(left.is_empty());
    } else {
        let other = choose|other: WindowId| #[trigger] app.is_open(other) && other != id;
        assert(left.contains_key(other));
    }
}

/// A window that only hides when it is asked to close is hidden and stays open; a window that is
/// not open is left alone. Either way the application is as it was.
pub proof fn hiding_closes_nothing(
    app: AppView,
    id: WindowId,
    close_behaviour: WindowCloseBehaviour,
    effects: Seq<Effect>,
)
    requires
        app.close_effects(id, close_behaviour, effects),
        close_behaviour == WindowCloseBehaviour::WindowHides || !app.is_open(id),
    ensures
        app.close_requested(id, close_behaviour) == app,
        effects.len() == if app.is_open(id) {
            1int
        } else {
            0int
        },
        app.is_open(id) ==> !visible_after(true, effects, id),
        forall|other: WindowId, visible: bool|
            other != id ==> #[trigger] visible_after(visible, effects, other) == visible,
{
    reveal_with_fuel(visible_after, 2);
}

/// A window that closes is let go of last. While the application is being developed, the place of
/// one of the windows that were open is written down first; otherwise nothing else is done.
pub proof fn a_window_that_closes_is_let_go_of(
    app: AppView,
    id: WindowId,
    effects: Seq<Effect>,
)
    requires
        app.is_open(id),
        app.close_effects(id, WindowCloseBehaviour::WindowCloses, effects),
    ensures
        effects.len() == if app.target.debug_assertions {
            2int
        } else {
            1int
        },
        effects.last() == (Effect::Window { id, action: WindowAction::Discard }),
        app.target.debug_assertions ==> (effects[0] matches Effect::PersistWindowState { id: saved }
            && app.is_open(saved)),
{
}

/// A window that is destroyed is let go of, if it was still held; nothing else is done.
pub proof fn a_window_that_is_destroyed_is_let_go_of(app: AppView, id: WindowId)
    ensures
        app.is_open(id) <==> app.destroyed_effects(id).len() == 1,
        app.is_open(id) <==> once(
            app.destroyed_effects(id),
            Effect::Window { id, action: WindowAction::Discard },
        ),
        !app.is_open(id) <==> app.destroyed_effects(id).len() == 0,
{
    if app.is_open(id) {
        assert(app.destroyed_effects(id)[0] == Effect::Window { id, action: WindowAction::Discard });
    }
}

/// A window that was let go of as it closed is not let go of again as it is destroyed.
pub proof fn a_window_is_let_go_of_once(app: AppView, id: WindowId)
    requires
        app.is_open(id),
    ensures
        app.close_requested(id, WindowCloseBehaviour::WindowCloses).destroyed_effects(id).len()
            == 0,
        app.destroyed(id).destroyed_effects(id).len() == 0,
{
}

/// The place of exactly one window, which is open, is written down while the application is being
/// developed, if any window is open. Otherwise nothing is done.
pub proof fn the_place_of_an_open_window_is_written_down(app: AppView, effects: Seq<Effect>)
    requires
        app.persist_effects(effects),
    ensures
        app.target.debug_assertions && (exists|id: WindowId| #[trigger] app.is_open(id))
            ==> effects.len() == 1 && (effects[0] matches Effect::PersistWindowState { id }
            && app.is_open(id)),
        !app.target.debug_assertions || (forall|id: WindowId| !(#[trigger] app.is_open(id)))
            ==> effects.len() == 0,
{
    if forall|id: WindowId| !(#[trigger] app.is_open(id)) {
        assert forall|id: WindowId| !app.webviews.contains_key(id) by {
            assert(!app.is_open(id));
        }
        assert(app.webviews.is_empty());
    } else {
        let id = choose|id: WindowId| #[trigger] app.is_open(id);
        assert(app.webviews.contains_key(id));
    }
}

/// Asking for the same thing of every open window asks each for it once, and no other.
proof fn once_for_each_is_all_windows(effects: Seq<Effect>, app: AppView, action: WindowAction)
    requires
        crate::effect::once_for_each(effects, app.webviews.dom(), action),
    ensures
        all_windows(effects, app, action),
{
    let ids = choose|ids: Seq<WindowId>| #[trigger]
        crate::effect::lists_windows(ids, app.webviews.dom()) && effects
            == crate::effect::for_each(ids, action);
    assert forall|id: WindowId| #[trigger] app.is_open(id) implies once(
        effects,
        Effect::Window { id, action },
    ) by {
        assert(ids.to_set().contains(id));
        let i = ids.index_of(id);
        assert(effects[i] == Effect::Window { id, action });
    }
    assert forall|i: int| 0 <= i < effects.len() implies (#[trigger] effects[i]
        matches Effect::Window { id, action: asked } && app.is_open(id) && asked == action) by {
        assert(ids.to_set().contains(ids[i]));
    }
}

/// A round of events begins by handing the event to the handlers, once, and with the loop waiting
/// after it, whatever the round before came to. Nothing else changes.
pub proof fn a_round_begins_by_waiting(app: AppView)
    ensures
        app.ticked().control_flow == ControlFlow::Wait,
        same_windows(app, app.ticked()),
        same_settings(app, app.ticked()),
        app.tick_effects().len() == 1,
        app.tick_effects()[0] == Effect::ApplyEventHandlers,
{
}

/// Choosing to float the windows puts each open window above the others or back among them, and the
/// next choice does the opposite. Nothing but that changes.
pub proof fn floating_is_chosen_by_turns(app: AppView, first: Seq<Effect>, then: Seq<Effect>)
    requires
        app.menu_effects("dioxus-float-top"@, first),
        app.menu_chosen("dioxus-float-top"@).menu_effects("dioxus-float-top"@, then),
    ensures
        ({
            let after = app.menu_chosen("dioxus-float-top"@);
            &&& all_windows(first, app, WindowAction::SetAlwaysOnTop { on_top: app.float_all })
            &&& all_windows(then, app, WindowAction::SetAlwaysOnTop { on_top: !app.float_all })
            &&& after.menu_chosen("dioxus-float-top"@) == app
            &&& same_windows(app, after)
            &&& after.control_flow == app.control_flow
            &&& same_settings(app, AppView { float_all: app.float_all, ..after })
        }),
{
    let after = app.menu_chosen("dioxus-float-top"@);
    once_for_each_is_all_windows(
        first,
        app,
        WindowAction::SetAlwaysOnTop { on_top: app.float_all },
    );
    once_for_each_is_all_windows(
        then,
        after,
        WindowAction::SetAlwaysOnTop { on_top: !app.float_all },
    );
    assert forall|id: WindowId| #[trigger] app.is_open(id) == after.is_open(id) by {}
}

/// Choosing the developer tools opens them in every open window if they are not shown, and closes
/// them if they are, so that every other choice opens them. Nothing but that changes.
pub proof fn devtools_are_chosen_by_turns(app: AppView, first: Seq<Effect>, then: Seq<Effect>)
    requires
        !app.show_devtools,
        app.menu_effects("dioxus-toggle-dev-tools"@, first),
        app.menu_chosen("dioxus-toggle-dev-tools"@).menu_effects("dioxus-toggle-dev-tools"@, then),
    ensures
        ({
            let after = app.menu_chosen("dioxus-toggle-dev-tools"@);
            &&& all_windows(first, app, WindowAction::OpenDevtools)
            &&& all_windows(then, app, WindowAction::CloseDevtools)
            &&& after.show_devtools
            &&& after.menu_chosen("dioxus-toggle-dev-tools"@) == app
            &&& same_windows(app, after)
            &&& after.control_flow == app.control_flow
            &&& same_settings(app, AppView { show_devtools: app.show_devtools, ..after })
        }),
{
    let after = app.menu_chosen("dioxus-toggle-dev-tools"@);
    menu_items_differ();
    once_for_each_is_all_windows(first, app, WindowAction::OpenDevtools);
    once_for_each_is_all_windows(then, after, WindowAction::CloseDevtools);
    assert forall|id: WindowId| #[trigger] app.is_open(id) == after.is_open(id) by {}
}

proof fn menu_items_differ()
    ensures
        "dioxus-float-top"@ != "dioxus-toggle-dev-tools"@,
{
    reveal_strlit("dioxus-float-top");
    reveal_strlit("dioxus-toggle-dev-tools");
    assert("dioxus-float-top"@.len() != "dioxus-toggle-dev-tools"@.len());
}

/// Every other item of the menu is somebody else's: nothing changes and nothing is done.
pub proof fn other_menu_items_do_nothing(app: AppView, item: Seq<char>, effects: Seq<Effect>)
    requires
        item != "dioxus-float-top"@,
        item != "dioxus-toggle-dev-tools"@,
        app.menu_effects(item, effects),
    ensures
        app.menu_chosen(item) == app,
        effects.len() == 0,
{
}

/// A click on the tray icon with the left button shows every open window and gives it the focus
/// after that, each once, if the application was launched so. Nothing else that happens to the
/// icon does anything.
pub proof fn the_tray_icon_brings_windows_to_the_front(
    app: AppView,
    event: TrayIconEvent,
    effects: Seq<Effect>,
)
    requires
        app.tray_icon_effects(event, effects),
    ensures
        app.tray_icon_show_window_on_click && (event matches TrayIconEvent::Click { button }
            && button == MouseButton::Left) ==> all_windows_both(
            effects,
            app,
            WindowAction::SetVisible { visible: true },
            WindowAction::SetFocus,
        ),
        !app.tray_icon_show_window_on_click || !(event matches TrayIconEvent::Click { button }
            && button == MouseButton::Left) ==> effects.len() == 0,
{
    if app.tray_icon_show_window_on_click && event == (TrayIconEvent::Click {
        button: MouseButton::Left,
    }) {
        let first = WindowAction::SetVisible { visible: true };
        let ids = choose|ids: Seq<WindowId>| #[trigger]
            crate::effect::lists_windows(ids, app.webviews.dom()) && effects
                == crate::effect::for_each_both(ids, first, WindowAction::SetFocus);
        for_each_both_is_all_windows(ids, app, first, WindowAction::SetFocus);
    }
}

/// Every open window is asked for one thing and, next, for another, each once, and nothing else is
/// asked for.
pub open spec fn all_windows_both(
    effects: Seq<Effect>,
    app: AppView,
    first: WindowAction,
    second: WindowAction,
) -> bool {
    &&& forall|id: WindowId| #[trigger]
        app.is_open(id) ==> {
            &&& once(effects, Effect::Window { id, action: first })
            &&& once(effects, Effect::Window { id, action: second })
            &&& one_after_the_other(effects, id, first, second)
        }
    &&& forall|i: int|
        0 <= i < effects.len() ==> (#[trigger] effects[i] matches Effect::Window { id, action }
            && app.is_open(id) && (action == first || action == second))
}

/// A window is asked for one thing and, with nothing between, for another.
pub open spec fn one_after_the_other(
    effects: Seq<Effect>,
    id: WindowId,
    first: WindowAction,
    second: WindowAction,
) -> bool {
    exists|i: int|
        {
            &&& 0 <= i < effects.len() - 1
            &&& #[trigger] effects[i] == (Effect::Window { id, action: first })
            &&& effects[i + 1] == (Effect::Window { id, action: second })
        }
}

proof fn for_each_both_is_all_windows(
    ids: Seq<WindowId>,
    app: AppView,
    first: WindowAction,
    second: WindowAction,
)
    requires
        crate::effect::lists_windows(ids, app.webviews.dom()),
        first != second,
    ensures
        all_windows_both(crate::effect::for_each_both(ids, first, second), app, first, second),
{
    let effects = crate::effect::for_each_both(ids, first, second);
    assert forall|id: WindowId| #[trigger] app.is_open(id) implies {
        &&& once(effects, Effect::Window { id, action: first })
        &&& once(effects, Effect::Window { id, action: second })
        &&& one_after_the_other(effects, id, first, second)
    } by {
        assert(ids.to_set().contains(id));
        let i: int = ids.index_of(id);
        assert(effects[2 * i] == Effect::Window { id, action: first });
        assert(effects[2 * i + 1] == Effect::Window { id, action: second });
        assert forall|j: int|
            0 <= j < effects.len() && #[trigger] effects[j] == (Effect::Window {
                id,
                action: first,
            }) implies j == 2 * i by {
            assert(ids[j / 2] == id);
        }
        assert forall|j: int|
            0 <= j < effects.len() && #[trigger] effects[j] == (Effect::Window {
                id,
                action: second,
            }) implies j == 2 * i + 1 by {
            assert(ids[j / 2] == id);
        }
    }
    assert forall|i: int| 0 <= i < effects.len() implies (#[trigger] effects[i]
        matches Effect::Window { id, action } && app.is_open(id) && (action == first || action
        == second)) by {
        assert(ids.to_set().contains(ids[i / 2]));
    }
}

/// A window that is open takes its new size; one that is not is left alone.
pub proof fn an_open_window_takes_its_size(app: AppView, id: WindowId, width: u32, height: u32)
    ensures
        app.is_open(id) ==> app.resize_effects(id, width, height).len() == 1 && app.resize_effects(
            id,
            width,
            height,
        )[0] == (Effect::Window { id, action: WindowAction::SetBounds { width, height } }),
        !app.is_open(id) ==> app.resize_effects(id, width, height).len() == 0,
{
}

/// The document of a window that is open is polled when it has work to do; that of one that is not
/// is left alone.
pub proof fn an_open_window_is_polled(app: AppView, id: WindowId)
    ensures
        app.is_open(id) ==> app.poll_effects(id).len() == 1 && app.poll_effects(id)[0] == (
        Effect::Window { id, action: WindowAction::PollDocument }),
        !app.is_open(id) ==> app.poll_effects(id).len() == 0,
{
}

/// An answer that could be read reaches the queries of a window that is open, as it is, and of no
/// other.
pub proof fn answers_reach_open_windows<R>(app: AppView, answer: R, id: WindowId)
    ensures
        app.is_open(id) ==> app.passed_on(Some(answer), id) == Some(answer),
        !app.is_open(id) ==> app.passed_on(Some(answer), id) is None,
        app.passed_on(None::<R>, id) is None,
{
}

/// The development server can end the application, and can do nothing else to it.
pub proof fn the_development_server_can_only_end_it(app: AppView, msg: DevserverMsg)
    ensures
        app.hot_reloaded(msg).control_flow == match msg {
            DevserverMsg::Shutdown => ControlFlow::Exit,
            _ => app.control_flow,
        },
        same_windows(app, app.hot_reloaded(msg)),
        same_settings(app, app.hot_reloaded(msg)),
{
}

/// What a hot reload patches: code of the build that is running.
pub open spec fn patches_this_build(changes: HotReloadMsg, build_id: u64) -> bool {
    changes.jump_table && (changes.for_build_id matches Some(patched) && patched == build_id)
}

/// Every open window takes the changes of a hot reload, once, and is polled next. If assets
/// changed, it loads its stylesheets again, once; and if the code of the running build was patched,
/// it says so, once.
pub proof fn every_open_window_takes_the_changes(
    app: AppView,
    changes: HotReloadMsg,
    build_id: u64,
    effects: Seq<Effect>,
    id: WindowId,
)
    requires
        crate::app::hot_reload_effects(
            effects,
            app.webviews.dom(),
            DevserverMsg::HotReload(changes),
            build_id,
        ),
        app.is_open(id),
    ensures
        once(effects, Effect::Window { id, action: WindowAction::ApplyChanges }),
        once(effects, Effect::Window { id, action: WindowAction::PollDocument }),
        one_after_the_other(effects, id, WindowAction::ApplyChanges, WindowAction::PollDocument),
        changes.assets@.len() > 0 ==> once(
            effects,
            Effect::Window { id, action: WindowAction::KickStylesheets },
        ),
        patches_this_build(changes, build_id) ==> once(
            effects,
            Effect::Window {
                id,
                action: WindowAction::ShowToast {
                    toast: Toast::HotPatched { ms_elapsed: changes.ms_elapsed },
                },
            },
        ),
{
    let ids = choose|ids: Seq<WindowId>| #[trigger]
        crate::effect::lists_windows(ids, app.webviews.dom()) && effects
            == crate::app::changes_effects(ids, changes, build_id);
    let n: int = ids.len() as int;
    let kicked: int = kicks(ids, changes);
    let toast = WindowAction::ShowToast {
        toast: Toast::HotPatched { ms_elapsed: changes.ms_elapsed },
    };
    assert(ids.to_set().contains(id));
    let i: int = ids.index_of(id);
    changes_effect_at(ids, changes, build_id, 2 * i);
    changes_effect_at(ids, changes, build_id, 2 * i + 1);
    changes_effect_at(ids, changes, build_id, 2 * n + i);
    changes_effect_at(ids, changes, build_id, 2 * n + kicked + i);
    assert forall|j: int| 0 <= j < effects.len() implies {
        &&& #[trigger] effects[j] == (Effect::Window { id, action: WindowAction::ApplyChanges })
            ==> j == 2 * i
        &&& effects[j] == (Effect::Window { id, action: WindowAction::PollDocument }) ==> j == 2 * i
            + 1
        &&& effects[j] == (Effect::Window { id, action: WindowAction::KickStylesheets }) ==> j == 2
            * n + i
        &&& effects[j] == (Effect::Window { id, action: toast }) ==> j == 2 * n + kicked + i
    } by {
        changes_effect_at(ids, changes, build_id, j);
    }
}

/// How many of the effects of a hot reload load stylesheets again.
spec fn kicks(ids: Seq<WindowId>, changes: HotReloadMsg) -> int {
    if changes.assets@.len() > 0 {
        ids.len() as int
    } else {
        0
    }
}

/// What stands where among the effects of a hot reload.
proof fn changes_effect_at(ids: Seq<WindowId>, changes: HotReloadMsg, build_id: u64, j: int)
    ensures
        ({
            let effects = crate::app::changes_effects(ids, changes, build_id);
            let n: int = ids.len() as int;
            let kicked: int = kicks(ids, changes);
            &&& effects.len() == 2 * n + kicked + if patches_this_build(changes, build_id) {
                n
            } else {
                0
            }
            &&& 0 <= j < 2 * n ==> effects[j] == (Effect::Window {
                id: ids[j / 2],
                action: if j % 2 == 0 {
                    WindowAction::ApplyChanges
                } else {
                    WindowAction::PollDocument
                },
            })
            &&& 2 * n <= j < 2 * n + kicked ==> effects[j] == (Effect::Window {
                id: ids[j - 2 * n],
                action: WindowAction::KickStylesheets,
            })
            &&& 2 * n + kicked <= j < effects.len() ==> effects[j] == (Effect::Window {
                id: ids[j - 2 * n - kicked],
                action: WindowAction::ShowToast {
                    toast: Toast::HotPatched { ms_elapsed: changes.ms_elapsed },
                },
            })
        }),
{
}

/// A hot reload asks for nothing but that, and of open windows only: stylesheets are loaded again
/// only if assets changed, only a patch of the running build is reported, and everything that
/// changes a document comes before everything that loads stylesheets, and that before anything is
/// reported.
pub proof fn a_hot_reload_does_nothing_else(
    app: AppView,
    changes: HotReloadMsg,
    build_id: u64,
    effects: Seq<Effect>,
    i: int,
)
    requires
        crate::app::hot_reload_effects(
            effects,
            app.webviews.dom(),
            DevserverMsg::HotReload(changes),
            build_id,
        ),
        0 <= i < effects.len(),
    ensures
        effects[i] matches Effect::Window { id, action } && app.is_open(id) && match action {
            WindowAction::ApplyChanges => true,
            WindowAction::PollDocument => true,
            WindowAction::KickStylesheets => changes.assets@.len() > 0,
            WindowAction::ShowToast { toast } => patches_this_build(changes, build_id) && toast == (
            Toast::HotPatched { ms_elapsed: changes.ms_elapsed }),
            _ => false,
        },
        forall|j: int|
            i < j < effects.len() ==> stage(effects[i]) <= stage(#[trigger] effects[j]),
{
    let ids = choose|ids: Seq<WindowId>| #[trigger]
        crate::effect::lists_windows(ids, app.webviews.dom()) && effects
            == crate::app::changes_effects(ids, changes, build_id);
    let n: int = ids.len() as int;
    let kicked: int = kicks(ids, changes);
    assert forall|j: int| 0 <= j < effects.len() implies {
        &&& #[trigger] effects[j] is Window
        &&& app.is_open(effects[j]->Window_id)
        &&& stage(effects[j]) == if j < 2 * n {
            0int
        } else if j < 2 * n + kicked {
            1
        } else {
            2
        }
    } by {
        changes_effect_at(ids, changes, build_id, j);
        let place: int = if j < 2 * n {
            j / 2
        } else if j < 2 * n + kicked {
            j - 2 * n
        } else {
            j - 2 * n - kicked
        };
        assert(ids.to_set().contains(ids[place]));
    }
    changes_effect_at(ids, changes, build_id, i);
}

/// Where in a hot reload an effect belongs: with the documents, with the stylesheets, or with what
/// is reported.
pub open spec fn stage(effect: Effect) -> int {
    match effect {
        Effect::Window { action: WindowAction::ApplyChanges, .. } => 0,
        Effect::Window { action: WindowAction::PollDocument, .. } => 0,
        Effect::Window { action: WindowAction::KickStylesheets, .. } => 1,
        _ => 2,
    }
}

/// How a rebuild or a patch is going is said in every open window, once, and in no other. Nothing
/// else the development server may report, but for changes, asks for anything.
pub proof fn every_open_window_is_told(
    app: AppView,
    msg: DevserverMsg,
    build_id: u64,
    effects: Seq<Effect>,
)
    requires
        crate::app::hot_reload_effects(effects, app.webviews.dom(), msg, build_id),
    ensures
        match msg {
            DevserverMsg::HotReload(_) => true,
            DevserverMsg::FullReloadCommand => all_windows(
                effects,
                app,
                WindowAction::ShowToast { toast: Toast::Rebuilt },
            ),
            DevserverMsg::FullReloadStart => all_windows(
                effects,
                app,
                WindowAction::ShowToast { toast: Toast::Rebuilding },
            ),
            DevserverMsg::FullReloadFailed => all_windows(
                effects,
                app,
                WindowAction::ShowToast { toast: Toast::BuildFailed },
            ),
            DevserverMsg::HotPatchStart => all_windows(
                effects,
                app,
                WindowAction::ShowToast { toast: Toast::HotPatching },
            ),
            DevserverMsg::Shutdown => effects.len() == 0,
            DevserverMsg::Other => effects.len() == 0,
        },
{
    let toast = match msg {
        DevserverMsg::FullReloadCommand => Toast::Rebuilt,
        DevserverMsg::FullReloadStart => Toast::Rebuilding,
        DevserverMsg::FullReloadFailed => Toast::BuildFailed,
        _ => Toast::HotPatching,
    };
    if msg is FullReloadCommand || msg is FullReloadStart || msg is FullReloadFailed
        || msg is HotPatchStart {
        once_for_each_is_all_windows(effects, app, WindowAction::ShowToast { toast });
    }
}

/// On Linux, an application that asked for it has its windows drawn through X11, and on a machine
/// with direct rendering in a Wayland session WebKitGTK is kept off its buffers too. This is done
/// by the first application in a process that asks. Anywhere else, for any other application and
/// for every later one, the environment is left as it is; so is every other variable, always.
pub proof fn dma_buf_variables_in_the_environment(
    app: AppView,
    done: bool,
    dri_exists: bool,
    session_type: Seq<char>,
    env: Map<Seq<char>, Seq<char>>,
)
    ensures
        ({
            let assignments = app.dma_buf_assignments(done, dri_exists, session_type);
            let after = crate::platform::environment_after(env, assignments);
            let asked = app.target.os == Os::Linux && app.disable_dma_buf_on_wayland;
            let kept_off = dri_exists && session_type == "wayland"@;
            &&& app.dma_buf_done_after(done) == (done || asked)
            &&& !asked || done ==> assignments.len() == 0 && after == env
            &&& asked && !done ==> {
                &&& assignments.len() == if kept_off {
                    2int
                } else {
                    1int
                }
                &&& after == if kept_off {
                    env.insert("WEBKIT_DISABLE_DMABUF_RENDERER"@, "1"@)
                } else {
                    env
                }.insert("GDK_BACKEND"@, "x11"@)
            }
        }),
{
    reveal_with_fuel(crate::platform::environment_after, 3);
    let assignments = app.dma_buf_assignments(done, dri_exists, session_type);
    if assignments.len() == 2 {
        assert(assignments.drop_last() == seq![("WEBKIT_DISABLE_DMABUF_RENDERER"@, "1"@)]);
        assert(assignments.drop_last().drop_last() == Seq::<(Seq<char>, Seq<char>)>::empty());
    } else if assignments.len() == 1 {
        assert(assignments.drop_last() == Seq::<(Seq<char>, Seq<char>)>::empty());
    }
}

} // verus!

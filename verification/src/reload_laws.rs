//! What holds of lost pages whatever happens, and in whatever order.
//!
//! The application is taken together with what its effects set going: the clocks that run, and
//! the windows in which every navigation to the page is allowed.

use crate::app::{AppView, RendererState};
use crate::effect::{Effect, WindowAction, WindowId};
use vstd::multiset::Multiset;
use vstd::prelude::*;

verus! {

broadcast use vstd::multiset::group_multiset_axioms;

/// A clock that runs for an attempt at recovering from a loss.
pub struct Clock {
    pub id: WindowId,
    pub loss: u64,
    pub attempt: u32,
}

/// An application, and what its effects have set going.
pub struct Running {
    pub app: AppView,
    /// The clocks that have not come due yet.
    pub clocks: Multiset<Clock>,
    /// The windows in which every navigation to the page is allowed.
    pub navigable: Set<WindowId>,
}

/// Something that bears on lost pages.
pub enum ReloadEvent {
    /// The page in a window was lost.
    Lost { id: WindowId },
    /// A clock came due. `page_loaded` says whether the load had been seen to begin.
    ClockDue { clock: Clock, page_loaded: bool },
    /// The page in a window reported in.
    ReportedIn { id: WindowId },
    /// A window was made.
    Created { id: WindowId },
    /// A window was closed.
    Closed { id: WindowId },
    /// A window was destroyed.
    Destroyed { id: WindowId },
    /// Anything that leaves the windows and what is waited on in them as they are.
    Unrelated { app: AppView },
}

/// A page in the window reported in, or the window was destroyed.
pub open spec fn ends_waiting(event: ReloadEvent, id: WindowId) -> bool {
    event == (ReloadEvent::ReportedIn { id }) || event == (ReloadEvent::Destroyed { id })
}

impl Running {
    /// Performs one effect.
    pub open spec fn perform(self, effect: Effect) -> Running {
        match effect {
            Effect::StartReloadClock { id, loss, attempt, .. } => Running {
                clocks: self.clocks.insert(Clock { id, loss, attempt }),
                ..self
            },
            Effect::Window { id, action: WindowAction::SetPageAwaited { awaited } } => Running {
                navigable: if awaited {
                    self.navigable.insert(id)
                } else {
                    self.navigable.remove(id)
                },
                ..self
            },
            _ => self,
        }
    }

    /// Performs effects in order.
    pub open spec fn perform_all(self, effects: Seq<Effect>) -> Running
        decreases effects.len(),
    {
        if effects.len() == 0 {
            self
        } else {
            self.perform_all(effects.drop_last()).perform(effects.last())
        }
    }

    /// An event can happen: only a clock that runs comes due, only a page in an open window
    /// reports in, no window is made under a number that is still waited on, and there is a number
    /// left for a loss.
    pub open spec fn can_happen(self, event: ReloadEvent) -> bool {
        match event {
            ReloadEvent::Lost { id } => self.app.losses < u64::MAX,
            ReloadEvent::ClockDue { clock, .. } => self.clocks.count(clock) > 0,
            ReloadEvent::ReportedIn { id } => self.app.is_open(id),
            ReloadEvent::Created { id } => !self.app.pending_reloads.contains_key(id),
            ReloadEvent::Closed { .. } => true,
            ReloadEvent::Destroyed { .. } => true,
            ReloadEvent::Unrelated { app } => {
                &&& app.webviews == self.app.webviews
                &&& app.pending_reloads == self.app.pending_reloads
                &&& app.losses == self.app.losses
            },
        }
    }

    /// What an event leaves behind, once what it asks for has been performed.
    pub open spec fn after(self, event: ReloadEvent) -> Running {
        match event {
            ReloadEvent::Lost { id } => (Running { app: self.app.lost(id), ..self }).perform_all(
                self.app.lost_effects(id),
            ),
            ReloadEvent::ClockDue { clock, page_loaded } => (Running {
                app: self.app.due(clock.id, clock.loss, clock.attempt, page_loaded),
                clocks: self.clocks.remove(clock),
                ..self
            }).perform_all(
                self.app.due_effects(clock.id, clock.loss, clock.attempt, page_loaded),
            ),
            ReloadEvent::ReportedIn { id } => (Running {
                app: self.app.reported_in(id),
                ..self
            }).perform_all(self.app.reported_in_effects(id)),
            ReloadEvent::Created { id } => Running {
                app: self.app.with_windows(seq![id]),
                ..self
            },
            ReloadEvent::Closed { id } => Running { app: self.app.without_window(id), ..self },
            ReloadEvent::Destroyed { id } => Running { app: self.app.destroyed(id), ..self },
            ReloadEvent::Unrelated { app } => Running { app, ..self },
        }
    }

    /// Events that can happen one after the other, the first of them here.
    pub open spec fn can_all_happen(self, events: Seq<ReloadEvent>) -> bool
        decreases events.len(),
    {
        events.len() == 0 || {
            &&& self.can_all_happen(events.drop_last())
            &&& self.after_all(events.drop_last()).can_happen(events.last())
        }
    }

    /// What events leave behind, one after the other.
    pub open spec fn after_all(self, events: Seq<ReloadEvent>) -> Running
        decreases events.len(),
    {
        if events.len() == 0 {
            self
        } else {
            self.after_all(events.drop_last()).after(events.last())
        }
    }

    /// Nothing has happened yet: no page has been lost, none is waited on, and no clock runs.
    pub open spec fn at_rest(self) -> bool {
        &&& self.app.pending_reloads == Map::<WindowId, crate::reload::PendingReload>::empty()
        &&& self.clocks == Multiset::<Clock>::empty()
        &&& forall|id: WindowId| #[trigger]
            self.app.is_open(id) ==> self.app.webviews[id] == RendererState::Current
    }

    /// Of these events, the one at `lost` is the loss of the page in a window that is then open,
    /// and none after it ends the waiting for that page.
    pub open spec fn lost_and_not_back(
        self,
        events: Seq<ReloadEvent>,
        lost: int,
        id: WindowId,
    ) -> bool {
        &&& 0 <= lost < events.len()
        &&& events[lost] == (ReloadEvent::Lost { id })
        &&& self.after_all(events.take(lost)).app.is_open(id)
        &&& forall|i: int| lost < i < events.len() ==> !ends_waiting(#[trigger] events[i], id)
    }

    /// The clock for the attempt that a window's page is waited on for.
    pub open spec fn awaited_clock(self, id: WindowId) -> Clock {
        Clock {
            id,
            loss: self.app.pending_reloads[id].loss,
            attempt: self.app.pending_reloads[id].attempt,
        }
    }

    /// What holds between any two events.
    pub open spec fn inv(self) -> bool {
        &&& self.app.wf()
        &&& forall|clock: Clock| #[trigger]
            self.clocks.count(clock) > 0 ==> {
                &&& clock.loss <= self.app.losses
                &&& self.app.pending_reloads.contains_key(clock.id)
                    && self.app.pending_reloads[clock.id].loss == clock.loss ==> clock.attempt
                    <= self.app.pending_reloads[clock.id].attempt
            }
        &&& forall|id: WindowId| #[trigger]
            self.app.is_open(id) && self.app.pending_reloads.contains_key(id) ==> {
                &&& self.clocks.count(self.awaited_clock(id)) == 1
                &&& self.navigable.contains(id)
            }
        &&& forall|id: WindowId| #[trigger]
            self.app.is_open(id) ==> (self.app.webviews[id] == RendererState::Replaced
                <==> self.app.pending_reloads.contains_key(id))
    }
}

/// Loading a page again starts one clock and allows every navigation.
proof fn loading_performed(
    running: Running,
    app: AppView,
    id: WindowId,
    loss: nat,
    attempt: u32,
)
    requires
        app.is_open(id),
    ensures
        running.perform_all(app.loading_effects(id, loss, attempt)) == (Running {
            clocks: running.clocks.insert(Clock { id, loss: loss as u64, attempt }),
            navigable: running.navigable.insert(id),
            ..running
        }),
{
    reveal_with_fuel(Running::perform_all, 6);
}

/// A page that reports in starts no clock, and leaves every other window as it is.
proof fn reported_in_performed(running: Running, app: AppView, id: WindowId)
    ensures
        running.perform_all(app.reported_in_effects(id)) == (Running {
            navigable: running.navigable.remove(id),
            ..running
        }),
{
    reveal_with_fuel(Running::perform_all, 9);
}

/// No event that can happen breaks the invariant.
proof fn inv_is_kept(running: Running, event: ReloadEvent)
    requires
        running.inv(),
        running.can_happen(event),
    ensures
        running.after(event).inv(),
{
    let app = running.app;
    let after = running.after(event);
    match event {
        ReloadEvent::Lost { id } => {
            if app.is_open(id) {
                loading_performed(
                    Running { app: app.lost(id), ..running },
                    app,
                    id,
                    app.losses + 1,
                    1,
                );
            }
        },
        ReloadEvent::ClockDue { clock, page_loaded } => {
            clock_due_keeps_inv(running, clock, page_loaded);
        },
        ReloadEvent::ReportedIn { id } => {
            reported_in_performed(Running { app: app.reported_in(id), ..running }, app, id);
        },
        _ => {},
    }
    assert forall|other: WindowId| #[trigger]
        after.app.is_open(other) && after.app.pending_reloads.contains_key(other) implies {
        &&& after.clocks.count(after.awaited_clock(other)) == 1
        &&& after.navigable.contains(other)
    } by {
        if !(event is ClockDue) && !(event matches ReloadEvent::Lost { id } && id == other) {
            assert(app.is_open(other));
        }
    }
    assert forall|other: WindowId| #[trigger] after.app.is_open(other) implies (
    after.app.webviews[other] == RendererState::Replaced
        <==> after.app.pending_reloads.contains_key(other)) by {
        if !(event is Created) && !(event is ClockDue) {
            assert(app.is_open(other));
        }
    }
}

proof fn clock_due_keeps_inv(running: Running, clock: Clock, page_loaded: bool)
    requires
        running.inv(),
        running.can_happen(ReloadEvent::ClockDue { clock, page_loaded }),
    ensures
        running.after(ReloadEvent::ClockDue { clock, page_loaded }).inv(),
{
    let app = running.app;
    let id = clock.id;
    let after = running.after(ReloadEvent::ClockDue { clock, page_loaded });
    let base = Running {
        app: app.due(id, clock.loss, clock.attempt, page_loaded),
        clocks: running.clocks.remove(clock),
        ..running
    };
    let awaited = app.is_awaited(id, clock.loss, clock.attempt);
    if awaited && app.waits_on(id, page_loaded) {
        reveal_with_fuel(Running::perform_all, 2);
    } else if awaited && app.is_open(id) {
        loading_performed(
            base,
            app,
            id,
            clock.loss as nat,
            crate::reload::next_attempt(clock.attempt),
        );
    }
    assert forall|other: WindowId| #[trigger]
        after.app.is_open(other) && after.app.pending_reloads.contains_key(
            other,
        ) implies after.clocks.count(after.awaited_clock(other)) == 1 && after.navigable.contains(
        other,
    ) by {
        assert(app.is_open(other));
    }
    assert forall|other: WindowId| #[trigger] after.app.is_open(other) implies (
    after.app.webviews[other] == RendererState::Replaced
        <==> after.app.pending_reloads.contains_key(other)) by {
        assert(app.is_open(other));
    }
}

/// However windows come and go, and whenever pages are lost and report in: while the page in an
/// open window is waited on, exactly one clock runs for the attempt that is waited on, so it is
/// always asked for again and never asked for twice over; and every navigation to the page is
/// allowed.
pub proof fn an_awaited_page_has_one_clock(
    start: Running,
    events: Seq<ReloadEvent>,
    id: WindowId,
)
    requires
        start.at_rest(),
        start.can_all_happen(events),
        start.after_all(events).app.is_open(id),
        start.after_all(events).app.pending_reloads.contains_key(id),
    ensures
        start.after_all(events).clocks.count(start.after_all(events).awaited_clock(id)) == 1,
        start.after_all(events).navigable.contains(id),
{
    every_event_keeps_inv(start, events);
}

/// Between any two events the counts and the clocks agree.
proof fn every_event_keeps_inv(start: Running, events: Seq<ReloadEvent>)
    requires
        start.at_rest(),
        start.can_all_happen(events),
    ensures
        start.after_all(events).inv(),
    decreases events.len(),
{
    if events.len() > 0 {
        every_event_keeps_inv(start, events.drop_last());
        inv_is_kept(start.after_all(events.drop_last()), events.last());
    }
}

/// At any time, the windows whose page is waited on are, of those that are open, exactly those in
/// which a page has been replaced and the new one not been heard from.
pub proof fn a_page_is_awaited_where_it_was_replaced(
    start: Running,
    events: Seq<ReloadEvent>,
    id: WindowId,
)
    requires
        start.at_rest(),
        start.can_all_happen(events),
        start.after_all(events).app.is_open(id),
    ensures
        start.after_all(events).app.pending_reloads.contains_key(id) <==> start.after_all(
            events,
        ).app.webviews[id] == RendererState::Replaced,
{
    every_event_keeps_inv(start, events);
}

/// Performing effects leaves the application itself as it is.
proof fn performing_leaves_app(running: Running, effects: Seq<Effect>)
    ensures
        running.perform_all(effects).app == running.app,
    decreases effects.len(),
{
    if effects.len() > 0 {
        performing_leaves_app(running, effects.drop_last());
    }
}

/// What an event leaves the application as, before anything it asks for is performed, is what it
/// leaves it as.
proof fn app_after(running: Running, event: ReloadEvent)
    ensures
        running.after(event).app == match event {
            ReloadEvent::Lost { id } => running.app.lost(id),
            ReloadEvent::ClockDue { clock, page_loaded } => running.app.due(
                clock.id,
                clock.loss,
                clock.attempt,
                page_loaded,
            ),
            ReloadEvent::ReportedIn { id } => running.app.reported_in(id),
            ReloadEvent::Created { id } => running.app.with_windows(seq![id]),
            ReloadEvent::Closed { id } => running.app.without_window(id),
            ReloadEvent::Destroyed { id } => running.app.destroyed(id),
            ReloadEvent::Unrelated { app } => app,
        },
{
    match event {
        ReloadEvent::Lost { id } => {
            performing_leaves_app(
                Running { app: running.app.lost(id), ..running },
                running.app.lost_effects(id),
            );
        },
        ReloadEvent::ClockDue { clock, page_loaded } => {
            performing_leaves_app(
                Running {
                    app: running.app.due(clock.id, clock.loss, clock.attempt, page_loaded),
                    clocks: running.clocks.remove(clock),
                    ..running
                },
                running.app.due_effects(clock.id, clock.loss, clock.attempt, page_loaded),
            );
        },
        ReloadEvent::ReportedIn { id } => {
            performing_leaves_app(
                Running { app: running.app.reported_in(id), ..running },
                running.app.reported_in_effects(id),
            );
        },
        _ => {},
    }
}

/// A page comes to be waited on by a loss in an open window, and goes on being waited on unless a
/// page in its window reports in or its window is destroyed.
proof fn awaited_after(running: Running, event: ReloadEvent, id: WindowId)
    requires
        running.can_happen(event),
    ensures
        running.after(event).app.pending_reloads.contains_key(id) <==> {
            ||| event == (ReloadEvent::Lost { id }) && running.app.is_open(id)
            ||| running.app.pending_reloads.contains_key(id) && !ends_waiting(event, id)
        },
{
    app_after(running, event);
}

/// From the moment a page in an open window is found lost it is waited on, whatever else happens,
/// until a page in that window reports in or the window is destroyed.
pub proof fn a_lost_page_is_awaited_until_it_reports_in(
    start: Running,
    events: Seq<ReloadEvent>,
    lost: int,
    id: WindowId,
)
    requires
        start.can_all_happen(events),
        start.lost_and_not_back(events, lost, id),
    ensures
        start.after_all(events).app.pending_reloads.contains_key(id),
    decreases events.len(),
{
    let before = events.drop_last();
    awaited_after(start.after_all(before), events.last(), id);
    if lost < events.len() - 1 {
        assert(before.take(lost) == events.take(lost));
        a_lost_page_is_awaited_until_it_reports_in(start, before, lost, id);
    }
}

/// A page is waited on for no other reason: one that is waited on was found lost, in a window that
/// was open, and since then no page in that window has reported in and the window has not been
/// destroyed.
pub proof fn an_awaited_page_was_lost(start: Running, events: Seq<ReloadEvent>, id: WindowId)
    requires
        start.at_rest(),
        start.can_all_happen(events),
        start.after_all(events).app.pending_reloads.contains_key(id),
    ensures
        exists|lost: int| start.lost_and_not_back(events, lost, id),
    decreases events.len(),
{
    if events.len() > 0 {
        let before = events.drop_last();
        let running = start.after_all(before);
        let last: int = events.len() - 1;
        awaited_after(running, events.last(), id);
        if events.last() == (ReloadEvent::Lost { id }) && running.app.is_open(id) {
            assert(start.lost_and_not_back(events, last, id));
        } else {
            an_awaited_page_was_lost(start, before, id);
            let lost: int = choose|lost: int| start.lost_and_not_back(before, lost, id);
            assert(before.take(lost) == events.take(lost));
            assert(start.lost_and_not_back(events, lost, id)) by {
                assert forall|i: int| lost < i < events.len() implies !ends_waiting(
                    #[trigger] events[i],
                    id,
                ) by {
                    if i < last {
                        assert(before[i] == events[i]);
                    }
                }
            }
        }
    }
}

/// The asking never stops: when the time of the attempt that an open window's page is waited on
/// for is up, the page goes on being waited on, and the last thing asked for is a clock for the
/// attempt that is then waited on, with that attempt's patience.
pub proof fn the_asking_never_stops(
    app: AppView,
    id: WindowId,
    loss: u64,
    attempt: u32,
    page_loaded: bool,
)
    requires
        app.is_open(id),
        app.is_awaited(id, loss, attempt),
    ensures
        ({
            let after = app.due(id, loss, attempt, page_loaded);
            let pending = after.pending_reloads[id];
            &&& after.is_open(id)
            &&& after.pending_reloads.contains_key(id)
            &&& app.due_effects(id, loss, attempt, page_loaded).last()
                == (Effect::StartReloadClock {
                id,
                loss: pending.loss,
                attempt: pending.attempt,
                patience: crate::reload::patience(pending.attempt),
            })
        }),
{
}

/// A load that has begun is waited on once and no more: when its time is up again, the page is
/// asked for again, as the next attempt at the same loss.
pub proof fn a_begun_load_is_waited_on_once(
    app: AppView,
    id: WindowId,
    loss: u64,
    attempt: u32,
    page_loaded: bool,
)
    requires
        app.is_awaited(id, loss, attempt),
        app.waits_on(id, true),
    ensures
        ({
            let waiting = app.due(id, loss, attempt, true);
            &&& waiting.is_awaited(id, loss, attempt)
            &&& waiting.due(id, loss, attempt, page_loaded) == waiting.loading(
                id,
                loss as nat,
                crate::reload::next_attempt(attempt),
            )
            &&& waiting.due_effects(id, loss, attempt, page_loaded).contains(
                Effect::Window { id, action: WindowAction::LoadPage },
            )
        }),
{
}

/// A clock that is not the one for the attempt being waited on changes nothing and asks for
/// nothing.
pub proof fn a_stale_clock_changes_nothing(
    app: AppView,
    id: WindowId,
    loss: u64,
    attempt: u32,
    page_loaded: bool,
)
    requires
        !app.is_awaited(id, loss, attempt),
    ensures
        app.due(id, loss, attempt, page_loaded) == app,
        app.due_effects(id, loss, attempt, page_loaded) == Seq::<Effect>::empty(),
{
}

/// A clock started for one loss is never mistaken for a clock started for a later one: once a page
/// in an open window is lost afresh, no clock of an earlier loss, of whatever attempt, is for what
/// is waited on.
pub proof fn a_fresh_loss_outdates_every_clock(
    app: AppView,
    id: WindowId,
    loss: u64,
    attempt: u32,
)
    requires
        app.is_open(id),
        app.losses < u64::MAX,
        loss <= app.losses,
    ensures
        app.lost(id).is_awaited(id, (app.losses + 1) as u64, 1),
        !app.lost(id).is_awaited(id, loss, attempt),
{
}

/// A page that has reported in, and a page whose window is gone, is not asked for again by any
/// clock still running.
pub proof fn a_page_that_is_back_is_left_alone(
    app: AppView,
    id: WindowId,
    loss: u64,
    attempt: u32,
)
    ensures
        !app.reported_in(id).is_awaited(id, loss, attempt),
        !app.destroyed(id).is_awaited(id, loss, attempt),
{
}

/// What happens to one window's page bears on no other's: a loss, a clock that comes due or a page
/// that reports in leaves every other window's page waited on as it was.
pub proof fn windows_do_not_bear_on_each_other(
    app: AppView,
    id: WindowId,
    other: WindowId,
    loss: u64,
    attempt: u32,
    page_loaded: bool,
)
    requires
        id != other,
    ensures
        forall|l: u64, a: u32|
            #![trigger app.is_awaited(other, l, a)]
            {
                &&& app.lost(id).is_awaited(other, l, a) == app.is_awaited(other, l, a)
                &&& app.due(id, loss, attempt, page_loaded).is_awaited(other, l, a)
                    == app.is_awaited(other, l, a)
                &&& app.reported_in(id).is_awaited(other, l, a) == app.is_awaited(other, l, a)
                &&& app.destroyed(id).is_awaited(other, l, a) == app.is_awaited(other, l, a)
            },
{
}

/// Every clock that runs is for a loss that has been numbered, so a page lost afresh leaves no clock
/// running that could be taken for its own.
pub proof fn no_running_clock_survives_a_fresh_loss(
    start: Running,
    events: Seq<ReloadEvent>,
    clock: Clock,
    id: WindowId,
)
    requires
        start.at_rest(),
        start.can_all_happen(events),
        start.after_all(events).clocks.count(clock) > 0,
    ensures
        clock.loss <= start.after_all(events).app.losses,
        start.after_all(events).app.is_open(id) && start.after_all(events).app.losses < u64::MAX
            ==> !start.after_all(events).app.lost(id).is_awaited(id, clock.loss, clock.attempt),
{
    every_event_keeps_inv(start, events);
}

/// Performing what a lost page asks for makes no other window's page navigable.
proof fn only_awaiting_makes_navigable(running: Running, event: ReloadEvent, id: WindowId)
    requires
        running.can_happen(event),
        event != (ReloadEvent::Lost { id }),
        !running.app.pending_reloads.contains_key(id),
        !running.navigable.contains(id),
    ensures
        !running.after(event).app.pending_reloads.contains_key(id),
        !running.after(event).navigable.contains(id),
{
    let app = running.app;
    match event {
        ReloadEvent::Lost { id: lost } => {
            if app.is_open(lost) {
                loading_performed(
                    Running { app: app.lost(lost), ..running },
                    app,
                    lost,
                    app.losses + 1,
                    1,
                );
            }
        },
        ReloadEvent::ClockDue { clock, page_loaded } => {
            let base = Running {
                app: app.due(clock.id, clock.loss, clock.attempt, page_loaded),
                clocks: running.clocks.remove(clock),
                ..running
            };
            if app.is_awaited(clock.id, clock.loss, clock.attempt) {
                if app.waits_on(clock.id, page_loaded) {
                    reveal_with_fuel(Running::perform_all, 2);
                } else if app.is_open(clock.id) {
                    loading_performed(
                        base,
                        app,
                        clock.id,
                        clock.loss as nat,
                        crate::reload::next_attempt(clock.attempt),
                    );
                }
            }
        },
        ReloadEvent::ReportedIn { id: back } => {
            reported_in_performed(Running { app: app.reported_in(back), ..running }, app, back);
        },
        _ => {},
    }
}

/// A page that is back may load again only once it is lost again: after it has reported in, and as
/// long as it is not lost, it is not waited on and navigations to it are not all allowed, whatever
/// else happens.
pub proof fn a_page_that_is_back_is_navigable_only_once_lost(
    start: Running,
    events: Seq<ReloadEvent>,
    back: int,
    id: WindowId,
)
    requires
        start.can_all_happen(events),
        0 <= back < events.len(),
        events[back] == (ReloadEvent::ReportedIn { id }),
        forall|i: int| back < i < events.len() ==> events[i] != (ReloadEvent::Lost { id }),
    ensures
        !start.after_all(events).app.pending_reloads.contains_key(id),
        !start.after_all(events).navigable.contains(id),
    decreases events.len(),
{
    let before = events.drop_last();
    let running = start.after_all(before);
    if back == events.len() - 1 {
        reported_in_performed(
            Running { app: running.app.reported_in(id), ..running },
            running.app,
            id,
        );
    } else {
        a_page_that_is_back_is_navigable_only_once_lost(start, before, back, id);
        only_awaiting_makes_navigable(running, events.last(), id);
    }
}

} // verus!

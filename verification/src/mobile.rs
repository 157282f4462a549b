//! How an application starts on a platform that starts it from outside.
//!
//! There the platform sets up a context, and may do so before or after the application's own
//! thread is running; the application's `main` is looked up by name, and may only run once the
//! context is there.

use crate::platform::{Os, Target};
use vstd::prelude::*;

verus! {

/// What holds an application back until the platform's context is there.
#[derive(Debug)]
pub struct StartupBarrier {
    ready: bool,
}

impl StartupBarrier {
    /// Whether the platform's context is there.
    pub closed spec fn is_ready(&self) -> bool {
        self.ready
    }

    pub fn new() -> (barrier: StartupBarrier)
        ensures
            !barrier.is_ready(),
    {
        StartupBarrier { ready: false }
    }

    /// The platform's context is there, and is from here on.
    pub fn mark_ready(&mut self)
        ensures
            final(self).is_ready(),
    {
        self.ready = true;
    }

    /// Whether whoever waits may go on. One who may not is asked to wait and try again; one who
    /// may goes on at once, however often it comes back.
    pub fn wait(&self) -> (released: bool)
        ensures
            released == self.is_ready(),
    {
        self.ready
    }
}

/// One step in setting an activity up.
#[derive(Debug, Clone, Copy, PartialEq, Eq, Structural)]
pub enum SetupStep {
    /// Hand the platform's context to whoever asks for it.
    InitializeContext,
    /// Let the application go on.
    MarkReady,
    /// Set the webview up.
    SetUpWebview,
}

/// Whether the platform's context has been handed over. That can be done once in a process, while
/// an activity is set up again whenever it is created again.
#[derive(Debug)]
pub struct AndroidContext {
    initialized: bool,
}

/// The steps of setting an activity up.
pub open spec fn setup_steps(initialized: bool) -> Seq<SetupStep> {
    (if initialized {
        seq![]
    } else {
        seq![SetupStep::InitializeContext]
    }) + seq![SetupStep::MarkReady, SetupStep::SetUpWebview]
}

impl AndroidContext {
    pub closed spec fn is_initialized(&self) -> bool {
        self.initialized
    }

    pub fn new() -> (context: AndroidContext)
        ensures
            !context.is_initialized(),
    {
        AndroidContext { initialized: false }
    }

    /// An activity has been created.
    pub fn android_setup(&mut self) -> (steps: Vec<SetupStep>)
        ensures
            final(self).is_initialized(),
            steps@ == setup_steps(old(self).is_initialized()),
    {
        let mut steps: Vec<SetupStep> = Vec::new();
        if !self.initialized {
            self.initialized = true;
            steps.push(SetupStep::InitializeContext);
        }
        steps.push(SetupStep::MarkReady);
        steps.push(SetupStep::SetUpWebview);
        steps
    }
}

/// The names under which an application's `main` may be found.
#[derive(Debug, Clone, Copy, PartialEq, Eq, Structural)]
pub enum MainSymbol {
    Main,
    UnderscoredMain,
}

impl MainSymbol {
    pub open spec fn spelling(self) -> Seq<char> {
        match self {
            MainSymbol::Main => "main"@,
            MainSymbol::UnderscoredMain => "_main"@,
        }
    }

    /// The name as it is looked up.
    pub fn name(&self) -> (name: &'static str)
        ensures
            name@ == self.spelling(),
    {
        match self {
            MainSymbol::Main => "main",
            MainSymbol::UnderscoredMain => "_main",
        }
    }
}

/// How far an application has come in starting.
#[derive(Debug, Clone, Copy, PartialEq, Eq, Structural)]
pub enum LaunchStep {
    /// The platform's context is waited for.
    AwaitContext,
    /// `main` is looked up.
    LookUp { symbol: MainSymbol },
    /// The variables the launcher left are set.
    LoadSessionEnv { symbol: MainSymbol },
    /// `main` is run.
    RunMain { symbol: MainSymbol },
    /// `main` has returned, and the application is over.
    Done,
    /// The process is aborted. Nothing unwinds into the platform, which could not take it.
    Abort { cause: AbortCause },
}

/// Why a process is aborted.
#[derive(Debug, Clone, Copy, PartialEq, Eq, Structural)]
pub enum AbortCause {
    /// There is no `main`, under either of its names.
    NoMain,
    /// A step panicked.
    Unwound,
}

/// What may come of a step.
#[derive(Debug, Clone, Copy, PartialEq, Eq, Structural)]
pub enum LaunchEvent {
    /// The platform's context is there.
    ContextReady,
    /// A name was looked up.
    LookedUp { found: bool },
    /// The variables have been set.
    SessionEnvLoaded,
    /// `main` has returned.
    MainReturned,
    /// The step panicked, and its unwinding was stopped.
    Unwound,
}

/// Whether a build takes variables that a launcher left: while it is being developed, on Android,
/// where there is no other way of handing them over.
pub open spec fn loads_session_env(target: Target) -> bool {
    target.os == Os::Android && target.debug_assertions
}

/// The step after this one, once this has come of it. What cannot come of a step changes nothing.
pub open spec fn next_step(target: Target, step: LaunchStep, event: LaunchEvent) -> LaunchStep {
    match (step, event) {
        (LaunchStep::AwaitContext, LaunchEvent::ContextReady) => LaunchStep::LookUp {
            symbol: MainSymbol::Main,
        },
        (LaunchStep::LookUp { symbol }, LaunchEvent::LookedUp { found }) => if found {
            if loads_session_env(target) {
                LaunchStep::LoadSessionEnv { symbol }
            } else {
                LaunchStep::RunMain { symbol }
            }
        } else if symbol == MainSymbol::Main {
            LaunchStep::LookUp { symbol: MainSymbol::UnderscoredMain }
        } else {
            LaunchStep::Abort { cause: AbortCause::NoMain }
        },
        (
            LaunchStep::LoadSessionEnv { symbol },
            LaunchEvent::SessionEnvLoaded,
        ) => LaunchStep::RunMain { symbol },
        (LaunchStep::RunMain { .. }, LaunchEvent::MainReturned) => LaunchStep::Done,
        (LaunchStep::Done, _) => step,
        (LaunchStep::Abort { .. }, _) => step,
        (_, LaunchEvent::Unwound) => LaunchStep::Abort { cause: AbortCause::Unwound },
        _ => step,
    }
}

/// Starts an application: says what is to be done next, once something has come of a step.
pub fn start_app(target: Target, step: LaunchStep, event: LaunchEvent) -> (next: LaunchStep)
    ensures
        next == next_step(target, step, event),
{
    match (step, event) {
        (LaunchStep::AwaitContext, LaunchEvent::ContextReady) => LaunchStep::LookUp {
            symbol: MainSymbol::Main,
        },
        (LaunchStep::LookUp { symbol }, LaunchEvent::LookedUp { found }) => if found {
            if target.os == Os::Android && target.debug_assertions {
                LaunchStep::LoadSessionEnv { symbol }
            } else {
                LaunchStep::RunMain { symbol }
            }
        } else if symbol == MainSymbol::Main {
            LaunchStep::LookUp { symbol: MainSymbol::UnderscoredMain }
        } else {
            LaunchStep::Abort { cause: AbortCause::NoMain }
        },
        (
            LaunchStep::LoadSessionEnv { symbol },
            LaunchEvent::SessionEnvLoaded,
        ) => LaunchStep::RunMain { symbol },
        (LaunchStep::RunMain { .. }, LaunchEvent::MainReturned) => LaunchStep::Done,
        (LaunchStep::Done, _) => step,
        (LaunchStep::Abort { .. }, _) => step,
        (_, LaunchEvent::Unwound) => LaunchStep::Abort { cause: AbortCause::Unwound },
        _ => step,
    }
}

/// How far an application has come once these things have happened, one after the other.
pub open spec fn launched(target: Target, events: Seq<LaunchEvent>) -> LaunchStep
    decreases events.len(),
{
    if events.len() == 0 {
        LaunchStep::AwaitContext
    } else {
        next_step(target, launched(target, events.drop_last()), events.last())
    }
}

/// Startup waits for the platform's context: whatever happens, nothing is looked up, set or run
/// before the context is there. All that can come of the waiting is a panic.
pub proof fn startup_waits_for_the_context(target: Target, events: Seq<LaunchEvent>)
    requires
        !events.contains(LaunchEvent::ContextReady),
    ensures
        launched(target, events) == LaunchStep::AwaitContext || launched(target, events) == (
        LaunchStep::Abort { cause: AbortCause::Unwound }),
    decreases events.len(),
{
    if events.len() > 0 {
        let before = events.drop_last();
        assert(!before.contains(LaunchEvent::ContextReady));
        startup_waits_for_the_context(target, before);
    }
}

/// The symbol that a step is about.
pub open spec fn symbol_of(step: LaunchStep) -> Option<MainSymbol> {
    match step {
        LaunchStep::LookUp { symbol } => Some(symbol),
        LaunchStep::LoadSessionEnv { symbol } => Some(symbol),
        LaunchStep::RunMain { symbol } => Some(symbol),
        _ => None,
    }
}

/// `main` is looked up as `_main` only if it is missing as `main`; it runs only once it has been
/// found; and a build that takes the launcher's variables runs it only once they are set.
pub proof fn main_runs_only_when_found(target: Target, events: Seq<LaunchEvent>)
    ensures
        symbol_of(launched(target, events)) == Some(MainSymbol::UnderscoredMain)
            ==> events.contains(LaunchEvent::LookedUp { found: false }),
        launched(target, events) is LoadSessionEnv || launched(target, events) is RunMain
            || launched(target, events) is Done ==> events.contains(
            LaunchEvent::LookedUp { found: true },
        ),
        (launched(target, events) is RunMain || launched(target, events) is Done)
            && loads_session_env(target) ==> events.contains(LaunchEvent::SessionEnvLoaded),
    decreases events.len(),
{
    if events.len() > 0 {
        let before = events.drop_last();
        main_runs_only_when_found(target, before);
        assert(forall|event: LaunchEvent| before.contains(event) ==> events.contains(event));
    }
}

/// An application without a `main` is aborted: whatever happened before, `main` missing under the
/// first of its names is looked up under the second, and `main` missing under the second too
/// aborts the process.
pub proof fn an_application_without_main_is_aborted(target: Target, events: Seq<LaunchEvent>)
    ensures
        launched(target, events) == (LaunchStep::LookUp { symbol: MainSymbol::Main }) ==> launched(
            target,
            events.push(LaunchEvent::LookedUp { found: false }),
        ) == (LaunchStep::LookUp { symbol: MainSymbol::UnderscoredMain }),
        launched(target, events) == (LaunchStep::LookUp { symbol: MainSymbol::UnderscoredMain })
            ==> launched(target, events.push(LaunchEvent::LookedUp { found: false })) == (
        LaunchStep::Abort { cause: AbortCause::NoMain }),
{
    let missing = events.push(LaunchEvent::LookedUp { found: false });
    assert(missing.drop_last() == events);
}

/// Nothing unwinds out of an application: a panic in any step of one that has not ended aborts the
/// process.
pub proof fn a_panic_aborts_the_process(target: Target, events: Seq<LaunchEvent>)
    requires
        events.len() > 0,
        events.last() == LaunchEvent::Unwound,
        launched(target, events.drop_last()) != LaunchStep::Done,
    ensures
        launched(target, events) is Abort,
{
}

/// Once `main` has returned or the process is to be aborted, nothing that happens changes that.
pub proof fn startup_ends_once(target: Target, step: LaunchStep, event: LaunchEvent)
    requires
        step is Done || step is Abort,
    ensures
        next_step(target, step, event) == step,
{
}

/// Whether the context has been handed over once an activity has been set up `times` times.
pub open spec fn initialized_after(times: nat) -> bool {
    times > 0
}

/// How often the context is handed over in setting an activity up `times` times.
pub open spec fn initializations(times: nat) -> nat
    decreases times,
{
    if times == 0 {
        0
    } else {
        let earlier = (times - 1) as nat;
        initializations(earlier) + (if setup_steps(initialized_after(earlier)).contains(
            SetupStep::InitializeContext,
        ) {
            1nat
        } else {
            0nat
        })
    }
}

/// The context is handed over before anything waits on it: in every setup, before the application
/// is let go on, and that before the webview is set up.
pub proof fn context_comes_before_the_webview(initialized: bool, i: int, j: int)
    requires
        0 <= i < j < setup_steps(initialized).len(),
    ensures
        setup_steps(initialized)[j] != SetupStep::InitializeContext,
        setup_steps(initialized)[i] != SetupStep::SetUpWebview,
        setup_steps(initialized).contains(SetupStep::MarkReady),
        setup_steps(initialized).last() == SetupStep::SetUpWebview,
{
    let steps = setup_steps(initialized);
    assert(steps[steps.len() - 2] == SetupStep::MarkReady);
}

/// However often an activity is created, the context is handed over once.
pub proof fn context_is_initialized_once(times: nat)
    requires
        times > 0,
    ensures
        initializations(times) == 1,
    decreases times,
{
    reveal_with_fuel(initializations, 2);
    if times == 1 {
        assert(setup_steps(false)[0] == SetupStep::InitializeContext);
    } else {
        context_is_initialized_once((times - 1) as nat);
    }
}

/// In every setup the application is let go on once, and after that the webview is set up, once.
/// Before either, the context is handed over if it has not been yet. Nothing else is done.
pub proof fn an_activity_is_set_up_in_order(initialized: bool)
    ensures
        ({
            let steps = setup_steps(initialized);
            let handed: int = if initialized {
                0
            } else {
                1
            };
            &&& steps.len() == handed + 2
            &&& !initialized ==> steps[0] == SetupStep::InitializeContext
            &&& steps[handed] == SetupStep::MarkReady
            &&& steps[handed + 1] == SetupStep::SetUpWebview
        }),
{
}

/// The second name of `main` is the first with an underscore in front, as some linkers write it.
pub proof fn main_has_two_names()
    ensures
        MainSymbol::Main.spelling() == seq!['m', 'a', 'i', 'n'],
        MainSymbol::UnderscoredMain.spelling() == seq!['_'] + MainSymbol::Main.spelling(),
{
    reveal_strlit("main");
    reveal_strlit("_main");
}

/// Once the context is there, `main` is looked up under the first of its names.
pub proof fn the_context_starts_the_application(target: Target)
    ensures
        next_step(target, LaunchStep::AwaitContext, LaunchEvent::ContextReady) == (
        LaunchStep::LookUp { symbol: MainSymbol::Main }),
{
}

/// A `main` that is found is run, under the name it was found by, and the application is over once
/// it has returned. On Android, while the application is being developed, the launcher's variables
/// are set in between; anywhere else it is run at once.
pub proof fn a_main_that_is_found_is_run(target: Target, symbol: MainSymbol)
    ensures
        ({
            let found = next_step(
                target,
                LaunchStep::LookUp { symbol },
                LaunchEvent::LookedUp { found: true },
            );
            let run = LaunchStep::RunMain { symbol };
            &&& target.os == Os::Android && target.debug_assertions ==> {
                &&& found == (LaunchStep::LoadSessionEnv { symbol })
                &&& next_step(target, found, LaunchEvent::SessionEnvLoaded) == run
            }
            &&& target.os != Os::Android || !target.debug_assertions ==> found == run
            &&& next_step(target, run, LaunchEvent::MainReturned) == LaunchStep::Done
        }),
{
}

/// `main` is looked up under both of its names before the application is given up, whatever it was
/// built for.
pub proof fn a_main_that_is_missing_is_looked_up_twice(target: Target)
    ensures
        ({
            let missing = LaunchEvent::LookedUp { found: false };
            let again = next_step(
                target,
                LaunchStep::LookUp { symbol: MainSymbol::Main },
                missing,
            );
            &&& again == (LaunchStep::LookUp { symbol: MainSymbol::UnderscoredMain })
            &&& next_step(target, again, missing) == (LaunchStep::Abort {
                cause: AbortCause::NoMain,
            })
        }),
{
}

/// What can come of a step, but for a panic.
pub open spec fn answers(step: LaunchStep, event: LaunchEvent) -> bool {
    match event {
        LaunchEvent::ContextReady => step is AwaitContext,
        LaunchEvent::LookedUp { .. } => step is LookUp,
        LaunchEvent::SessionEnvLoaded => step is LoadSessionEnv,
        LaunchEvent::MainReturned => step is RunMain,
        LaunchEvent::Unwound => false,
    }
}

/// A step goes on when what it was for has come of it, and is given up when it panics; nothing else
/// moves the application on.
pub proof fn only_what_comes_of_a_step_ends_it(
    target: Target,
    step: LaunchStep,
    event: LaunchEvent,
)
    ensures
        answers(step, event) ==> next_step(target, step, event) != step,
        !answers(step, event) && event != LaunchEvent::Unwound ==> next_step(target, step, event)
            == step,
        event == LaunchEvent::Unwound && !(step is Done) && !(step is Abort) ==> next_step(
            target,
            step,
            event,
        ) == (LaunchStep::Abort { cause: AbortCause::Unwound }),
{
}

} // verus!

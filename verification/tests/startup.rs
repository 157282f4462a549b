use dioxus_shell::mobile::{
    start_app, AbortCause, AndroidContext, LaunchEvent, LaunchStep, MainSymbol, SetupStep, StartupBarrier,
};
use dioxus_shell::platform::{EnvVar, Os, Target};
use dioxus_shell::session_env::parse_session_env;

const PHONE: Target = Target {
    os: Os::Android,
    debug_assertions: true,
};

const RELEASED_PHONE: Target = Target {
    os: Os::Android,
    debug_assertions: false,
};

#[test]
fn marking_platform_context_ready_is_idempotent() {
    let mut barrier = StartupBarrier::new();
    barrier.mark_ready();
    barrier.mark_ready();
    assert!(barrier.wait());
}

#[test]
fn nobody_passes_the_barrier_before_it_is_ready_and_everybody_after() {
    let mut barrier = StartupBarrier::new();
    assert!(!barrier.wait());
    assert!(!barrier.wait());
    barrier.mark_ready();
    assert!(barrier.wait());
    assert!(barrier.wait());
}

#[test]
fn the_context_is_handed_over_the_first_time_only() {
    let mut context = AndroidContext::new();
    assert_eq!(
        context.android_setup(),
        [
            SetupStep::InitializeContext,
            SetupStep::MarkReady,
            SetupStep::SetUpWebview
        ]
    );
    for _ in 0..3 {
        assert_eq!(
            context.android_setup(),
            [SetupStep::MarkReady, SetupStep::SetUpWebview]
        );
    }
}

fn launched(target: Target, events: &[LaunchEvent]) -> LaunchStep {
    let mut step = LaunchStep::AwaitContext;
    for event in events {
        step = start_app(target, step, *event);
    }
    step
}

#[test]
fn nothing_is_looked_up_before_the_context_is_there() {
    assert_eq!(
        launched(
            PHONE,
            &[
                LaunchEvent::LookedUp { found: true },
                LaunchEvent::SessionEnvLoaded
            ]
        ),
        LaunchStep::AwaitContext
    );
}

#[test]
fn main_is_looked_up_under_both_of_its_names() {
    let ready = LaunchEvent::ContextReady;
    let missing = LaunchEvent::LookedUp { found: false };
    assert_eq!(
        launched(PHONE, &[ready]),
        LaunchStep::LookUp {
            symbol: MainSymbol::Main
        }
    );
    assert_eq!(
        launched(PHONE, &[ready, missing]),
        LaunchStep::LookUp {
            symbol: MainSymbol::UnderscoredMain
        }
    );
    let aborted = LaunchStep::Abort {
        cause: AbortCause::NoMain,
    };
    assert_eq!(launched(PHONE, &[ready, missing, missing]), aborted);
    assert_eq!(launched(PHONE, &[ready, missing, missing, ready]), aborted);
    assert_eq!(MainSymbol::Main.name(), "main");
    assert_eq!(MainSymbol::UnderscoredMain.name(), "_main");
}

#[test]
fn variables_are_set_before_main_runs_where_the_build_takes_them() {
    let ready = LaunchEvent::ContextReady;
    let found = LaunchEvent::LookedUp { found: true };
    let symbol = MainSymbol::Main;
    assert_eq!(
        launched(PHONE, &[ready, found]),
        LaunchStep::LoadSessionEnv { symbol }
    );
    assert_eq!(
        launched(PHONE, &[ready, found, LaunchEvent::SessionEnvLoaded]),
        LaunchStep::RunMain { symbol }
    );
    assert_eq!(
        launched(RELEASED_PHONE, &[ready, found]),
        LaunchStep::RunMain { symbol }
    );
    let underscored = MainSymbol::UnderscoredMain;
    assert_eq!(
        launched(
            RELEASED_PHONE,
            &[ready, LaunchEvent::LookedUp { found: false }, found]
        ),
        LaunchStep::RunMain {
            symbol: underscored
        }
    );
}

#[test]
fn a_panic_aborts_unless_the_application_is_over() {
    let ready = LaunchEvent::ContextReady;
    let found = LaunchEvent::LookedUp { found: true };
    let loaded = LaunchEvent::SessionEnvLoaded;
    let unwound = LaunchEvent::Unwound;
    let aborted = LaunchStep::Abort {
        cause: AbortCause::Unwound,
    };
    assert_eq!(launched(PHONE, &[unwound]), aborted);
    assert_eq!(launched(PHONE, &[ready, unwound]), aborted);
    assert_eq!(launched(PHONE, &[ready, found, unwound]), aborted);
    assert_eq!(launched(PHONE, &[ready, found, loaded, unwound]), aborted);
    assert_eq!(launched(PHONE, &[ready, unwound, found, loaded]), aborted);
    let returned = LaunchEvent::MainReturned;
    assert_eq!(
        launched(PHONE, &[ready, found, loaded, returned]),
        LaunchStep::Done
    );
    assert_eq!(
        launched(PHONE, &[ready, found, loaded, returned, unwound]),
        LaunchStep::Done
    );
    assert_eq!(launched(PHONE, &[returned]), LaunchStep::AwaitContext);
}

fn var(key: &str, value: &str) -> EnvVar {
    EnvVar {
        key: key.to_string(),
        value: value.to_string(),
    }
}

/// What reading the file with the standard library gives.
fn read_plainly(text: &str) -> Vec<EnvVar> {
    let mut vars = Vec::new();
    for line in text.lines() {
        if let Some((key, value)) = line.trim().split_once('=') {
            vars.push(var(key, value));
        }
    }
    vars
}

#[test]
fn each_line_gives_a_variable() {
    assert_eq!(
        parse_session_env("A=1\nB=two words\r\n  C = 3  \n\n# no variable\nD=x=y\nE="),
        [
            var("A", "1"),
            var("B", "two words"),
            var("C ", " 3"),
            var("D", "x=y"),
            var("E", "")
        ]
    );
}

#[test]
fn a_file_without_variables_gives_none() {
    assert!(parse_session_env("").is_empty());
    assert!(parse_session_env("\n\n \t\n").is_empty());
    assert!(parse_session_env("nothing here").is_empty());
}

#[test]
fn files_are_read_as_the_standard_library_reads_lines() {
    for text in [
        "=",
        "=value",
        "K=V\n",
        "\nK=V",
        "K=V\r\nL=W\r",
        "a=1\rb=2\nc=3",
        "\u{a0}K=V\u{3000}\n\u{2003}x=\u{85}",
        "k\u{e9}y=v\u{e4}lue\n\u{1f600}=\u{200b}",
        "\u{feff}K=V",
        "one\ntwo=2\nthree",
        "a==b\n==",
        " = ",
        "\u{b}\u{c}v=t\u{1c}",
    ] {
        assert_eq!(parse_session_env(text), read_plainly(text), "{text:?}");
    }
}

#[test]
fn exactly_the_white_space_of_the_standard_library_is_trimmed() {
    for c in '\u{0}'..='\u{ffff}' {
        let text = format!("{c}K=V{c}");
        assert_eq!(parse_session_env(&text), read_plainly(&text), "{c:?}");
    }
}

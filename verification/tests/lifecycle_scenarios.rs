use window_bootstrap::error::exit_code;
use window_bootstrap::error::fatal_message;
use window_bootstrap::error::Fatal;
use window_bootstrap::hints::GLFW_CONTEXT_VERSION_MAJOR;
use window_bootstrap::hints::GLFW_CONTEXT_VERSION_MINOR;
use window_bootstrap::hints::GLFW_DOUBLEBUFFER;
use window_bootstrap::hints::GLFW_OPENGL_CORE_PROFILE;
use window_bootstrap::hints::GLFW_OPENGL_PROFILE;
use window_bootstrap::hints::GLFW_TRUE;
use window_bootstrap::lifecycle::Action;
use window_bootstrap::lifecycle::Config;
use window_bootstrap::lifecycle::Event;
use window_bootstrap::lifecycle::Lifecycle;
use window_bootstrap::lifecycle::Phase;

#[test]
fn standard_config_values() {
    let c = Config::standard();
    assert!(!c.resizable);
    assert_eq!(c.api_major, 3);
    assert_eq!(c.api_minor, 3);
    assert!(c.debug);
    assert!(c.double_buffered);
    assert!(c.core_profile);
    assert_eq!(c.width, 800);
    assert_eq!(c.height, 600);
    assert_eq!(c.title, "2D Game");
}

/// Full run: init succeeds, the hints request OpenGL 3.3 core profile with
/// double buffering, the window is created at 800 x 600, the context is
/// activated, every extension symbol resolves, the loop runs exactly three
/// iterations before a close request, and teardown happens exactly once with
/// a zero exit code.
#[test]
fn full_run_with_three_loop_iterations() {
    let mut m = Lifecycle::new(Config::standard());

    let a = m.step(Event::Start);
    assert!(matches!(a, Action::CallInit));

    let a = m.step(Event::InitResult { ok: true });
    let (hints, width, height, title) = match a {
        Action::CreateWindow { hints, width, height, title } => (hints, width, height, title),
        other => panic!("expected a window creation request, got {:?}", action_name(&other)),
    };
    assert_eq!((width, height), (800, 600));
    assert_eq!(title, "2D Game");
    assert_eq!(hints.len(), 7);
    assert!(hints.iter().any(|h| h.key == GLFW_CONTEXT_VERSION_MAJOR && h.value == 3));
    assert!(hints.iter().any(|h| h.key == GLFW_CONTEXT_VERSION_MINOR && h.value == 3));
    assert!(hints.iter().any(|h| h.key == GLFW_OPENGL_PROFILE && h.value == GLFW_OPENGL_CORE_PROFILE));
    assert!(hints.iter().any(|h| h.key == GLFW_DOUBLEBUFFER && h.value == GLFW_TRUE));

    let a = m.step(Event::WindowResult { created: true });
    assert!(matches!(a, Action::MakeContextCurrent));

    let a = m.step(Event::ContextReady);
    assert!(matches!(a, Action::LoadExtensions));

    let a = m.step(Event::ExtensionsResult { ok: true });
    assert!(matches!(a, Action::CheckClose));

    let mut swaps = 0;
    let mut polls = 0;
    let mut terminates = 0;
    // The window reports no close request for three reads, then a close.
    for iteration in 0..4 {
        let close_requested = iteration == 3;
        let a = m.step(Event::CloseFlag { close_requested });
        match a {
            Action::SwapAndPoll { swap } => {
                assert!(!close_requested);
                assert!(swap);
                swaps += 1;
                polls += 1;
            }
            Action::CallTerminate => {
                assert!(close_requested);
                terminates += 1;
            }
            other => panic!("unexpected request {:?}", action_name(&other)),
        }
    }
    assert_eq!(swaps, 3);
    assert_eq!(polls, 3);
    assert_eq!(terminates, 1);

    let a = m.step(Event::TerminateDone);
    let outcome = match a {
        Action::Exit { outcome } => outcome,
        other => panic!("expected exit, got {:?}", action_name(&other)),
    };
    assert!(outcome.is_none());
    assert_eq!(exit_code(&outcome), 0);
    assert_eq!(m.terminate_calls, 1);
    assert_eq!(m.phase, Phase::Finished);
}

/// Init fails: the bootstrap aborts at once with the environment failure;
/// window creation is never requested and terminate is never requested.
#[test]
fn init_failure_aborts_without_window_or_terminate() {
    let mut m = Lifecycle::new(Config::standard());

    let a = m.step(Event::Start);
    assert!(matches!(a, Action::CallInit));

    let a = m.step(Event::InitResult { ok: false });
    let outcome = match a {
        Action::Exit { outcome } => outcome,
        other => panic!("expected exit, got {:?}", action_name(&other)),
    };
    let failure = outcome.expect("an init failure must be fatal");
    assert!(matches!(failure, Fatal::Environment));
    assert_eq!(fatal_message(&failure), "Failed to initialize GLFW.");
    assert_ne!(exit_code(&Some(failure)), 0);

    assert_eq!(m.create_calls, 0);
    assert_eq!(m.terminate_calls, 0);
    assert_eq!(m.phase, Phase::Finished);
}

/// Window creation returns null: the error is queried before any other
/// library call, the resource failure carries a non-empty message even
/// without a description, the exit code is non-zero, and terminate is still
/// requested exactly once.
#[test]
fn window_failure_reports_resource_and_terminates_once() {
    let mut m = Lifecycle::new(Config::standard());

    let a = m.step(Event::Start);
    assert!(matches!(a, Action::CallInit));
    let a = m.step(Event::InitResult { ok: true });
    assert!(matches!(a, Action::CreateWindow { .. }));

    let a = m.step(Event::WindowResult { created: false });
    assert!(matches!(a, Action::QueryError));

    let a = m.step(Event::ErrorText { raw_description: None });
    assert!(matches!(a, Action::CallTerminate));
    assert_eq!(m.terminate_calls, 1);

    let a = m.step(Event::TerminateDone);
    let outcome = match a {
        Action::Exit { outcome } => outcome,
        other => panic!("expected exit, got {:?}", action_name(&other)),
    };
    let failure = outcome.expect("a null window must be fatal");
    let message = fatal_message(&failure);
    assert_eq!(message, "Failed to create window: no error description available");
    assert!(!message.is_empty());
    assert_ne!(exit_code(&Some(failure)), 0);
    assert_eq!(m.terminate_calls, 1);
}

/// Window creation fails with a description from the library: the message
/// carries it verbatim.
#[test]
fn window_failure_keeps_library_description() {
    let mut m = Lifecycle::new(Config::standard());
    m.step(Event::Start);
    m.step(Event::InitResult { ok: true });
    m.step(Event::WindowResult { created: false });
    let a = m.step(Event::ErrorText {
        raw_description: Some("X11: display not found".to_string()),
    });
    assert!(matches!(a, Action::CallTerminate));
    let a = m.step(Event::TerminateDone);
    match a {
        Action::Exit { outcome } => {
            let failure = outcome.expect("a null window must be fatal");
            assert_eq!(
                fatal_message(&failure),
                "Failed to create window: X11: display not found"
            );
        }
        other => panic!("expected exit, got {:?}", action_name(&other)),
    }
}

/// A missing extension symbol is fatal before the loop: no iteration runs,
/// terminate is still requested exactly once, and the exit code is non-zero.
#[test]
fn extension_failure_terminates_before_loop() {
    let mut m = Lifecycle::new(Config::standard());
    m.step(Event::Start);
    m.step(Event::InitResult { ok: true });
    m.step(Event::WindowResult { created: true });
    m.step(Event::ContextReady);

    let a = m.step(Event::ExtensionsResult { ok: false });
    assert!(matches!(a, Action::CallTerminate));
    assert_eq!(m.terminate_calls, 1);

    let a = m.step(Event::TerminateDone);
    match a {
        Action::Exit { outcome } => {
            let failure = outcome.expect("a missing symbol must be fatal");
            assert!(matches!(failure, Fatal::Extension));
            assert_ne!(exit_code(&Some(failure)), 0);
        }
        other => panic!("expected exit, got {:?}", action_name(&other)),
    }
    assert_eq!(m.terminate_calls, 1);
}

/// A single-buffered configuration asks the loop not to swap.
#[test]
fn single_buffered_loop_does_not_swap() {
    let mut cfg = Config::standard();
    cfg.double_buffered = false;
    let mut m = Lifecycle::new(cfg);
    m.step(Event::Start);
    m.step(Event::InitResult { ok: true });
    m.step(Event::WindowResult { created: true });
    m.step(Event::ContextReady);
    m.step(Event::ExtensionsResult { ok: true });
    let a = m.step(Event::CloseFlag { close_requested: false });
    match a {
        Action::SwapAndPoll { swap } => assert!(!swap),
        other => panic!("expected a loop iteration, got {:?}", action_name(&other)),
    }
}

/// A close request observed on the very first read ends the loop with no
/// iterations at all.
#[test]
fn immediate_close_runs_no_iterations() {
    let mut m = Lifecycle::new(Config::standard());
    m.step(Event::Start);
    m.step(Event::InitResult { ok: true });
    m.step(Event::WindowResult { created: true });
    m.step(Event::ContextReady);
    m.step(Event::ExtensionsResult { ok: true });
    let a = m.step(Event::CloseFlag { close_requested: true });
    assert!(matches!(a, Action::CallTerminate));
    assert!(m.close_seen);
    let a = m.step(Event::TerminateDone);
    match a {
        Action::Exit { outcome } => assert!(outcome.is_none()),
        other => panic!("expected exit, got {:?}", action_name(&other)),
    }
    assert!(m.close_seen);
    assert_eq!(m.terminate_calls, 1);
}

fn action_name(a: &Action) -> &'static str {
    match a {
        Action::CallInit => "CallInit",
        Action::CreateWindow { .. } => "CreateWindow",
        Action::QueryError => "QueryError",
        Action::MakeContextCurrent => "MakeContextCurrent",
        Action::LoadExtensions => "LoadExtensions",
        Action::CheckClose => "CheckClose",
        Action::SwapAndPoll { .. } => "SwapAndPoll",
        Action::CallTerminate => "CallTerminate",
        Action::Exit { .. } => "Exit",
    }
}

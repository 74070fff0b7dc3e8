use vstd::prelude::*;
use crate::error::Fatal;
use crate::hints::Hint;
use crate::hints::build_hints;
use crate::hints::hint_seq;

verus! {

/// The window/context configuration the bootstrap runs with. The values are
/// design-time constants for this system, but every operation is specified
/// for arbitrary values.
pub struct Config {
    /// Whether the user may resize the window.
    pub resizable: bool,
    /// Major version of the requested OpenGL context.
    pub api_major: i32,
    /// Minor version of the requested OpenGL context.
    pub api_minor: i32,
    /// Whether the context should be a debug context.
    pub debug: bool,
    /// Whether the framebuffer is double buffered; the loop swaps buffers
    /// only when this is set.
    pub double_buffered: bool,
    /// Whether the context must implement the core profile.
    pub core_profile: bool,
    /// Window width in screen coordinates.
    pub width: i32,
    /// Window height in screen coordinates.
    pub height: i32,
    /// The window title.
    pub title: String,
}

impl Config {
    /// The fixed configuration this bootstrap ships with: a non-resizable
    /// 800 x 600 window titled "2D Game", an OpenGL 3.3 core-profile debug
    /// context, double buffered.
    pub fn standard() -> (c: Config)
        ensures
            c.resizable == false,
            c.api_major == 3,
            c.api_minor == 3,
            c.debug == true,
            c.double_buffered == true,
            c.core_profile == true,
            c.width == 800,
            c.height == 600,
            c.title@ == "2D Game"@,
    {
        Config {
            resizable: false,
            api_major: 3,
            api_minor: 3,
            debug: true,
            double_buffered: true,
            core_profile: true,
            width: 800,
            height: 600,
            title: "2D Game".to_owned(),
        }
    }
}

/// Where the single-shot lifecycle stands. Transitions are strictly forward:
/// uninitialized, through initialization, window creation, context
/// activation, extension loading and the event loop, to termination. No state
/// is ever re-entered.
#[derive(Clone, Copy, Debug, PartialEq, Eq, Structural)]
pub enum Phase {
    /// Uninitialized: nothing has been asked of the library yet.
    Idle,
    /// The init call was requested; its result is awaited.
    AwaitingInit,
    /// Init succeeded; the hints were applied and window creation was
    /// requested.
    AwaitingWindow,
    /// Window creation returned null; the latest error is being queried
    /// before any other library call.
    AwaitingError,
    /// The window exists; context activation was requested.
    AwaitingContext,
    /// The context is current; extension loading was requested.
    AwaitingExtensions,
    /// The event/render loop runs; the close flag is re-read every iteration.
    Running,
    /// The terminate call was requested; its completion is awaited.
    Terminating,
    /// The lifecycle is over; nothing further may be asked of the library.
    Finished,
}

/// What the surrounding process reports back to the lifecycle manager: the
/// outcome of the action it was last asked to perform.
pub enum Event {
    /// Begin the bootstrap.
    Start,
    /// Whether the library's init call succeeded.
    InitResult { ok: bool },
    /// Whether window creation yielded a handle; `false` means the library
    /// returned null.
    WindowResult { created: bool },
    /// The raw error description the library gave, queried immediately after
    /// the failing call.
    ErrorText { raw_description: Option<String> },
    /// The window's context was made current.
    ContextReady,
    /// Whether every required extension symbol resolved to a function
    /// pointer.
    ExtensionsResult { ok: bool },
    /// A fresh read of the window's close flag, taken at the head of each
    /// loop iteration; never cached.
    CloseFlag { close_requested: bool },
    /// The terminate call returned.
    TerminateDone,
}

/// The next outside step the lifecycle manager asks for. Each action names
/// the event that reports its outcome.
pub enum Action {
    /// Call the library's init entry point; report `InitResult`.
    CallInit,
    /// Apply the hints in order, then create the window with the given size
    /// and title, no parent monitor and no shared context; report
    /// `WindowResult`.
    CreateWindow { hints: Vec<Hint>, width: i32, height: i32, title: String },
    /// Query the library's latest error now, before any other library call;
    /// report `ErrorText`.
    QueryError,
    /// Make the window's context current; report `ContextReady`.
    MakeContextCurrent,
    /// Resolve every extension symbol through the library's address lookup;
    /// report `ExtensionsResult`.
    LoadExtensions,
    /// Read the window's close flag afresh and report it as `CloseFlag`.
    CheckClose,
    /// One loop iteration: swap the framebuffers if `swap` is set, poll
    /// events, then re-read the close flag and report it as `CloseFlag`.
    SwapAndPoll { swap: bool },
    /// Call the library's terminate entry point; report `TerminateDone`.
    CallTerminate,
    /// The bootstrap is over: exit the process, with a zero code exactly when
    /// `outcome` is `None`.
    Exit { outcome: Option<Fatal> },
}

/// The window lifecycle manager: the single-shot bootstrap state machine.
/// It decides, from its state and each observed event, the next request to
/// put to the windowing library; the surrounding process performs the request
/// and reports what happened.
pub struct Lifecycle {
    /// Where the lifecycle stands.
    pub phase: Phase,
    /// The configuration the window is created with.
    pub config: Config,
    /// Whether the library reported a successful init.
    pub init_ok: bool,
    /// How many times window creation was requested.
    pub create_calls: u8,
    /// How many times termination was requested.
    pub terminate_calls: u8,
    /// Whether a loop iteration has observed the close flag set.
    pub close_seen: bool,
    /// The fatal failure to report at exit, if one was recorded.
    pub failure: Option<Fatal>,
}

impl Lifecycle {
    /// The lifecycle invariant: window creation is requested exactly once per
    /// successful init and never before one; termination is requested at most
    /// once, only after a successful init, and exactly once by the time the
    /// lifecycle finishes after one; an observed close request is never
    /// forgotten and leads straight to teardown.
    pub open spec fn inv(self) -> bool {
        &&& self.create_calls == (if self.init_ok {
            1u8
        } else {
            0u8
        })
        &&& self.terminate_calls <= 1
        &&& (self.terminate_calls == 1 ==> self.init_ok)
        &&& (self.close_seen ==> self.phase is Terminating || self.phase is Finished)
        &&& (match self.phase {
            Phase::Idle | Phase::AwaitingInit => !self.init_ok && self.terminate_calls == 0
                && self.failure is None,
            Phase::AwaitingWindow | Phase::AwaitingError | Phase::AwaitingContext
                | Phase::AwaitingExtensions | Phase::Running => self.init_ok
                && self.terminate_calls == 0 && self.failure is None,
            Phase::Terminating => self.init_ok && self.terminate_calls == 1,
            Phase::Finished => self.terminate_calls == (if self.init_ok {
                1u8
            } else {
                0u8
            }),
        })
    }

    /// Which events the lifecycle can observe in its current phase: exactly
    /// the report of the action it last requested.
    pub open spec fn accepts(self, e: Event) -> bool {
        match (self.phase, e) {
            (Phase::Idle, Event::Start) => true,
            (Phase::AwaitingInit, Event::InitResult { .. }) => true,
            (Phase::AwaitingWindow, Event::WindowResult { .. }) => true,
            (Phase::AwaitingError, Event::ErrorText { .. }) => true,
            (Phase::AwaitingContext, Event::ContextReady) => true,
            (Phase::AwaitingExtensions, Event::ExtensionsResult { .. }) => true,
            (Phase::Running, Event::CloseFlag { .. }) => true,
            (Phase::Terminating, Event::TerminateDone) => true,
            _ => false,
        }
    }

    /// The state reached from `pre` on observing `e`. Events the state does
    /// not accept leave it unchanged.
    pub open spec fn transition(pre: Lifecycle, e: Event) -> Lifecycle {
        match (pre.phase, e) {
            (Phase::Idle, Event::Start) => Lifecycle { phase: Phase::AwaitingInit, ..pre },
            (Phase::AwaitingInit, Event::InitResult { ok }) => if ok {
                Lifecycle {
                    phase: Phase::AwaitingWindow,
                    init_ok: true,
                    create_calls: 1,
                    ..pre
                }
            } else {
                Lifecycle { phase: Phase::Finished, failure: Some(Fatal::Environment), ..pre }
            },
            (Phase::AwaitingWindow, Event::WindowResult { created }) => if created {
                Lifecycle { phase: Phase::AwaitingContext, ..pre }
            } else {
                Lifecycle { phase: Phase::AwaitingError, ..pre }
            },
            (Phase::AwaitingError, Event::ErrorText { raw_description }) => Lifecycle {
                phase: Phase::Terminating,
                terminate_calls: 1,
                failure: Some(Fatal::Resource { raw_description }),
                ..pre
            },
            (Phase::AwaitingContext, Event::ContextReady) => Lifecycle {
                phase: Phase::AwaitingExtensions,
                ..pre
            },
            (Phase::AwaitingExtensions, Event::ExtensionsResult { ok }) => if ok {
                Lifecycle { phase: Phase::Running, ..pre }
            } else {
                Lifecycle {
                    phase: Phase::Terminating,
                    terminate_calls: 1,
                    failure: Some(Fatal::Extension),
                    ..pre
                }
            },
            (Phase::Running, Event::CloseFlag { close_requested }) => if close_requested {
                Lifecycle {
                    phase: Phase::Terminating,
                    terminate_calls: 1,
                    close_seen: true,
                    ..pre
                }
            } else {
                pre
            },
            (Phase::Terminating, Event::TerminateDone) => Lifecycle {
                phase: Phase::Finished,
                failure: None,
                ..pre
            },
            _ => pre,
        }
    }

    /// The request that `step` yields from `pre` on observing `e`.
    pub open spec fn emitted(pre: Lifecycle, e: Event, a: Action) -> bool {
        match (pre.phase, e) {
            (Phase::Idle, Event::Start) => a is CallInit,
            (Phase::AwaitingInit, Event::InitResult { ok }) => if ok {
                a matches Action::CreateWindow { hints, width, height, title }
                    && hints@ == hint_seq(
                    pre.config.resizable,
                    pre.config.api_major,
                    pre.config.api_minor,
                    pre.config.debug,
                    pre.config.double_buffered,
                    pre.config.core_profile,
                ) && width == pre.config.width && height == pre.config.height && title
                    == pre.config.title
            } else {
                a == (Action::Exit { outcome: Some(Fatal::Environment) })
            },
            (Phase::AwaitingWindow, Event::WindowResult { created }) => if created {
                a is MakeContextCurrent
            } else {
                a is QueryError
            },
            (Phase::AwaitingError, Event::ErrorText { .. }) => a is CallTerminate,
            (Phase::AwaitingContext, Event::ContextReady) => a is LoadExtensions,
            (Phase::AwaitingExtensions, Event::ExtensionsResult { ok }) => if ok {
                a is CheckClose
            } else {
                a is CallTerminate
            },
            (Phase::Running, Event::CloseFlag { close_requested }) => if close_requested {
                a is CallTerminate
            } else {
                a == (Action::SwapAndPoll { swap: pre.config.double_buffered })
            },
            (Phase::Terminating, Event::TerminateDone) => a == (Action::Exit {
                outcome: pre.failure,
            }),
            _ => false,
        }
    }

    /// A fresh, uninitialized lifecycle for the given configuration.
    pub fn new(config: Config) -> (m: Lifecycle)
        ensures
            m.phase is Idle,
            m.config == config,
            m.init_ok == false,
            m.create_calls == 0,
            m.terminate_calls == 0,
            m.close_seen == false,
            m.failure is None,
            m.inv(),
    {
        Lifecycle {
            phase: Phase::Idle,
            config,
            init_ok: false,
            create_calls: 0,
            terminate_calls: 0,
            close_seen: false,
            failure: None,
        }
    }

    /// Advances the lifecycle by one observed event and yields the next
    /// request. The new state is exactly `transition`, the request exactly
    /// what `emitted` allows; the invariant is preserved and an observed
    /// close request is never forgotten.
    pub fn step(&mut self, e: Event) -> (a: Action)
        requires
            old(self).inv(),
            old(self).accepts(e),
        ensures
            *final(self) == Lifecycle::transition(*old(self), e),
            Lifecycle::emitted(*old(self), e, a),
            final(self).inv(),
            old(self).close_seen ==> final(self).close_seen,
    {
        match (self.phase, e) {
            (Phase::Idle, Event::Start) => {
                self.phase = Phase::AwaitingInit;
                Action::CallInit
            },
            (Phase::AwaitingInit, Event::InitResult { ok }) => {
                if ok {
                    self.phase = Phase::AwaitingWindow;
                    self.init_ok = true;
                    self.create_calls = self.create_calls + 1;
                    let hints = build_hints(
                        self.config.resizable,
                        self.config.api_major,
                        self.config.api_minor,
                        self.config.debug,
                        self.config.double_buffered,
                        self.config.core_profile,
                    );
                    Action::CreateWindow {
                        hints,
                        width: self.config.width,
                        height: self.config.height,
                        title: self.config.title.clone(),
                    }
                } else {
                    self.phase = Phase::Finished;
                    self.failure = Some(Fatal::Environment);
                    Action::Exit { outcome: Some(Fatal::Environment) }
                }
            },
            (Phase::AwaitingWindow, Event::WindowResult { created }) => {
                if created {
                    self.phase = Phase::AwaitingContext;
                    Action::MakeContextCurrent
                } else {
                    self.phase = Phase::AwaitingError;
                    Action::QueryError
                }
            },
            (Phase::AwaitingError, Event::ErrorText { raw_description }) => {
                self.phase = Phase::Terminating;
                self.terminate_calls = self.terminate_calls + 1;
                self.failure = Some(Fatal::Resource { raw_description });
                Action::CallTerminate
            },
            (Phase::AwaitingContext, Event::ContextReady) => {
                self.phase = Phase::AwaitingExtensions;
                Action::LoadExtensions
            },
            (Phase::AwaitingExtensions, Event::ExtensionsResult { ok }) => {
                if ok {
                    self.phase = Phase::Running;
                    Action::CheckClose
                } else {
                    self.phase = Phase::Terminating;
                    self.terminate_calls = self.terminate_calls + 1;
                    self.failure = Some(Fatal::Extension);
                    Action::CallTerminate
                }
            },
            (Phase::Running, Event::CloseFlag { close_requested }) => {
                if close_requested {
                    self.phase = Phase::Terminating;
                    self.terminate_calls = self.terminate_calls + 1;
                    self.close_seen = true;
                    Action::CallTerminate
                } else {
                    Action::SwapAndPoll { swap: self.config.double_buffered }
                }
            },
            (Phase::Terminating, Event::TerminateDone) => {
                self.phase = Phase::Finished;
                let outcome = self.failure.take();
                Action::Exit { outcome }
            },
            _ => unreached(),
        }
    }
}

/// The position of a phase along the forward-only lifecycle. The two
/// possible follow-ups of window creation share a position; no transition
/// runs between them.
pub open spec fn phase_rank(p: Phase) -> nat {
    match p {
        Phase::Idle => 0,
        Phase::AwaitingInit => 1,
        Phase::AwaitingWindow => 2,
        Phase::AwaitingError => 3,
        Phase::AwaitingContext => 3,
        Phase::AwaitingExtensions => 4,
        Phase::Running => 5,
        Phase::Terminating => 6,
        Phase::Finished => 7,
    }
}

/// Law: the lifecycle only moves forward, and no phase is ever re-entered;
/// the one phase a step can remain in is the running loop, while no close
/// request has been observed.
pub proof fn lemma_strictly_forward(pre: Lifecycle, e: Event)
    requires
        pre.accepts(e),
    ensures
        phase_rank(Lifecycle::transition(pre, e).phase) >= phase_rank(pre.phase),
        Lifecycle::transition(pre, e).phase == pre.phase ==> pre.phase is Running,
{
}

/// Law: a finished lifecycle is over. It accepts no further event, so nothing
/// more is ever asked of the library after the exit: the lifecycle is
/// single-shot and cannot be restarted.
pub proof fn lemma_finished_is_final(m: Lifecycle, e: Event)
    ensures
        m.phase is Finished ==> !m.accepts(e),
{
}

/// Law: the configuration, and with it the hint set derived from it, is
/// frozen: no step ever changes it, so the hints that were applied before
/// window creation stand for the window's whole lifetime.
pub proof fn lemma_config_frozen(pre: Lifecycle, e: Event)
    ensures
        Lifecycle::transition(pre, e).config == pre.config,
{
}

/// Law: every accepted step preserves the lifecycle invariant.
pub proof fn lemma_step_preserves_inv(pre: Lifecycle, e: Event)
    requires
        pre.inv(),
        pre.accepts(e),
    ensures
        Lifecycle::transition(pre, e).inv(),
{
}

/// Law (monotone close flag): once a close request has been observed, every
/// later state still records it; the flag is one-way until teardown.
pub proof fn lemma_close_flag_monotonic(pre: Lifecycle, e: Event)
    ensures
        pre.close_seen ==> Lifecycle::transition(pre, e).close_seen,
{
}

/// Law: window creation is never requested unless init succeeded.
pub proof fn lemma_no_window_before_init(m: Lifecycle)
    requires
        m.inv(),
    ensures
        m.create_calls > 0 ==> m.init_ok,
{
}

/// Law: a failed init ends the bootstrap at once, reporting the environment
/// failure; no further library request is made.
pub proof fn lemma_init_failure_is_fatal(pre: Lifecycle, a: Action)
    requires
        pre.phase is AwaitingInit,
        Lifecycle::emitted(pre, Event::InitResult { ok: false }, a),
    ensures
        a == (Action::Exit { outcome: Some(Fatal::Environment) }),
        Lifecycle::transition(pre, Event::InitResult { ok: false }).phase is Finished,
{
}

/// Law: after window creation returns null, the one and only next request is
/// the error query; no other library call comes before it.
pub proof fn lemma_error_queried_first(pre: Lifecycle, a: Action)
    requires
        pre.phase is AwaitingWindow,
        Lifecycle::emitted(pre, Event::WindowResult { created: false }, a),
    ensures
        a is QueryError,
{
}

/// Law: a finished lifecycle has requested termination exactly once when init
/// succeeded, and never when it failed.
pub proof fn lemma_terminate_exactly_once(m: Lifecycle)
    requires
        m.inv(),
        m.phase is Finished,
    ensures
        m.init_ok ==> m.terminate_calls == 1,
        !m.init_ok ==> m.terminate_calls == 0,
{
}

} // verus!

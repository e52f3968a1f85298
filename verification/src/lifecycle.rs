//! The life of the process's telemetry providers, as a state machine.
//!
//! The machine decides; its driver acts. In each phase the driver asks
//! `action` what to do, does it, and reports how it went to `advance`.
//! The tracer provider is installed first, then the meter provider; only
//! then is the server run. Once the server has stopped, for whatever
//! reason, the tracer provider is shut down so that the spans of the last
//! requests are flushed, and the process exits. A provider that cannot be
//! built ends the process before it serves anything.

use vstd::prelude::*;

verus! {

/// Which provider could not be built.
#[derive(Debug, Clone, Copy, PartialEq, Eq, Structural)]
pub enum StartupFailure {
    TracePipeline,
    MetricsPipeline,
}

/// The text with which the process gives up on a provider.
pub open spec fn failure_text(failure: StartupFailure) -> Seq<char> {
    match failure {
        StartupFailure::TracePipeline => "failed to initialize the trace pipeline"@,
        StartupFailure::MetricsPipeline => "failed to initialize the metrics pipeline"@,
    }
}

impl StartupFailure {
    /// The text with which the process gives up.
    pub fn message(&self) -> (text: String)
        ensures
            text@ == failure_text(*self),
    {
        match self {
            StartupFailure::TracePipeline => "failed to initialize the trace pipeline".to_owned(),
            StartupFailure::MetricsPipeline => {
                "failed to initialize the metrics pipeline".to_owned()
            },
        }
    }
}

/// Where the process stands.
#[derive(Debug, Clone, Copy, PartialEq, Eq, Structural)]
pub enum Phase {
    /// Nothing is installed yet.
    Init,
    /// The tracer provider is registered process-wide.
    TracerInstalled,
    /// Both providers are registered; the server may run.
    Active,
    /// The server has stopped; the tracer provider is still to be shut down.
    Draining { server_failed: bool },
    /// The tracer provider has been shut down.
    Stopped { server_failed: bool },
    /// A provider could not be built; nothing was served.
    Failed { failure: StartupFailure },
}

/// How the driver's last action went.
#[derive(Debug, Clone, Copy, PartialEq, Eq, Structural)]
pub enum Event {
    Succeeded,
    Failed,
}

/// What the driver is to do next.
#[derive(Debug, Clone, Copy, PartialEq, Eq, Structural)]
pub enum Action {
    /// Install the context propagator, build the trace pipeline and
    /// register its provider process-wide.
    InstallTracer,
    /// Build the metrics pipeline and register its provider process-wide.
    InstallMeter,
    /// Bind and run the server until it stops.
    Serve,
    /// Shut the tracer provider down, flushing what is buffered.
    ShutdownTracer,
    /// Leave, reporting how the server ended.
    Exit { server_failed: bool },
    /// Leave loudly: a provider could not be built.
    Abort { failure: StartupFailure },
}

/// The action that belongs to each phase.
pub open spec fn action_of(phase: Phase) -> Action {
    match phase {
        Phase::Init => Action::InstallTracer,
        Phase::TracerInstalled => Action::InstallMeter,
        Phase::Active => Action::Serve,
        Phase::Draining { server_failed } => Action::ShutdownTracer,
        Phase::Stopped { server_failed } => Action::Exit { server_failed },
        Phase::Failed { failure } => Action::Abort { failure },
    }
}

/// The phase that follows once the action of `phase` has ended in `event`.
/// A shutdown that fails or times out is best effort: the process stops
/// all the same. The two final phases stay as they are.
pub open spec fn next_phase(phase: Phase, event: Event) -> Phase {
    match phase {
        Phase::Init => match event {
            Event::Succeeded => Phase::TracerInstalled,
            Event::Failed => Phase::Failed { failure: StartupFailure::TracePipeline },
        },
        Phase::TracerInstalled => match event {
            Event::Succeeded => Phase::Active,
            Event::Failed => Phase::Failed { failure: StartupFailure::MetricsPipeline },
        },
        Phase::Active => Phase::Draining { server_failed: event == Event::Failed },
        Phase::Draining { server_failed } => Phase::Stopped { server_failed },
        Phase::Stopped { server_failed } => phase,
        Phase::Failed { failure } => phase,
    }
}

/// Whether the process is over in this phase.
pub open spec fn is_final(phase: Phase) -> bool {
    phase is Stopped || phase is Failed
}

/// How far a phase is from the start; every step of a phase that is not
/// final raises it.
pub open spec fn progress(phase: Phase) -> nat {
    match phase {
        Phase::Init => 0,
        Phase::TracerInstalled => 1,
        Phase::Active => 2,
        Phase::Draining { server_failed } => 3,
        Phase::Stopped { server_failed } => 4,
        Phase::Failed { failure } => 4,
    }
}

impl Phase {
    /// The phase in which every process starts.
    pub fn start() -> (phase: Phase)
        ensures
            phase == Phase::Init,
    {
        Phase::Init
    }

    /// What the driver is to do in this phase.
    pub fn action(&self) -> (action: Action)
        ensures
            action == action_of(*self),
    {
        match *self {
            Phase::Init => Action::InstallTracer,
            Phase::TracerInstalled => Action::InstallMeter,
            Phase::Active => Action::Serve,
            Phase::Draining { server_failed: _ } => Action::ShutdownTracer,
            Phase::Stopped { server_failed } => Action::Exit { server_failed },
            Phase::Failed { failure } => Action::Abort { failure },
        }
    }

    /// The phase after this one, given how this phase's action went.
    pub fn advance(&self, event: Event) -> (next: Phase)
        ensures
            next == next_phase(*self, event),
    {
        match *self {
            Phase::Init => match event {
                Event::Succeeded => Phase::TracerInstalled,
                Event::Failed => Phase::Failed { failure: StartupFailure::TracePipeline },
            },
            Phase::TracerInstalled => match event {
                Event::Succeeded => Phase::Active,
                Event::Failed => Phase::Failed { failure: StartupFailure::MetricsPipeline },
            },
            Phase::Active => match event {
                Event::Succeeded => Phase::Draining { server_failed: false },
                Event::Failed => Phase::Draining { server_failed: true },
            },
            Phase::Draining { server_failed } => Phase::Stopped { server_failed },
            Phase::Stopped { server_failed } => Phase::Stopped { server_failed },
            Phase::Failed { failure } => Phase::Failed { failure },
        }
    }

    /// Whether the process is over.
    pub fn is_final(&self) -> (over: bool)
        ensures
            over == is_final(*self),
    {
        match *self {
            Phase::Stopped { server_failed: _ } => true,
            Phase::Failed { failure: _ } => true,
            _ => false,
        }
    }
}

/// The phase reached from `phase` after the given events, one per action.
pub open spec fn run(phase: Phase, events: Seq<Event>) -> Phase
    decreases events.len(),
{
    if events.len() == 0 {
        phase
    } else {
        run(next_phase(phase, events[0]), events.skip(1))
    }
}

/// The actions that the driver takes from `phase` while the given events
/// come in, one action before each event.
pub open spec fn actions(phase: Phase, events: Seq<Event>) -> Seq<Action>
    decreases events.len(),
{
    if events.len() == 0 {
        Seq::empty()
    } else {
        seq![action_of(phase)] + actions(next_phase(phase, events[0]), events.skip(1))
    }
}

/// How often `action` stands in `taken`.
pub open spec fn count(taken: Seq<Action>, action: Action) -> nat
    decreases taken.len(),
{
    if taken.len() == 0 {
        0
    } else {
        (if taken[0] == action { 1nat } else { 0nat }) + count(taken.skip(1), action)
    }
}

/// Every step of a phase that is not final moves the process on, and the
/// final phases are left by no event.
pub proof fn lemma_steps_make_progress(phase: Phase, event: Event)
    ensures
        !is_final(phase) ==> progress(next_phase(phase, event)) > progress(phase),
        is_final(phase) ==> next_phase(phase, event) == phase,
{
}

/// The server runs only with both providers installed: the phase in which
/// it runs is entered from one place alone, after the meter provider has
/// been installed on top of the tracer provider.
pub proof fn lemma_serve_needs_providers(phase: Phase, event: Event)
    ensures
        action_of(phase) == Action::Serve <==> phase == Phase::Active,
        next_phase(phase, event) == Phase::Active <==> phase == Phase::TracerInstalled && event
            == Event::Succeeded,
        next_phase(phase, event) == Phase::TracerInstalled <==> phase == Phase::Init && event
            == Event::Succeeded,
{
}

/// The tracer provider is shut down only after the server has stopped, and
/// always then: the draining phase follows the serving phase whatever the
/// server's end was, and nothing else leads to it.
pub proof fn lemma_shutdown_follows_serving(phase: Phase, event: Event)
    ensures
        action_of(phase) == Action::ShutdownTracer <==> phase is Draining,
        next_phase(phase, event) is Draining <==> phase == Phase::Active,
        phase is Draining ==> next_phase(phase, event) is Stopped,
        next_phase(phase, event) is Stopped ==> phase is Draining || phase is Stopped,
{
}

/// Whatever events come in, from any phase the driver serves at most once
/// and shuts the tracer provider down at most once.
pub proof fn lemma_at_most_once(phase: Phase, events: Seq<Event>)
    ensures
        count(actions(phase, events), Action::Serve) <= (if progress(phase) <= 2 {
            1nat
        } else {
            0nat
        }),
        count(actions(phase, events), Action::ShutdownTracer) <= (if progress(phase) <= 3 {
            1nat
        } else {
            0nat
        }),
    decreases events.len(),
{
    if events.len() > 0 {
        let rest = actions(next_phase(phase, events[0]), events.skip(1));
        let taken = actions(phase, events);
        lemma_at_most_once(next_phase(phase, events[0]), events.skip(1));
        assert(taken[0] == action_of(phase));
        assert(taken.skip(1) =~= rest);
    }
}

/// From the start, a process whose server has run and that has reached its
/// end shut the tracer provider down exactly once.
pub proof fn lemma_served_then_shut_down_once(events: Seq<Event>)
    requires
        run(Phase::Init, events) is Stopped,
    ensures
        count(actions(Phase::Init, events), Action::Serve) == 1,
        count(actions(Phase::Init, events), Action::ShutdownTracer) == 1,
{
    lemma_counts_to_stopped(Phase::Init, events);
}

/// The counts of both actions on a run that ends stopped, from any phase;
/// no such run starts from a failed startup.
proof fn lemma_counts_to_stopped(phase: Phase, events: Seq<Event>)
    requires
        run(phase, events) is Stopped,
    ensures
        !(phase is Failed),
        count(actions(phase, events), Action::Serve) == (if progress(phase) <= 2 {
            1nat
        } else {
            0nat
        }),
        count(actions(phase, events), Action::ShutdownTracer) == (if progress(phase) <= 3 {
            1nat
        } else {
            0nat
        }),
    decreases events.len(),
{
    if events.len() > 0 {
        let rest = actions(next_phase(phase, events[0]), events.skip(1));
        let taken = actions(phase, events);
        lemma_counts_to_stopped(next_phase(phase, events[0]), events.skip(1));
        assert(taken[0] == action_of(phase));
        assert(taken.skip(1) =~= rest);
    }
}

} // verus!

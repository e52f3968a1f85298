use fibonacci_server::lifecycle::Action;
use fibonacci_server::lifecycle::Event;
use fibonacci_server::lifecycle::Phase;
use fibonacci_server::lifecycle::StartupFailure;

fn drive(events: &[Event]) -> (Vec<Action>, Phase) {
    let mut phase = Phase::start();
    let mut taken = Vec::new();
    for event in events {
        taken.push(phase.action());
        phase = phase.advance(*event);
    }
    (taken, phase)
}

#[test]
fn a_clean_run() {
    let (taken, end) = drive(&[Event::Succeeded; 4]);
    assert_eq!(
        taken,
        vec![Action::InstallTracer, Action::InstallMeter, Action::Serve, Action::ShutdownTracer]
    );
    assert_eq!(end, Phase::Stopped { server_failed: false });
    assert!(end.is_final());
    assert_eq!(end.action(), Action::Exit { server_failed: false });
}

#[test]
fn the_trace_pipeline_fails() {
    let (taken, end) = drive(&[Event::Failed]);
    assert_eq!(taken, vec![Action::InstallTracer]);
    assert_eq!(end, Phase::Failed { failure: StartupFailure::TracePipeline });
    assert!(end.is_final());
    assert_eq!(end.action(), Action::Abort { failure: StartupFailure::TracePipeline });
}

#[test]
fn the_metrics_pipeline_fails() {
    let (taken, end) = drive(&[Event::Succeeded, Event::Failed]);
    assert_eq!(taken, vec![Action::InstallTracer, Action::InstallMeter]);
    assert_eq!(end, Phase::Failed { failure: StartupFailure::MetricsPipeline });
    assert_eq!(end.action(), Action::Abort { failure: StartupFailure::MetricsPipeline });
}

#[test]
fn the_server_fails() {
    let (taken, end) =
        drive(&[Event::Succeeded, Event::Succeeded, Event::Failed, Event::Succeeded]);
    assert_eq!(taken[3], Action::ShutdownTracer);
    assert_eq!(end, Phase::Stopped { server_failed: true });
    assert_eq!(end.action(), Action::Exit { server_failed: true });
}

#[test]
fn a_failed_shutdown_still_stops() {
    let (_, end) = drive(&[Event::Succeeded, Event::Succeeded, Event::Succeeded, Event::Failed]);
    assert_eq!(end, Phase::Stopped { server_failed: false });
}

#[test]
fn final_phases_stay() {
    for phase in [
        Phase::Stopped { server_failed: false },
        Phase::Stopped { server_failed: true },
        Phase::Failed { failure: StartupFailure::TracePipeline },
        Phase::Failed { failure: StartupFailure::MetricsPipeline },
    ] {
        assert!(phase.is_final());
        assert_eq!(phase.advance(Event::Succeeded), phase);
        assert_eq!(phase.advance(Event::Failed), phase);
    }
    for phase in [
        Phase::Init,
        Phase::TracerInstalled,
        Phase::Active,
        Phase::Draining { server_failed: false },
    ] {
        assert!(!phase.is_final());
    }
}

#[test]
fn serving_and_shutdown_happen_at_most_once() {
    let both = [Event::Succeeded, Event::Failed];
    for a in both {
        for b in both {
            for c in both {
                for d in both {
                    for e in both {
                        let (taken, end) = drive(&[a, b, c, d, e]);
                        let served = taken.iter().filter(|t| **t == Action::Serve).count();
                        let shut =
                            taken.iter().filter(|t| **t == Action::ShutdownTracer).count();
                        assert!(end.is_final());
                        assert_eq!(served, shut);
                        assert!(served <= 1);
                        assert_eq!(served == 1, matches!(end, Phase::Stopped { .. }));
                    }
                }
            }
        }
    }
}

#[test]
fn startup_failure_messages() {
    assert_eq!(
        StartupFailure::TracePipeline.message(),
        "failed to initialize the trace pipeline"
    );
    assert_eq!(
        StartupFailure::MetricsPipeline.message(),
        "failed to initialize the metrics pipeline"
    );
}

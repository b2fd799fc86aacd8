use servicers::child_proc::{run_processes, ChildProcess};
use servicers::engine::Engine;
use servicers::host::{ControlEvent, ServiceState};
use servicers::monitor_service::{status_running, BridgeEvent, BridgeStep, Lifecycle, LoopEnd};
use servicers::proc_config::{ProcessConfig, ProcessConfigState};
use servicers::scheduler::Unit;
use servicers::supervisor::{Action, Event, Phase};

fn process(program: &str, state: ProcessConfigState) -> ChildProcess {
    ChildProcess::from_config(ProcessConfig {
        program: program.to_string(),
        args: Vec::new(),
        cwd: ".".to_string(),
        state,
        pid: 0,
    })
}

fn engine(states: &[ProcessConfigState]) -> Engine {
    let units = states.iter().map(|&state| process("worker", state)).collect();
    Engine::new(run_processes(units)).0
}

fn phase_of(engine: &Engine, index: usize) -> Phase {
    match engine.tasks().get(index) {
        Some(Unit::Process(unit)) => unit.child.phase(),
        Some(Unit::Service(unit)) => unit.service.phase(),
        None => panic!("no unit at {}", index),
    }
}

/// Answers every action of a unit as a healthy worker would.
fn answer(action: Option<Action>, pid: u32) -> Event {
    match action {
        Some(Action::Start) => Event::Started(pid),
        Some(Action::Poll) => Event::StillRunning,
        Some(Action::Stop) => Event::Stopped,
        _ => Event::Woke,
    }
}

#[test]
fn engine_starts_running_with_the_signal_down() {
    let (engine, first) = Engine::new(run_processes(vec![process("one", ProcessConfigState::Enabled)]));
    assert_eq!(first, status_running());
    assert!(!engine.shutdown());
    assert_eq!(engine.lifecycle(), Lifecycle::Running);
    assert_eq!(engine.ended(), None);
    assert_eq!(engine.tasks().len(), 1);
    assert_eq!(phase_of(&engine, 0), Phase::Created);
}

#[test]
fn only_a_stop_request_raises_the_signal() {
    let mut engine = engine(&[ProcessConfigState::Enabled]);
    let events = [
        BridgeEvent::Timeout,
        BridgeEvent::Control(ControlEvent::Interrogate),
        BridgeEvent::Control(ControlEvent::Pause),
        BridgeEvent::Control(ControlEvent::Continue),
        BridgeEvent::Control(ControlEvent::Other),
    ];
    for event in events {
        let step = engine.control(event);
        assert!(!step.raise_shutdown);
        assert!(!engine.shutdown());
    }
    let step = engine.control(BridgeEvent::Control(ControlEvent::Stop));
    assert!(step.raise_shutdown);
    assert!(engine.shutdown());
    for event in events {
        engine.control(event);
        assert!(engine.shutdown());
    }
}

#[test]
fn units_read_the_signal_of_the_engine() {
    let mut engine = engine(&[ProcessConfigState::Enabled, ProcessConfigState::Enabled]);
    assert_eq!(engine.unit(0, Event::Woke), Some(Action::Start));
    assert_eq!(engine.unit(0, Event::Started(1)), Some(Action::Poll));
    assert_eq!(engine.unit(0, Event::StillRunning), Some(Action::Sleep(100)));
    assert_eq!(engine.unit(0, Event::Woke), Some(Action::Poll));
    assert_eq!(engine.unit(0, Event::StillRunning), Some(Action::Sleep(100)));
    engine.control(BridgeEvent::Control(ControlEvent::Stop));
    assert_eq!(engine.unit(0, Event::Woke), Some(Action::Stop));
    assert_eq!(engine.unit(0, Event::Stopped), Some(Action::Finish));
    assert_eq!(engine.unit(1, Event::Woke), Some(Action::Start));
    assert_eq!(engine.unit(1, Event::StartFailed), Some(Action::Finish));
    assert_eq!(engine.unit(2, Event::Woke), None);
    assert!(engine.tasks().all_finished());
}

#[test]
fn stopped_is_reported_when_the_units_of_the_engine_have_finished() {
    let mut engine = engine(&[ProcessConfigState::Enabled, ProcessConfigState::Disabled]);
    let mut events = [Event::Woke, Event::Woke];
    for _ in 0..7 {
        for index in 0..2 {
            events[index] = answer(engine.unit(index, events[index]), 10);
        }
    }
    let step = engine.control(BridgeEvent::Control(ControlEvent::Stop));
    assert_eq!(step.report.map(|status| status.current_state), Some(ServiceState::StopPending));
    let mut reported = false;
    for turn in 0..20 {
        let step = engine.control(BridgeEvent::Timeout);
        if let Some(status) = step.report {
            assert_eq!(status.current_state, ServiceState::Stopped);
            assert!(engine.tasks().all_finished());
            assert_eq!(step.end, Some(LoopEnd::Stopped));
            reported = true;
            break;
        }
        assert!(!engine.tasks().all_finished());
        let index = turn % 2;
        events[index] = answer(engine.unit(index, events[index]), 11);
    }
    assert!(reported);
    assert_eq!(engine.lifecycle(), Lifecycle::Stopped);
    for index in 0..2 {
        for event in [Event::Woke, Event::Started(5), Event::Exited] {
            assert_eq!(engine.unit(index, event), Some(Action::Finish));
        }
    }
    let quiet = BridgeStep { raise_shutdown: false, report: None, end: Some(LoopEnd::Stopped) };
    assert_eq!(engine.control(BridgeEvent::Timeout), quiet);
    assert_eq!(engine.control(BridgeEvent::Control(ControlEvent::Pause)), quiet);
}

#[test]
fn engine_without_units_stops_one_turn_after_the_request() {
    let mut engine = engine(&[]);
    let step = engine.control(BridgeEvent::Control(ControlEvent::Stop));
    assert_eq!(step.report.map(|status| status.current_state), Some(ServiceState::StopPending));
    assert_eq!(step.end, None);
    let step = engine.control(BridgeEvent::Timeout);
    assert_eq!(step.report.map(|status| status.current_state), Some(ServiceState::Stopped));
    assert_eq!(step.end, Some(LoopEnd::Stopped));
}

#[test]
fn disabling_in_the_engine_stops_restarts_of_that_unit_only() {
    let mut engine = engine(&[ProcessConfigState::Enabled, ProcessConfigState::Enabled]);
    for index in 0..2 {
        assert_eq!(engine.unit(index, Event::Woke), Some(Action::Start));
        assert_eq!(engine.unit(index, Event::Started(index as u32)), Some(Action::Poll));
    }
    engine.disable(0);
    engine.disable(9);
    assert_eq!(engine.unit(0, Event::Exited), Some(Action::Sleep(100)));
    assert_eq!(engine.unit(1, Event::Exited), Some(Action::Start));
    assert_eq!(engine.unit(0, Event::Woke), Some(Action::Sleep(100)));
    assert!(!engine.shutdown());
}

#[test]
fn disabling_in_the_engine_leaves_the_descriptors_alone() {
    let mut engine = engine(&[ProcessConfigState::Enabled, ProcessConfigState::Enabled]);
    engine.disable(1);
    match (engine.tasks().get(0), engine.tasks().get(1)) {
        (Some(Unit::Process(kept)), Some(Unit::Process(disabled))) => {
            assert_eq!(kept.config.state, ProcessConfigState::Enabled);
            assert_eq!(disabled.config.state, ProcessConfigState::Disabled);
            for unit in [kept, disabled] {
                assert_eq!(unit.config.program, "worker");
                assert!(unit.config.args.is_empty());
                assert_eq!(unit.config.cwd, ".");
                assert_eq!(unit.config.pid, 0);
                assert_eq!(unit.child(), None);
            }
        },
        other => panic!("unexpected units {:?}", other),
    }
    assert_eq!(engine.tasks().len(), 2);
}

#[test]
fn closed_channel_ends_a_pending_stop_of_the_engine_only_with_its_report() {
    let mut engine = engine(&[ProcessConfigState::Enabled]);
    engine.unit(0, Event::Woke);
    engine.unit(0, Event::Started(3));
    engine.control(BridgeEvent::Control(ControlEvent::Stop));
    let quiet = BridgeStep { raise_shutdown: false, report: None, end: None };
    assert_eq!(engine.control(BridgeEvent::Disconnected), quiet);
    engine.unit(0, Event::StillRunning);
    assert_eq!(engine.control(BridgeEvent::Disconnected), quiet);
    assert_eq!(engine.unit(0, Event::Woke), Some(Action::Stop));
    assert_eq!(engine.control(BridgeEvent::Disconnected), quiet);
    assert_eq!(engine.unit(0, Event::Stopped), Some(Action::Finish));
    let step = engine.control(BridgeEvent::Disconnected);
    assert_eq!(step.report.map(|status| status.current_state), Some(ServiceState::Stopped));
    assert_eq!(step.end, Some(LoopEnd::Stopped));
}

#[test]
fn closed_channel_leaves_the_signal_down_and_the_units_running() {
    let mut engine = engine(&[ProcessConfigState::Enabled]);
    engine.unit(0, Event::Woke);
    engine.unit(0, Event::Started(3));
    let step = engine.control(BridgeEvent::Disconnected);
    assert_eq!(step, BridgeStep { raise_shutdown: false, report: None, end: Some(LoopEnd::Disconnected) });
    assert!(!engine.shutdown());
    assert_eq!(engine.ended(), Some(LoopEnd::Disconnected));
    assert_eq!(engine.unit(0, Event::StillRunning), Some(Action::Sleep(100)));
    assert_eq!(engine.unit(0, Event::Woke), Some(Action::Poll));
    let step = engine.control(BridgeEvent::Control(ControlEvent::Stop));
    assert!(!step.raise_shutdown);
    assert_eq!(step.report, None);
    assert!(!engine.shutdown());
}

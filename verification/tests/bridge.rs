use servicers::host::{ControlEvent, ServiceState, ServiceStatus};
use servicers::monitor_service::{
    all_finished, event_handler, run_main_loop, run_service, status_paused, status_running,
    status_stop_pending, status_stopped, BridgeEvent, BridgeStep, Lifecycle, LifecycleBridge, LoopEnd,
    CONTROL_WAIT_SECS, STOP_WAIT_HINT_SECS,
};

const QUIET: BridgeStep = BridgeStep { raise_shutdown: false, report: None, end: None };

fn control(event: ControlEvent) -> BridgeEvent {
    BridgeEvent::Control(event)
}

fn bridge() -> LifecycleBridge {
    run_service().0
}

fn stopping() -> LifecycleBridge {
    let mut bridge = bridge();
    bridge.step(control(ControlEvent::Stop), false);
    bridge
}

#[test]
fn waits_are_one_and_five_seconds() {
    assert_eq!(CONTROL_WAIT_SECS, 1);
    assert_eq!(STOP_WAIT_HINT_SECS, 5);
}

#[test]
fn reports_are_filled_in_as_the_host_expects() {
    assert_eq!(
        status_running(),
        ServiceStatus {
            service_type: 16,
            current_state: ServiceState::Running,
            controls_accepted: 3,
            exit_code: 0,
            checkpoint: 0,
            wait_hint_secs: 0,
            process_id: None,
        }
    );
    assert_eq!(
        status_paused(),
        ServiceStatus {
            service_type: 16,
            current_state: ServiceState::Paused,
            controls_accepted: 3,
            exit_code: 0,
            checkpoint: 0,
            wait_hint_secs: 0,
            process_id: None,
        }
    );
    assert_eq!(
        status_stop_pending(),
        ServiceStatus {
            service_type: 16,
            current_state: ServiceState::StopPending,
            controls_accepted: 1,
            exit_code: 0,
            checkpoint: 1,
            wait_hint_secs: 5,
            process_id: None,
        }
    );
    assert_eq!(
        status_stopped(),
        ServiceStatus {
            service_type: 16,
            current_state: ServiceState::Stopped,
            controls_accepted: 1,
            exit_code: 0,
            checkpoint: 2,
            wait_hint_secs: 0,
            process_id: None,
        }
    );
}

#[test]
fn service_enters_running_and_says_so() {
    let (bridge, first) = run_service();
    assert_eq!(bridge.lifecycle(), Lifecycle::Running);
    assert_eq!(bridge.ended(), None);
    assert_eq!(first, status_running());
}

#[test]
fn callback_passes_four_events_on_and_declines_the_rest() {
    assert_eq!(event_handler(ControlEvent::Interrogate), Some(ControlEvent::Interrogate));
    assert_eq!(event_handler(ControlEvent::Continue), Some(ControlEvent::Continue));
    assert_eq!(event_handler(ControlEvent::Pause), Some(ControlEvent::Pause));
    assert_eq!(event_handler(ControlEvent::Stop), Some(ControlEvent::Stop));
    assert_eq!(event_handler(ControlEvent::Other), None);
}

#[test]
fn pause_is_reported() {
    let mut bridge = bridge();
    let step = bridge.step(control(ControlEvent::Pause), false);
    assert_eq!(step, BridgeStep { raise_shutdown: false, report: Some(status_paused()), end: None });
    assert_eq!(bridge.lifecycle(), Lifecycle::Paused);
}

#[test]
fn continue_is_reported() {
    let mut bridge = bridge();
    bridge.step(control(ControlEvent::Pause), false);
    let step = bridge.step(control(ControlEvent::Continue), false);
    assert_eq!(step, BridgeStep { raise_shutdown: false, report: Some(status_running()), end: None });
    assert_eq!(bridge.lifecycle(), Lifecycle::Running);
}

#[test]
fn pause_of_a_paused_and_continue_of_a_running_service_are_reported_again() {
    let mut bridge = bridge();
    let step = bridge.step(control(ControlEvent::Continue), true);
    assert_eq!(step.report, Some(status_running()));
    assert_eq!(bridge.lifecycle(), Lifecycle::Running);
    bridge.step(control(ControlEvent::Pause), true);
    let step = bridge.step(control(ControlEvent::Pause), true);
    assert_eq!(step.report, Some(status_paused()));
    assert_eq!(bridge.lifecycle(), Lifecycle::Paused);
}

#[test]
fn stop_raises_the_signal_and_is_reported_as_pending() {
    for paused in [false, true] {
        let mut bridge = bridge();
        if paused {
            bridge.step(control(ControlEvent::Pause), false);
        }
        let step = bridge.step(control(ControlEvent::Stop), false);
        assert_eq!(
            step,
            BridgeStep { raise_shutdown: true, report: Some(status_stop_pending()), end: None }
        );
        assert_eq!(bridge.lifecycle(), Lifecycle::StopPending);
        assert_eq!(bridge.ended(), None);
    }
}

#[test]
fn stop_is_pending_even_when_all_units_have_finished_already() {
    let mut bridge = bridge();
    let step = bridge.step(control(ControlEvent::Stop), true);
    assert_eq!(step.report, Some(status_stop_pending()));
    assert_eq!(step.end, None);
    let step = bridge.step(BridgeEvent::Timeout, true);
    assert_eq!(step.report, Some(status_stopped()));
    assert_eq!(step.end, Some(LoopEnd::Stopped));
}

#[test]
fn stopped_is_reported_when_all_units_have_finished() {
    let mut bridge = stopping();
    assert_eq!(bridge.step(BridgeEvent::Timeout, false), QUIET);
    assert_eq!(bridge.step(control(ControlEvent::Interrogate), false), QUIET);
    assert_eq!(bridge.lifecycle(), Lifecycle::StopPending);
    let step = bridge.step(BridgeEvent::Timeout, true);
    assert_eq!(
        step,
        BridgeStep { raise_shutdown: false, report: Some(status_stopped()), end: Some(LoopEnd::Stopped) }
    );
    assert_eq!(bridge.lifecycle(), Lifecycle::Stopped);
    assert_eq!(bridge.ended(), Some(LoopEnd::Stopped));
}

#[test]
fn controls_are_ignored_while_a_stop_is_pending() {
    let mut bridge = stopping();
    for event in [ControlEvent::Pause, ControlEvent::Continue, ControlEvent::Stop, ControlEvent::Other] {
        assert_eq!(bridge.step(control(event), false), QUIET);
        assert_eq!(bridge.lifecycle(), Lifecycle::StopPending);
    }
    let step = bridge.step(control(ControlEvent::Pause), true);
    assert_eq!(step.report, Some(status_stopped()));
}

#[test]
fn interrogate_and_timeout_change_nothing() {
    let mut bridge = bridge();
    for all in [false, true] {
        assert_eq!(bridge.step(control(ControlEvent::Interrogate), all), QUIET);
        assert_eq!(bridge.step(BridgeEvent::Timeout, all), QUIET);
        assert_eq!(bridge.step(control(ControlEvent::Other), all), QUIET);
        assert_eq!(bridge.lifecycle(), Lifecycle::Running);
    }
    bridge.step(control(ControlEvent::Pause), false);
    assert_eq!(bridge.step(control(ControlEvent::Interrogate), true), QUIET);
    assert_eq!(bridge.step(BridgeEvent::Timeout, true), QUIET);
    assert_eq!(bridge.lifecycle(), Lifecycle::Paused);
}

#[test]
fn closed_channel_ends_the_loop_without_a_report() {
    for pause_first in [false, true] {
        for all in [false, true] {
            let mut bridge = bridge();
            if pause_first {
                bridge.step(control(ControlEvent::Pause), false);
            }
            let step = bridge.step(BridgeEvent::Disconnected, all);
            assert_eq!(
                step,
                BridgeStep { raise_shutdown: false, report: None, end: Some(LoopEnd::Disconnected) }
            );
            assert_eq!(bridge.ended(), Some(LoopEnd::Disconnected));
        }
    }
}

#[test]
fn closed_channel_does_not_end_a_pending_stop() {
    let mut pending = stopping();
    for _ in 0..5 {
        assert_eq!(pending.step(BridgeEvent::Disconnected, false), QUIET);
        assert_eq!(pending.lifecycle(), Lifecycle::StopPending);
        assert_eq!(pending.ended(), None);
    }
    let step = pending.step(BridgeEvent::Disconnected, true);
    assert_eq!(
        step,
        BridgeStep { raise_shutdown: false, report: Some(status_stopped()), end: Some(LoopEnd::Stopped) }
    );
    assert_eq!(pending.lifecycle(), Lifecycle::Stopped);
    assert_eq!(pending.ended(), Some(LoopEnd::Stopped));
}

#[test]
fn pause_then_stop_then_closed_channel_with_no_units() {
    let (mut bridge, _) = run_service();
    let none: Vec<bool> = Vec::new();
    let mut states = Vec::new();
    let mut shutdown = false;
    let mut ended = None;
    let events = [
        control(ControlEvent::Pause),
        control(ControlEvent::Stop),
        BridgeEvent::Disconnected,
    ];
    for event in events {
        let step = run_main_loop(&mut bridge, event, &none);
        shutdown = shutdown || step.raise_shutdown;
        states.extend(step.report.map(|status| status.current_state));
        ended = step.end;
    }
    assert_eq!(states, vec![ServiceState::Paused, ServiceState::StopPending, ServiceState::Stopped]);
    assert!(shutdown);
    assert_eq!(ended, Some(LoopEnd::Stopped));
}

#[test]
fn refused_report_ends_the_loop_as_failed() {
    let mut bridge = bridge();
    bridge.step(control(ControlEvent::Pause), false);
    let step = bridge.step(BridgeEvent::ReportRejected, false);
    assert_eq!(step, BridgeStep { raise_shutdown: false, report: None, end: Some(LoopEnd::ReportFailed) });
    assert_eq!(bridge.ended(), Some(LoopEnd::ReportFailed));
    assert_eq!(bridge.lifecycle(), Lifecycle::Paused);
    let step = bridge.step(control(ControlEvent::Stop), true);
    assert_eq!(step, BridgeStep { raise_shutdown: false, report: None, end: Some(LoopEnd::ReportFailed) });
}

#[test]
fn refused_stopped_report_turns_the_end_into_a_failure() {
    let mut bridge = stopping();
    bridge.step(BridgeEvent::Timeout, true);
    assert_eq!(bridge.ended(), Some(LoopEnd::Stopped));
    let step = bridge.step(BridgeEvent::ReportRejected, true);
    assert_eq!(step.end, Some(LoopEnd::ReportFailed));
    assert_eq!(step.report, None);
    assert_eq!(bridge.ended(), Some(LoopEnd::ReportFailed));
}

#[test]
fn nothing_is_asked_once_the_loop_has_ended() {
    let mut stopped = stopping();
    stopped.step(BridgeEvent::Timeout, true);
    let mut closed = bridge();
    closed.step(BridgeEvent::Disconnected, false);
    let events = [
        control(ControlEvent::Stop),
        control(ControlEvent::Pause),
        control(ControlEvent::Continue),
        control(ControlEvent::Interrogate),
        BridgeEvent::Timeout,
        BridgeEvent::Disconnected,
    ];
    for event in events {
        for all in [false, true] {
            let step = stopped.step(event, all);
            assert_eq!(step, BridgeStep { raise_shutdown: false, report: None, end: Some(LoopEnd::Stopped) });
            let step = closed.step(event, all);
            assert_eq!(
                step,
                BridgeStep { raise_shutdown: false, report: None, end: Some(LoopEnd::Disconnected) }
            );
        }
    }
    assert_eq!(stopped.lifecycle(), Lifecycle::Stopped);
    assert_eq!(closed.lifecycle(), Lifecycle::Running);
}

#[test]
fn all_flags_must_be_set() {
    assert!(all_finished(&vec![]));
    assert!(all_finished(&vec![true]));
    assert!(all_finished(&vec![true, true, true]));
    assert!(!all_finished(&vec![false]));
    assert!(!all_finished(&vec![true, false, true]));
    assert!(!all_finished(&vec![true, true, false]));
    assert!(!all_finished(&vec![false, true, true]));
}

#[test]
fn turn_of_the_loop_reports_stopped_only_with_every_flag_set() {
    let mut bridge = bridge();
    let step = run_main_loop(&mut bridge, control(ControlEvent::Stop), &vec![false, false]);
    assert!(step.raise_shutdown);
    assert_eq!(step.report, Some(status_stop_pending()));
    assert_eq!(run_main_loop(&mut bridge, BridgeEvent::Timeout, &vec![false, false]), QUIET);
    assert_eq!(run_main_loop(&mut bridge, BridgeEvent::Timeout, &vec![true, false]), QUIET);
    assert_eq!(run_main_loop(&mut bridge, BridgeEvent::Timeout, &vec![false, true]), QUIET);
    let step = run_main_loop(&mut bridge, BridgeEvent::Timeout, &vec![true, true]);
    assert_eq!(step.report, Some(status_stopped()));
    assert_eq!(step.end, Some(LoopEnd::Stopped));
    assert_eq!(bridge.lifecycle(), Lifecycle::Stopped);
}

#[test]
fn signal_is_raised_once() {
    let mut bridge = bridge();
    let mut raised = 0;
    let events = [
        control(ControlEvent::Pause),
        control(ControlEvent::Stop),
        control(ControlEvent::Stop),
        BridgeEvent::Timeout,
        control(ControlEvent::Stop),
        control(ControlEvent::Continue),
    ];
    for event in events {
        if bridge.step(event, false).raise_shutdown {
            raised += 1;
        }
    }
    for event in events {
        if bridge.step(event, true).raise_shutdown {
            raised += 1;
        }
    }
    assert_eq!(raised, 1);
}

use servicers::child_proc::{run_processes, ChildProcess};
use servicers::host::{ControlEvent, ServiceState};
use servicers::monitor_service::{run_main_loop, run_service, BridgeEvent, LoopEnd};
use servicers::proc_config::{ProcessConfig, ProcessConfigState};
use servicers::scheduler::{TaskSet, Unit};
use servicers::supervisor::{Action, Event, Phase};

/// A worker as the operating system would hold it.
struct Worker {
    alive: bool,
    crashes_left: u32,
    starts: u32,
    polls: u32,
    stops: u32,
}

/// Performs the actions that the units ask for, on workers of its own.
struct World {
    workers: Vec<Worker>,
    events: Vec<Event>,
    asked: Vec<Vec<Action>>,
    next_pid: u32,
}

impl World {
    fn new(crashes: &[u32]) -> World {
        World {
            workers: crashes
                .iter()
                .map(|&crashes_left| Worker { alive: false, crashes_left, starts: 0, polls: 0, stops: 0 })
                .collect(),
            events: crashes.iter().map(|_| Event::Woke).collect(),
            asked: crashes.iter().map(|_| Vec::new()).collect(),
            next_pid: 1000,
        }
    }

    fn tick(&mut self, tasks: &mut TaskSet, index: usize, shutdown: bool) -> Action {
        let action = tasks.run(index, shutdown, self.events[index]).unwrap();
        self.asked[index].push(action);
        let worker = &mut self.workers[index];
        self.events[index] = match action {
            Action::Start => {
                worker.starts += 1;
                worker.alive = true;
                self.next_pid += 1;
                Event::Started(self.next_pid)
            },
            Action::Poll => {
                worker.polls += 1;
                if worker.alive && worker.crashes_left > 0 {
                    worker.crashes_left -= 1;
                    worker.alive = false;
                }
                if worker.alive {
                    Event::StillRunning
                } else {
                    Event::Exited
                }
            },
            Action::Stop => {
                worker.stops += 1;
                worker.alive = false;
                Event::Stopped
            },
            Action::Sleep(_) | Action::Finish => Event::Woke,
        };
        action
    }
}

fn process(program: &str, state: ProcessConfigState) -> ChildProcess {
    ChildProcess::from_config(ProcessConfig {
        program: program.to_string(),
        args: Vec::new(),
        cwd: ".".to_string(),
        state,
        pid: 0,
    })
}

fn phase_of(tasks: &TaskSet, index: usize) -> Phase {
    match tasks.get(index) {
        Some(Unit::Process(unit)) => unit.child.phase(),
        Some(Unit::Service(unit)) => unit.service.phase(),
        None => panic!("no unit at {}", index),
    }
}

fn handle_of(tasks: &TaskSet, index: usize) -> Option<u32> {
    match tasks.get(index) {
        Some(Unit::Process(unit)) => unit.child(),
        Some(Unit::Service(unit)) => unit.service.handle(),
        None => panic!("no unit at {}", index),
    }
}

#[test]
fn crashing_unit_is_started_once_more_than_it_crashed() {
    for crashes in [0u32, 1, 5, 23] {
        let mut tasks = run_processes(vec![
            process("crashing", ProcessConfigState::Enabled),
            process("steady", ProcessConfigState::Enabled),
        ]);
        let mut world = World::new(&[crashes, 0]);
        for _ in 0..400 {
            world.tick(&mut tasks, 0, false);
            world.tick(&mut tasks, 1, false);
        }
        assert_eq!(world.workers[0].starts, crashes + 1);
        assert_eq!(world.workers[1].starts, 1);
        assert!(world.workers[0].alive);
        assert!(world.workers[1].alive);
        assert_eq!(world.workers[0].stops, 0);
        assert_eq!(world.workers[1].stops, 0);
    }
}

#[test]
fn every_restart_follows_the_poll_that_saw_the_exit() {
    let mut tasks = run_processes(vec![process("crashing", ProcessConfigState::Enabled)]);
    let mut world = World::new(&[6]);
    for _ in 0..200 {
        world.tick(&mut tasks, 0, false);
    }
    let asked = &world.asked[0];
    let mut restarts = 0;
    for at in 1..asked.len() {
        if asked[at] == Action::Start {
            assert_eq!(asked[at - 1], Action::Poll);
            restarts += 1;
        }
        if asked[at] == Action::Poll {
            assert_eq!(asked[at - 1], if at == 1 { Action::Start } else { Action::Sleep(100) });
        }
    }
    assert_eq!(restarts, 6);
}

#[test]
fn stop_in_the_middle_of_a_restart() {
    let mut tasks = run_processes(vec![
        process("restarting", ProcessConfigState::Enabled),
        process("steady", ProcessConfigState::Enabled),
    ]);
    let mut world = World::new(&[1, 0]);
    let (mut bridge, first) = run_service();
    let mut reports = vec![first.current_state];
    let mut shutdown = false;

    while phase_of(&tasks, 0) != Phase::Restarting {
        world.tick(&mut tasks, 0, shutdown);
        world.tick(&mut tasks, 1, shutdown);
    }
    assert_eq!(world.workers[0].starts, 2);
    assert_eq!(handle_of(&tasks, 0), None);
    while phase_of(&tasks, 1) != Phase::Sleeping {
        world.tick(&mut tasks, 1, shutdown);
    }

    let step = run_main_loop(&mut bridge, BridgeEvent::Control(ControlEvent::Stop), &tasks.finished());
    assert!(step.raise_shutdown);
    shutdown = shutdown || step.raise_shutdown;
    reports.extend(step.report.map(|status| status.current_state));
    assert_eq!(step.end, None);
    assert_eq!(reports, vec![ServiceState::Running, ServiceState::StopPending]);

    let after_signal: Vec<usize> = vec![world.asked[0].len(), world.asked[1].len()];
    let mut turns = 0;
    let mut ended = None;
    while ended.is_none() {
        turns += 1;
        assert!(turns < 50);
        if turns % 2 == 0 {
            world.tick(&mut tasks, 0, shutdown);
        }
        if turns % 3 == 0 {
            world.tick(&mut tasks, 1, shutdown);
        }
        let finished = tasks.finished();
        let step = run_main_loop(&mut bridge, BridgeEvent::Timeout, &finished);
        assert!(!step.raise_shutdown);
        if let Some(status) = step.report {
            assert_eq!(status.current_state, ServiceState::Stopped);
            assert_eq!(finished, vec![true, true]);
            assert!(tasks.all_finished());
            reports.push(status.current_state);
        } else {
            assert!(!tasks.all_finished());
        }
        ended = step.end;
    }
    assert_eq!(ended, Some(LoopEnd::Stopped));
    assert_eq!(
        reports,
        vec![ServiceState::Running, ServiceState::StopPending, ServiceState::Stopped]
    );
    assert_eq!(world.workers[0].starts, 2);
    assert_eq!(world.workers[1].starts, 1);
    assert_eq!(world.workers[0].stops, 1);
    assert_eq!(world.workers[1].stops, 1);
    assert!(!world.workers[0].alive);
    assert!(!world.workers[1].alive);
    assert_eq!(
        world.asked[0][after_signal[0]..],
        [Action::Sleep(100), Action::Stop, Action::Finish]
    );
    assert_eq!(world.asked[1][after_signal[1]..], [Action::Stop, Action::Finish]);
    for index in 0..2 {
        let sleeps = world.asked[index][after_signal[index]..]
            .iter()
            .filter(|&&action| action == Action::Sleep(100))
            .count();
        assert!(sleeps <= 1);
        assert_eq!(handle_of(&tasks, index), None);
    }
}

#[test]
fn channel_closes_and_no_stop_was_ever_sent() {
    let mut tasks = run_processes(vec![
        process("one", ProcessConfigState::Enabled),
        process("two", ProcessConfigState::Enabled),
    ]);
    let mut world = World::new(&[0, 0]);
    let (mut bridge, first) = run_service();
    let mut reports = vec![first.current_state];
    let mut raised = false;
    let events = [
        BridgeEvent::Timeout,
        BridgeEvent::Control(ControlEvent::Interrogate),
        BridgeEvent::Control(ControlEvent::Pause),
        BridgeEvent::Timeout,
        BridgeEvent::Control(ControlEvent::Continue),
        BridgeEvent::Disconnected,
    ];
    let mut ended = None;
    for event in events {
        world.tick(&mut tasks, 0, raised);
        world.tick(&mut tasks, 1, raised);
        let step = run_main_loop(&mut bridge, event, &tasks.finished());
        raised = raised || step.raise_shutdown;
        reports.extend(step.report.map(|status| status.current_state));
        ended = step.end;
    }
    assert_eq!(ended, Some(LoopEnd::Disconnected));
    assert!(!raised);
    assert_eq!(
        reports,
        vec![ServiceState::Running, ServiceState::Paused, ServiceState::Running]
    );
    for event in [BridgeEvent::Timeout, BridgeEvent::Control(ControlEvent::Stop), BridgeEvent::Disconnected] {
        for flags in [vec![false, false], vec![true, true], vec![]] {
            let step = run_main_loop(&mut bridge, event, &flags);
            assert_eq!(step.report, None);
            assert!(!step.raise_shutdown);
            assert_eq!(step.end, Some(LoopEnd::Disconnected));
        }
    }
    assert!(!reports.contains(&ServiceState::Stopped));
    assert!(!reports.contains(&ServiceState::StopPending));
}

#[test]
fn disabled_unit_leaves_a_worker_of_its_name_alone() {
    let mut tasks = run_processes(vec![
        process("C:/nginx/nginx.exe", ProcessConfigState::Disabled),
        process("steady", ProcessConfigState::Enabled),
    ]);
    let mut world = World::new(&[0, 0]);
    world.workers[0].alive = true;
    for _ in 0..100 {
        let action = world.tick(&mut tasks, 0, false);
        assert_eq!(action, Action::Sleep(100));
        assert_eq!(handle_of(&tasks, 0), None);
        world.tick(&mut tasks, 1, false);
    }
    assert_eq!(tasks.run(0, false, Event::Started(4242)), Some(Action::Sleep(100)));
    assert_eq!(tasks.run(0, false, Event::StillRunning), Some(Action::Sleep(100)));
    assert_eq!(handle_of(&tasks, 0), None);
    assert_eq!(world.tick(&mut tasks, 0, true), Action::Finish);
    assert_eq!(world.workers[0].starts, 0);
    assert_eq!(world.workers[0].polls, 0);
    assert_eq!(world.workers[0].stops, 0);
    assert!(world.workers[0].alive);
    assert_eq!(world.workers[1].starts, 1);
    assert_eq!(world.asked[0].iter().filter(|&&action| action != Action::Sleep(100)).count(), 1);
}

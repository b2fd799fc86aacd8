//! The bridge between the host's service lifecycle and the supervised
//! units. It takes the host's control events, raises the shutdown signal
//! when the host asks for a stop, and reports the service as stopped only
//! when every unit has finished.

use crate::child_proc::ChildProcess;
use crate::host::{
    ControlEvent, ServiceState, ServiceStatus, ACCEPT_PAUSE_CONTINUE, ACCEPT_STOP, TYPE_OWN_PROCESS,
};
use crate::scheduler::{TaskSet, Unit};
use crate::supervisor::{Event, Phase, UnitState};
use vstd::prelude::*;

verus! {

/// Seconds to wait for a control event before looking at the units again.
pub const CONTROL_WAIT_SECS: u64 = 1;

/// Seconds that the host is told a stop may take.
pub const STOP_WAIT_HINT_SECS: u64 = 5;

/// State of the service as the host sees it.
#[derive(Debug, Clone, Copy, PartialEq, Eq, Structural)]
pub enum Lifecycle {
    Running,
    Paused,
    StopPending,
    Stopped,
}

/// Why the bridge has left its loop.
#[derive(Debug, Clone, Copy, PartialEq, Eq, Structural)]
pub enum LoopEnd {
    /// The service was stopped and the host was told so.
    Stopped,
    /// The control channel was closed and no stop was pending.
    Disconnected,
    /// The host refused a status report.
    ReportFailed,
}

/// What the caller reports to the bridge.
#[derive(Debug, Clone, Copy, PartialEq, Eq, Structural)]
pub enum BridgeEvent {
    /// The host sent a control event.
    Control(ControlEvent),
    /// No control event came within the wait.
    Timeout,
    /// The control channel is closed.
    Disconnected,
    /// The host refused the status report of the last step.
    ReportRejected,
}

/// What the bridge asks of the caller, in this order: raise the shutdown
/// signal, report the status to the host, leave the loop.
#[derive(Debug, Clone, Copy, PartialEq, Eq, Structural)]
pub struct BridgeStep {
    pub raise_shutdown: bool,
    pub report: Option<ServiceStatus>,
    pub end: Option<LoopEnd>,
}

/// Mathematical state of the bridge.
pub ghost struct BridgeState {
    pub lifecycle: Lifecycle,
    pub ended: Option<LoopEnd>,
}

/// The report that the service is running.
pub open spec fn running_status() -> ServiceStatus {
    ServiceStatus {
        service_type: TYPE_OWN_PROCESS,
        current_state: ServiceState::Running,
        controls_accepted: ACCEPT_STOP | ACCEPT_PAUSE_CONTINUE,
        exit_code: 0,
        checkpoint: 0,
        wait_hint_secs: 0,
        process_id: None,
    }
}

/// The report that the service is paused.
pub open spec fn paused_status() -> ServiceStatus {
    ServiceStatus {
        service_type: TYPE_OWN_PROCESS,
        current_state: ServiceState::Paused,
        controls_accepted: ACCEPT_STOP | ACCEPT_PAUSE_CONTINUE,
        exit_code: 0,
        checkpoint: 0,
        wait_hint_secs: 0,
        process_id: None,
    }
}

/// The report that the service is about to stop, with the time that the
/// host is to allow for it.
pub open spec fn stop_pending_status() -> ServiceStatus {
    ServiceStatus {
        service_type: TYPE_OWN_PROCESS,
        current_state: ServiceState::StopPending,
        controls_accepted: ACCEPT_STOP,
        exit_code: 0,
        checkpoint: 1,
        wait_hint_secs: STOP_WAIT_HINT_SECS,
        process_id: None,
    }
}

/// The report that the service has stopped.
pub open spec fn stopped_status() -> ServiceStatus {
    ServiceStatus {
        service_type: TYPE_OWN_PROCESS,
        current_state: ServiceState::Stopped,
        controls_accepted: ACCEPT_STOP,
        exit_code: 0,
        checkpoint: 2,
        wait_hint_secs: 0,
        process_id: None,
    }
}

impl BridgeStep {
    /// A step that asks for nothing.
    pub open spec fn quiet() -> BridgeStep {
        BridgeStep { raise_shutdown: false, report: None, end: None }
    }

    /// A step that asks only for `status` to be reported.
    pub open spec fn reporting(status: ServiceStatus) -> BridgeStep {
        BridgeStep { raise_shutdown: false, report: Some(status), end: None }
    }

    /// A step that asks only to leave the loop.
    pub open spec fn leaving(end: LoopEnd) -> BridgeStep {
        BridgeStep { raise_shutdown: false, report: None, end: Some(end) }
    }

    /// Whether the step tells the host that the service has stopped.
    pub open spec fn reports_stopped(self) -> bool {
        self.report matches Some(status) && status.current_state == ServiceState::Stopped
    }
}

impl BridgeState {
    /// The state at the start: running, in the loop.
    pub open spec fn fresh() -> BridgeState {
        BridgeState { lifecycle: Lifecycle::Running, ended: None }
    }

    /// A stopped service has left the loop, and the loop is left as stopped
    /// only by a stopped service.
    pub open spec fn wf(self) -> bool {
        &&& self.lifecycle == Lifecycle::Stopped ==> self.ended is Some
        &&& self.ended == Some(LoopEnd::Stopped) ==> self.lifecycle == Lifecycle::Stopped
    }
}

/// One step of the bridge: the state after `event`, and what is asked of
/// the caller. `all_finished` tells whether every unit has left its loop.
///
/// A refused report ends the loop at once. Once the loop has ended nothing
/// is asked any more. While running or paused, a pause and a continue are
/// reported, a stop raises the shutdown signal and is reported as pending,
/// and a closed channel ends the loop without a report; any other event
/// changes nothing. While a stop is pending, the units are looked at first,
/// whatever the event: once all have finished, the service is reported as
/// stopped and the loop ends. Until then nothing is asked and the loop goes
/// on, also when the channel is closed: a pending stop always comes to its
/// report.
pub open spec fn bridge_next(s: BridgeState, event: BridgeEvent, all_finished: bool) -> (
    BridgeState,
    BridgeStep,
) {
    if event == BridgeEvent::ReportRejected {
        (
            BridgeState { lifecycle: s.lifecycle, ended: Some(LoopEnd::ReportFailed) },
            BridgeStep::leaving(LoopEnd::ReportFailed),
        )
    } else if s.ended is Some {
        (s, BridgeStep::leaving(s.ended->0))
    } else {
        match s.lifecycle {
            Lifecycle::Running | Lifecycle::Paused => match event {
                BridgeEvent::Disconnected => (
                    BridgeState { lifecycle: s.lifecycle, ended: Some(LoopEnd::Disconnected) },
                    BridgeStep::leaving(LoopEnd::Disconnected),
                ),
                BridgeEvent::Control(ControlEvent::Pause) => (
                    BridgeState { lifecycle: Lifecycle::Paused, ended: None },
                    BridgeStep::reporting(paused_status()),
                ),
                BridgeEvent::Control(ControlEvent::Continue) => (
                    BridgeState { lifecycle: Lifecycle::Running, ended: None },
                    BridgeStep::reporting(running_status()),
                ),
                BridgeEvent::Control(ControlEvent::Stop) => (
                    BridgeState { lifecycle: Lifecycle::StopPending, ended: None },
                    BridgeStep { raise_shutdown: true, report: Some(stop_pending_status()), end: None },
                ),
                _ => (s, BridgeStep::quiet()),
            },
            Lifecycle::StopPending | Lifecycle::Stopped => if all_finished {
                (
                    BridgeState { lifecycle: Lifecycle::Stopped, ended: Some(LoopEnd::Stopped) },
                    BridgeStep {
                        raise_shutdown: false,
                        report: Some(stopped_status()),
                        end: Some(LoopEnd::Stopped),
                    },
                )
            } else {
                (s, BridgeStep::quiet())
            },
        }
    }
}

/// What the caller hands to one step of the bridge.
pub ghost struct BridgeInput {
    pub event: BridgeEvent,
    pub all_finished: bool,
}

/// The state that `inputs`, taken in order, lead to from `s`.
pub open spec fn bridge_run(s: BridgeState, inputs: Seq<BridgeInput>) -> BridgeState
    decreases inputs.len(),
{
    if inputs.len() == 0 {
        s
    } else {
        let last = inputs.last();
        bridge_next(bridge_run(s, inputs.drop_last()), last.event, last.all_finished).0
    }
}

/// What step `at` of the run asks of the caller.
pub open spec fn bridge_asks(s: BridgeState, inputs: Seq<BridgeInput>, at: int) -> BridgeStep
    recommends
        0 <= at < inputs.len(),
{
    bridge_next(bridge_run(s, inputs.take(at)), inputs[at].event, inputs[at].all_finished).1
}

/// The step that answers a stop request of the host: the shutdown signal
/// is raised and the stop is reported as pending.
pub open spec fn announces_stop(step: BridgeStep) -> bool {
    step == (BridgeStep { raise_shutdown: true, report: Some(stop_pending_status()), end: None })
}

/// A run of `at + 1` inputs is the run of the first `at`, then one step.
pub proof fn lemma_bridge_run_unfolds(s: BridgeState, inputs: Seq<BridgeInput>, at: int)
    requires
        0 <= at < inputs.len(),
    ensures
        bridge_run(s, inputs.take(at + 1)) == bridge_next(
            bridge_run(s, inputs.take(at)),
            inputs[at].event,
            inputs[at].all_finished,
        ).0,
        bridge_run(s, inputs.take(0)) == s,
{
    assert(inputs.take(at + 1).drop_last() =~= inputs.take(at));
    assert(inputs.take(at + 1).last() == inputs[at]);
    assert(inputs.take(0) =~= Seq::<BridgeInput>::empty());
}

/// The transitions of the lifecycle, one by one. A pause and a continue
/// are reported and change nothing else. A stop raises the shutdown signal
/// and is reported as pending. A pending stop becomes a stop, reported to
/// the host, when all units have finished, and not before, whatever the
/// event that the step is taken on, a closed channel too. An interrogate
/// and a timeout change nothing and ask for nothing while the service runs
/// or is paused, and a closed channel then ends the loop with no report.
pub proof fn law_lifecycle_transitions(s: BridgeState, all_finished: bool)
    requires
        s.wf(),
        s.ended is None,
    ensures
        s.lifecycle == Lifecycle::Running || s.lifecycle == Lifecycle::Paused ==> {
            &&& bridge_next(s, BridgeEvent::Control(ControlEvent::Pause), all_finished) == (
                BridgeState { lifecycle: Lifecycle::Paused, ended: None },
                BridgeStep::reporting(paused_status()),
            )
            &&& bridge_next(s, BridgeEvent::Control(ControlEvent::Continue), all_finished) == (
                BridgeState { lifecycle: Lifecycle::Running, ended: None },
                BridgeStep::reporting(running_status()),
            )
            &&& bridge_next(s, BridgeEvent::Control(ControlEvent::Stop), all_finished).0 == (BridgeState {
                lifecycle: Lifecycle::StopPending,
                ended: None,
            })
            &&& announces_stop(bridge_next(s, BridgeEvent::Control(ControlEvent::Stop), all_finished).1)
            &&& bridge_next(s, BridgeEvent::Timeout, all_finished) == (s, BridgeStep::quiet())
            &&& bridge_next(s, BridgeEvent::Disconnected, all_finished) == (
                BridgeState { lifecycle: s.lifecycle, ended: Some(LoopEnd::Disconnected) },
                BridgeStep::leaving(LoopEnd::Disconnected),
            )
        },
        s.lifecycle == Lifecycle::StopPending ==> forall|event: BridgeEvent|
            event != BridgeEvent::ReportRejected ==> #[trigger] bridge_next(s, event, all_finished) == (if all_finished {
                (
                    BridgeState { lifecycle: Lifecycle::Stopped, ended: Some(LoopEnd::Stopped) },
                    BridgeStep {
                        raise_shutdown: false,
                        report: Some(stopped_status()),
                        end: Some(LoopEnd::Stopped),
                    },
                )
            } else {
                (s, BridgeStep::quiet())
            }),
        s.lifecycle != Lifecycle::StopPending ==> bridge_next(
            s,
            BridgeEvent::Control(ControlEvent::Interrogate),
            all_finished,
        ) == (s, BridgeStep::quiet()),
{
}

/// A pending stop always comes to its report. From the step that took the
/// stop request on, as long as no report is refused: while a unit is
/// unfinished the bridge asks for nothing and stays in its loop, whatever
/// happens, the closing of the channel too; and at the first step at which
/// all units have finished it tells the host that the service has stopped,
/// and ends the loop as stopped.
pub proof fn law_pending_stop_is_reported(s: BridgeState, inputs: Seq<BridgeInput>, at: int)
    requires
        s.wf(),
        s.lifecycle == Lifecycle::StopPending,
        s.ended is None,
        0 <= at < inputs.len(),
        forall|i: int| 0 <= i <= at ==> (#[trigger] inputs[i]).event != BridgeEvent::ReportRejected,
        forall|i: int| 0 <= i < at ==> !(#[trigger] inputs[i]).all_finished,
        inputs[at].all_finished,
    ensures
        forall|i: int| 0 <= i < at ==> #[trigger] bridge_asks(s, inputs, i) == BridgeStep::quiet(),
        bridge_asks(s, inputs, at) == (BridgeStep {
            raise_shutdown: false,
            report: Some(stopped_status()),
            end: Some(LoopEnd::Stopped),
        }),
        bridge_run(s, inputs.take(at + 1)) == (BridgeState {
            lifecycle: Lifecycle::Stopped,
            ended: Some(LoopEnd::Stopped),
        }),
{
    assert forall|i: int| 0 <= i < at implies #[trigger] bridge_asks(s, inputs, i) == BridgeStep::quiet() by {
        lemma_pending_prefix(s, inputs, at, i);
        assert(inputs[i].event != BridgeEvent::ReportRejected && !inputs[i].all_finished);
    }
    lemma_pending_prefix(s, inputs, at, at);
    lemma_bridge_run_unfolds(s, inputs, at);
    assert(inputs[at].event != BridgeEvent::ReportRejected);
}

proof fn lemma_pending_prefix(s: BridgeState, inputs: Seq<BridgeInput>, at: int, k: int)
    requires
        0 <= k <= at < inputs.len(),
        forall|i: int| 0 <= i <= at ==> (#[trigger] inputs[i]).event != BridgeEvent::ReportRejected,
        forall|i: int| 0 <= i < at ==> !(#[trigger] inputs[i]).all_finished,
    ensures
        bridge_run(s, inputs.take(k)) == s || !(s.lifecycle == Lifecycle::StopPending && s.ended is None),
    decreases k,
{
    if k > 0 {
        lemma_pending_prefix(s, inputs, at, k - 1);
        lemma_bridge_run_unfolds(s, inputs, k - 1);
        assert(inputs[k - 1].event != BridgeEvent::ReportRejected && !inputs[k - 1].all_finished);
    } else {
        assert(inputs.take(0) =~= Seq::<BridgeInput>::empty());
    }
}

/// The host is told that the service has stopped only at a step at which
/// every unit has finished, and only after a step that raised the shutdown
/// signal and reported the stop as pending.
pub proof fn law_stopped_only_after_all_finished(inputs: Seq<BridgeInput>)
    ensures
        forall|k: int|
            0 <= k < inputs.len() && (#[trigger] bridge_asks(BridgeState::fresh(), inputs, k)).reports_stopped()
                ==> inputs[k].all_finished && exists|j: int|
                0 <= j < k && announces_stop(#[trigger] bridge_asks(BridgeState::fresh(), inputs, j)),
{
    assert forall|k: int|
        0 <= k < inputs.len() && (#[trigger] bridge_asks(
            BridgeState::fresh(),
            inputs,
            k,
        )).reports_stopped() implies inputs[k].all_finished && exists|j: int|
        0 <= j < k && announces_stop(#[trigger] bridge_asks(BridgeState::fresh(), inputs, j)) by {
        lemma_bridge_prefix(inputs, k);
    }
}

/// Once the stop is reported as pending, the host is told nothing but that
/// the service has stopped, and the shutdown signal is not raised a second
/// time.
pub proof fn law_stop_pending_leads_to_stopped(inputs: Seq<BridgeInput>, j: int, k: int)
    requires
        0 <= j < k < inputs.len(),
        announces_stop(bridge_asks(BridgeState::fresh(), inputs, j)),
    ensures
        !bridge_asks(BridgeState::fresh(), inputs, k).raise_shutdown,
        bridge_asks(BridgeState::fresh(), inputs, k).report is None || bridge_asks(
            BridgeState::fresh(),
            inputs,
            k,
        ).report == Some(stopped_status()),
{
    lemma_bridge_prefix(inputs, k);
}

/// The shutdown signal is raised by the answer to a stop request and by
/// nothing else, and it is raised once: no two steps of a run raise it.
pub proof fn law_shutdown_signal_is_raised_once(inputs: Seq<BridgeInput>, j: int, k: int)
    requires
        0 <= j <= k < inputs.len(),
        bridge_asks(BridgeState::fresh(), inputs, j).raise_shutdown,
        bridge_asks(BridgeState::fresh(), inputs, k).raise_shutdown,
    ensures
        j == k,
        inputs[j].event == BridgeEvent::Control(ControlEvent::Stop),
        announces_stop(bridge_asks(BridgeState::fresh(), inputs, j)),
{
    lemma_bridge_prefix(inputs, j);
    lemma_bridge_prefix(inputs, k);
    if j < k {
        assert(stop_announced(inputs, k)) by {
            assert(0 <= j < k && announces_stop(bridge_asks(BridgeState::fresh(), inputs, j)));
        }
    }
}

/// Once the loop has ended, for whatever reason, the host is told nothing
/// more and the shutdown signal is not raised. In particular nothing
/// follows the report that the service has stopped, and nothing follows
/// a closed channel that has ended the loop.
pub proof fn law_nothing_follows_the_end(inputs: Seq<BridgeInput>, j: int, k: int)
    requires
        0 <= j < k < inputs.len(),
        bridge_asks(BridgeState::fresh(), inputs, j).end is Some,
    ensures
        !bridge_asks(BridgeState::fresh(), inputs, k).raise_shutdown,
        bridge_asks(BridgeState::fresh(), inputs, k).report is None,
        bridge_asks(BridgeState::fresh(), inputs, k).end is Some,
{
    lemma_bridge_prefix(inputs, j);
    lemma_bridge_prefix(inputs, k);
}

/// Without a stop request the shutdown signal is never raised and the host
/// is never told that the service stops or has stopped, whatever else
/// happens: the channel may close, time may pass, the units may all have
/// finished.
pub proof fn law_no_stop_without_request(inputs: Seq<BridgeInput>)
    requires
        forall|i: int|
            0 <= i < inputs.len() ==> (#[trigger] inputs[i]).event != BridgeEvent::Control(ControlEvent::Stop),
    ensures
        forall|k: int|
            0 <= k < inputs.len() ==> {
                let step = #[trigger] bridge_asks(BridgeState::fresh(), inputs, k);
                &&& !step.raise_shutdown
                &&& !step.reports_stopped()
                &&& step.report != Some(stop_pending_status())
            },
{
    assert forall|k: int| 0 <= k < inputs.len() implies {
        let step = #[trigger] bridge_asks(BridgeState::fresh(), inputs, k);
        &&& !step.raise_shutdown
        &&& !step.reports_stopped()
        &&& step.report != Some(stop_pending_status())
    } by {
        lemma_bridge_prefix(inputs, k);
        if exists|j: int| 0 <= j < k && announces_stop(#[trigger] bridge_asks(BridgeState::fresh(), inputs, j)) {
            let j = choose|j: int|
                0 <= j < k && announces_stop(#[trigger] bridge_asks(BridgeState::fresh(), inputs, j));
            lemma_bridge_prefix(inputs, j);
            assert(inputs[j].event != BridgeEvent::Control(ControlEvent::Stop));
        }
    }
}

/// Whether a stop was announced before step `k`.
spec fn stop_announced(inputs: Seq<BridgeInput>, k: int) -> bool {
    exists|j: int| 0 <= j < k && announces_stop(#[trigger] bridge_asks(BridgeState::fresh(), inputs, j))
}

/// Whether the loop has ended before step `k`.
spec fn loop_ended(inputs: Seq<BridgeInput>, k: int) -> bool {
    exists|j: int| 0 <= j < k && (#[trigger] bridge_asks(BridgeState::fresh(), inputs, j)).end is Some
}

proof fn lemma_bridge_prefix(inputs: Seq<BridgeInput>, k: int)
    requires
        0 <= k <= inputs.len(),
    ensures
        bridge_run(BridgeState::fresh(), inputs.take(k)).wf(),
        stop_announced(inputs, k) <==> bridge_run(BridgeState::fresh(), inputs.take(k)).lifecycle
            == Lifecycle::StopPending || bridge_run(BridgeState::fresh(), inputs.take(k)).lifecycle
            == Lifecycle::Stopped,
        loop_ended(inputs, k) <==> bridge_run(BridgeState::fresh(), inputs.take(k)).ended is Some,
    decreases k,
{
    let fresh = BridgeState::fresh();
    if k > 0 {
        lemma_bridge_prefix(inputs, k - 1);
        lemma_bridge_run_unfolds(fresh, inputs, k - 1);
        let before = bridge_run(fresh, inputs.take(k - 1));
        let step = bridge_asks(fresh, inputs, k - 1);
        if stop_announced(inputs, k - 1) {
            let j = choose|j: int| 0 <= j < k - 1 && announces_stop(#[trigger] bridge_asks(fresh, inputs, j));
            assert(0 <= j < k && announces_stop(bridge_asks(fresh, inputs, j)));
        }
        if announces_stop(step) {
            assert(0 <= k - 1 < k && announces_stop(bridge_asks(fresh, inputs, k - 1)));
        }
        if stop_announced(inputs, k) {
            let j = choose|j: int| 0 <= j < k && announces_stop(#[trigger] bridge_asks(fresh, inputs, j));
            if j < k - 1 {
                assert(stop_announced(inputs, k - 1));
            }
        }
        if loop_ended(inputs, k - 1) {
            let j = choose|j: int| 0 <= j < k - 1 && (#[trigger] bridge_asks(fresh, inputs, j)).end is Some;
            assert(0 <= j < k && bridge_asks(fresh, inputs, j).end is Some);
        }
        if step.end is Some {
            assert(0 <= k - 1 < k && bridge_asks(fresh, inputs, k - 1).end is Some);
        }
        if loop_ended(inputs, k) {
            let j = choose|j: int| 0 <= j < k && (#[trigger] bridge_asks(fresh, inputs, j)).end is Some;
            if j < k - 1 {
                assert(loop_ended(inputs, k - 1));
            }
        }
    } else {
        assert(inputs.take(0) =~= Seq::<BridgeInput>::empty());
    }
}

/// What the bridge answers to a control event in the host's callback:
/// the event to pass on to the loop, or `None` for an event that the
/// service does not implement. Interrogate, continue, pause and stop are
/// passed on, so none of them is lost.
pub open spec fn forwarded(control: ControlEvent) -> Option<ControlEvent> {
    if control == ControlEvent::Other {
        None
    } else {
        Some(control)
    }
}

/// Decides in the host's callback what becomes of a control event: it is
/// passed on to the loop and acknowledged, or declined as not implemented.
pub fn event_handler(control: ControlEvent) -> (passed: Option<ControlEvent>)
    ensures
        passed == forwarded(control),
{
    match control {
        ControlEvent::Interrogate | ControlEvent::Continue | ControlEvent::Pause | ControlEvent::Stop => Some(
            control,
        ),
        ControlEvent::Other => None,
    }
}

/// The bridge: the lifecycle state that the host was last told, and
/// whether the loop has ended.
#[derive(Debug)]
pub struct LifecycleBridge {
    lifecycle: Lifecycle,
    ended: Option<LoopEnd>,
}

impl View for LifecycleBridge {
    type V = BridgeState;

    closed spec fn view(&self) -> BridgeState {
        BridgeState { lifecycle: self.lifecycle, ended: self.ended }
    }
}

impl LifecycleBridge {
    #[verifier::type_invariant]
    spec fn inv(self) -> bool {
        self@.wf()
    }

    /// The lifecycle state that the host was last told.
    pub fn lifecycle(&self) -> (lifecycle: Lifecycle)
        ensures
            lifecycle == self@.lifecycle,
            self@.wf(),
    {
        proof {
            use_type_invariant(self);
        }
        self.lifecycle
    }

    /// Why the loop has ended, if it has.
    pub fn ended(&self) -> (ended: Option<LoopEnd>)
        ensures
            ended == self@.ended,
            self@.wf(),
    {
        proof {
            use_type_invariant(self);
        }
        self.ended
    }

    /// Takes one step of the bridge. `all_finished` tells whether every
    /// unit has left its loop.
    pub fn step(&mut self, event: BridgeEvent, all_finished: bool) -> (step: BridgeStep)
        ensures
            (final(self)@, step) == bridge_next(old(self)@, event, all_finished),
            step.reports_stopped() ==> all_finished,
            old(self)@.wf(),
            final(self)@.wf(),
    {
        proof {
            use_type_invariant(&*self);
        }
        let quiet = BridgeStep { raise_shutdown: false, report: None, end: None };
        if let BridgeEvent::ReportRejected = event {
            *self = LifecycleBridge { lifecycle: self.lifecycle, ended: Some(LoopEnd::ReportFailed) };
            return BridgeStep { raise_shutdown: false, report: None, end: Some(LoopEnd::ReportFailed) };
        }
        if self.ended.is_some() {
            return BridgeStep { raise_shutdown: false, report: None, end: self.ended };
        }
        match self.lifecycle {
            Lifecycle::Running | Lifecycle::Paused => match event {
                BridgeEvent::Disconnected => {
                    *self = LifecycleBridge { lifecycle: self.lifecycle, ended: Some(LoopEnd::Disconnected) };
                    BridgeStep { raise_shutdown: false, report: None, end: Some(LoopEnd::Disconnected) }
                },
                BridgeEvent::Control(ControlEvent::Pause) => {
                    *self = LifecycleBridge { lifecycle: Lifecycle::Paused, ended: None };
                    BridgeStep { raise_shutdown: false, report: Some(status_paused()), end: None }
                },
                BridgeEvent::Control(ControlEvent::Continue) => {
                    *self = LifecycleBridge { lifecycle: Lifecycle::Running, ended: None };
                    BridgeStep { raise_shutdown: false, report: Some(status_running()), end: None }
                },
                BridgeEvent::Control(ControlEvent::Stop) => {
                    *self = LifecycleBridge { lifecycle: Lifecycle::StopPending, ended: None };
                    BridgeStep { raise_shutdown: true, report: Some(status_stop_pending()), end: None }
                },
                _ => quiet,
            },
            Lifecycle::StopPending | Lifecycle::Stopped => {
                if all_finished {
                    *self = LifecycleBridge { lifecycle: Lifecycle::Stopped, ended: Some(LoopEnd::Stopped) };
                    BridgeStep {
                        raise_shutdown: false,
                        report: Some(status_stopped()),
                        end: Some(LoopEnd::Stopped),
                    }
                } else {
                    quiet
                }
            },
        }
    }
}

/// The report that the service is running.
pub fn status_running() -> (status: ServiceStatus)
    ensures
        status == running_status(),
{
    ServiceStatus {
        service_type: TYPE_OWN_PROCESS,
        current_state: ServiceState::Running,
        controls_accepted: ACCEPT_STOP | ACCEPT_PAUSE_CONTINUE,
        exit_code: 0,
        checkpoint: 0,
        wait_hint_secs: 0,
        process_id: None,
    }
}

/// The report that the service is paused.
pub fn status_paused() -> (status: ServiceStatus)
    ensures
        status == paused_status(),
{
    ServiceStatus {
        service_type: TYPE_OWN_PROCESS,
        current_state: ServiceState::Paused,
        controls_accepted: ACCEPT_STOP | ACCEPT_PAUSE_CONTINUE,
        exit_code: 0,
        checkpoint: 0,
        wait_hint_secs: 0,
        process_id: None,
    }
}

/// The report that the service is about to stop.
pub fn status_stop_pending() -> (status: ServiceStatus)
    ensures
        status == stop_pending_status(),
{
    ServiceStatus {
        service_type: TYPE_OWN_PROCESS,
        current_state: ServiceState::StopPending,
        controls_accepted: ACCEPT_STOP,
        exit_code: 0,
        checkpoint: 1,
        wait_hint_secs: STOP_WAIT_HINT_SECS,
        process_id: None,
    }
}

/// The report that the service has stopped.
pub fn status_stopped() -> (status: ServiceStatus)
    ensures
        status == stopped_status(),
{
    ServiceStatus {
        service_type: TYPE_OWN_PROCESS,
        current_state: ServiceState::Stopped,
        controls_accepted: ACCEPT_STOP,
        exit_code: 0,
        checkpoint: 2,
        wait_hint_secs: 0,
        process_id: None,
    }
}

/// Whether every flag is set.
pub open spec fn all_set(flags: Seq<bool>) -> bool {
    forall|i: int| 0 <= i < flags.len() ==> flags[i]
}

/// Tells whether every unit task has finished, from one flag per task.
pub fn all_finished(finished: &Vec<bool>) -> (all: bool)
    ensures
        all == all_set(finished@),
{
    let mut i: usize = 0;
    while i < finished.len()
        invariant
            i <= finished@.len(),
            forall|j: int| 0 <= j < i ==> finished@[j],
        decreases finished@.len() - i,
    {
        if !finished[i] {
            return false;
        }
        i = i + 1;
    }
    true
}

/// Enters the service: the bridge at its start, and the report to make to
/// the host before the loop begins, which says that the service is running
/// and takes stop, pause and continue.
pub fn run_service() -> (entry: (LifecycleBridge, ServiceStatus))
    ensures
        entry.0@ == BridgeState::fresh(),
        entry.1 == running_status(),
{
    (LifecycleBridge { lifecycle: Lifecycle::Running, ended: None }, status_running())
}

/// Takes one turn of the bridge's loop. `event` is what the wait for a
/// control event gave, `finished` holds one flag per unit task, set once
/// the task has finished.
///
/// The host is told that the service has stopped only in a turn in which
/// every flag is set.
pub fn run_main_loop(bridge: &mut LifecycleBridge, event: BridgeEvent, finished: &Vec<bool>) -> (step:
    BridgeStep)
    ensures
        (final(bridge)@, step) == bridge_next(old(bridge)@, event, all_set(finished@)),
        step.reports_stopped() ==> all_set(finished@),
        final(bridge)@.wf(),
{
    let all = all_finished(finished);
    bridge.step(event, all)
}

/// The poll outcome that a sweep has for the unit at `at`, if any.
pub open spec fn polled_at(polled: Seq<Event>, at: int) -> Option<Event> {
    if 0 <= at < polled.len() {
        Some(polled[at])
    } else {
        None
    }
}

/// What a sweep makes of one unit: its restart loop afterwards, and
/// whether a start is due for it.
///
/// A disabled unit is passed over. An enabled unit without a handle is due
/// for a start. An enabled unit with a handle is due when its poll shows
/// that the worker has exited, or failed; the handle is then let go. With
/// no poll outcome at hand it is left as it is.
pub open spec fn sweep_one(enabled: bool, task: UnitState, polled: Option<Event>) -> (UnitState, bool) {
    if !enabled {
        (task, false)
    } else if task.handle is None {
        (task, true)
    } else {
        match polled {
            Some(outcome) => {
                let gone = outcome == Event::Exited || outcome == Event::PollFailed;
                (
                    UnitState {
                        phase: Phase::Sleeping,
                        handle: if gone {
                            None
                        } else {
                            task.handle
                        },
                    },
                    gone,
                )
            },
            None => (task, false),
        }
    }
}

/// Puts the units under supervision: one task per unit, in the order of the
/// list, none of them begun.
pub fn run_processes(list: Vec<ChildProcess>) -> (tasks: TaskSet)
    ensures
        tasks.units() == list@.map_values(|unit: ChildProcess| Unit::Process(unit)),
{
    crate::child_proc::run_processes(list)
}

/// Sweeps once over all units, for callers that supervise them in turn
/// from one loop. `polled` holds the outcome of this cycle's poll for each
/// unit, by position. The answer tells, for each unit, whether a start is
/// due: the caller starts those, hands each outcome to the unit's `start`,
/// pauses one period and sweeps again.
pub fn run_processes1(list: &mut Vec<ChildProcess>, polled: &Vec<Event>) -> (restart: Vec<bool>)
    ensures
        final(list)@.len() == old(list)@.len(),
        restart@.len() == old(list)@.len(),
        forall|i: int|
            0 <= i < old(list)@.len() ==> {
                let before = old(list)@[i];
                let after = #[trigger] final(list)@[i];
                &&& after.config == before.config
                &&& (after.task(), restart@[i]) == sweep_one(
                    before.enabled(),
                    before.task(),
                    polled_at(polled@, i),
                )
            },
{
    let ghost before = list@;
    let mut restart: Vec<bool> = Vec::new();
    let mut i: usize = 0;
    while i < list.len()
        invariant
            i <= list@.len(),
            list@.len() == before.len(),
            restart@.len() == i,
            forall|j: int| i <= j < list@.len() ==> list@[j] == before[j],
            forall|j: int|
                0 <= j < i ==> {
                    &&& (#[trigger] list@[j]).config == before[j].config
                    &&& (list@[j].task(), restart@[j]) == sweep_one(
                        before[j].enabled(),
                        before[j].task(),
                        polled_at(polled@, j),
                    )
                },
        decreases list@.len() - i,
    {
        let mut due = false;
        if list[i].config.is_valid() {
            if list[i].child().is_none() {
                due = true;
            } else if i < polled.len() {
                due = list[i].try_restart(polled[i]);
            }
        }
        restart.push(due);
        i = i + 1;
    }
    restart
}

} // verus!

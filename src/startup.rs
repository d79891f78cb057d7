use vstd::prelude::*;

verus! {

/// How long to wait between two polls of the radio's power, in milliseconds.
pub const POLL_INTERVAL_MS: u64 = 100;

/// Where the start-up sequence stands.
#[derive(Clone, Copy, Debug, PartialEq, Eq)]
pub enum Phase {
    /// The peripheral handle does not exist yet.
    Uninitialized,
    /// The handle exists; the radio's power is polled until it is on.
    WaitingForPower,
    /// The radio is on; the service is being registered.
    RegisteringService,
    /// The service is registered; advertising is being started.
    StartingAdvertising,
    /// Advertising runs; the console and the event handling take over.
    Running,
    /// Registration or advertising failed; start-up is abandoned.
    Failed,
}

/// What the caller observed since the last step.
#[derive(Clone, Copy, Debug, PartialEq, Eq)]
pub enum StartupEvent {
    /// The peripheral handle was constructed.
    Created,
    /// A poll of the radio's power answered with the given value.
    PowerPolled { is_powered: bool },
    /// Registering the service succeeded (`ok`) or failed.
    ServiceAdded { ok: bool },
    /// Starting advertising succeeded (`ok`) or failed.
    AdvertisingStarted { ok: bool },
}

/// What the caller is to do next.
#[derive(Clone, Copy, Debug, PartialEq, Eq)]
pub enum StartupAction {
    /// Poll the radio's power now.
    PollPower,
    /// Wait [`POLL_INTERVAL_MS`], then poll the radio's power.
    PollPowerAfterWait,
    /// Register the service.
    AddService,
    /// Start advertising the service.
    StartAdvertising,
    /// Start-up is done: hand over to the console and the event handling.
    Run,
    /// Start-up failed for good: report it and stop.
    Abort,
    /// The event does not fit the phase: nothing to do.
    Nothing,
}

/// The next phase and the action when the given event arrives in the given
/// phase. Each phase waits for one kind of event; a failure is final, and
/// nothing moves a finished or failed sequence.
pub open spec fn step(p: Phase, e: StartupEvent) -> (Phase, StartupAction) {
    match (p, e) {
        (Phase::Uninitialized, StartupEvent::Created) => (
            Phase::WaitingForPower,
            StartupAction::PollPower,
        ),
        (Phase::WaitingForPower, StartupEvent::PowerPolled { is_powered }) => if is_powered {
            (Phase::RegisteringService, StartupAction::AddService)
        } else {
            (Phase::WaitingForPower, StartupAction::PollPowerAfterWait)
        },
        (Phase::RegisteringService, StartupEvent::ServiceAdded { ok }) => if ok {
            (Phase::StartingAdvertising, StartupAction::StartAdvertising)
        } else {
            (Phase::Failed, StartupAction::Abort)
        },
        (Phase::StartingAdvertising, StartupEvent::AdvertisingStarted { ok }) => if ok {
            (Phase::Running, StartupAction::Run)
        } else {
            (Phase::Failed, StartupAction::Abort)
        },
        _ => (p, StartupAction::Nothing),
    }
}

/// The phase reached and the actions issued when the given events arrive in
/// order, from the given phase: one action per event.
pub open spec fn run(p: Phase, events: Seq<StartupEvent>) -> (Phase, Seq<StartupAction>)
    decreases events.len(),
{
    if events.len() == 0 {
        (p, seq![])
    } else {
        let (q, acts) = run(p, events.drop_last());
        let (r, a) = step(q, events.last());
        (r, acts.push(a))
    }
}

/// The start-up sequence.
pub struct Sequencer {
    pub phase: Phase,
}

impl Sequencer {
    /// A sequence that has not started.
    pub fn new() -> (r: Sequencer)
        ensures
            r.phase == Phase::Uninitialized,
    {
        Sequencer { phase: Phase::Uninitialized }
    }

    /// Takes in one event and says what to do next.
    pub fn advance(&mut self, e: StartupEvent) -> (r: StartupAction)
        ensures
            (final(self).phase, r) == step(old(self).phase, e),
    {
        let (next, action) = match (self.phase, e) {
            (Phase::Uninitialized, StartupEvent::Created) => (
                Phase::WaitingForPower,
                StartupAction::PollPower,
            ),
            (Phase::WaitingForPower, StartupEvent::PowerPolled { is_powered }) => {
                if is_powered {
                    (Phase::RegisteringService, StartupAction::AddService)
                } else {
                    (Phase::WaitingForPower, StartupAction::PollPowerAfterWait)
                }
            },
            (Phase::RegisteringService, StartupEvent::ServiceAdded { ok }) => {
                if ok {
                    (Phase::StartingAdvertising, StartupAction::StartAdvertising)
                } else {
                    (Phase::Failed, StartupAction::Abort)
                }
            },
            (Phase::StartingAdvertising, StartupEvent::AdvertisingStarted { ok }) => {
                if ok {
                    (Phase::Running, StartupAction::Run)
                } else {
                    (Phase::Failed, StartupAction::Abort)
                }
            },
            (p, _) => (p, StartupAction::Nothing),
        };
        self.phase = next;
        action
    }
}

/// The phase reached after the first `k` of the given events.
pub open spec fn phase_at(p: Phase, events: Seq<StartupEvent>, k: int) -> Phase {
    run(p, events.take(k)).0
}

/// How far along a phase is; no step goes back.
pub open spec fn progress(p: Phase) -> nat {
    match p {
        Phase::Uninitialized => 0,
        Phase::WaitingForPower => 1,
        Phase::RegisteringService => 2,
        Phase::StartingAdvertising => 3,
        Phase::Running => 4,
        Phase::Failed => 5,
    }
}

proof fn lemma_step_forward(p: Phase, e: StartupEvent)
    ensures
        progress(step(p, e).0) >= progress(p),
{
}

proof fn lemma_run_len(p: Phase, events: Seq<StartupEvent>)
    ensures
        run(p, events).1.len() == events.len(),
    decreases events.len(),
{
    if events.len() > 0 {
        lemma_run_len(p, events.drop_last());
    }
}

proof fn lemma_run_whole(p: Phase, events: Seq<StartupEvent>)
    ensures
        phase_at(p, events, events.len() as int) == run(p, events).0,
{
    assert(events.take(events.len() as int) =~= events);
}

proof fn lemma_phase_step(p: Phase, events: Seq<StartupEvent>, k: int)
    requires
        0 <= k < events.len(),
    ensures
        phase_at(p, events, k + 1) == step(phase_at(p, events, k), events[k]).0,
{
    assert(events.take(k + 1).drop_last() =~= events.take(k));
}

proof fn lemma_run_action(p: Phase, events: Seq<StartupEvent>, k: int)
    requires
        0 <= k < events.len(),
    ensures
        run(p, events).1[k] == step(phase_at(p, events, k), events[k]).1,
    decreases events.len(),
{
    let rest = events.drop_last();
    lemma_run_len(p, rest);
    if k == events.len() - 1 {
        assert(events.take(k) =~= rest);
    } else {
        lemma_run_action(p, rest, k);
        assert(rest.take(k) =~= events.take(k));
    }
}

proof fn lemma_progress_monotone(p: Phase, events: Seq<StartupEvent>, i: int, j: int)
    requires
        0 <= i <= j <= events.len(),
    ensures
        progress(phase_at(p, events, i)) <= progress(phase_at(p, events, j)),
    decreases j - i,
{
    if i < j {
        lemma_progress_monotone(p, events, i, j - 1);
        lemma_phase_step(p, events, j - 1);
        lemma_step_forward(phase_at(p, events, j - 1), events[j - 1]);
    }
}

/// Once the sequence is past waiting for power, the service was asked to
/// be registered at some earlier event.
proof fn lemma_registered_before(events: Seq<StartupEvent>, k: int)
    requires
        0 <= k <= events.len(),
        progress(phase_at(Phase::Uninitialized, events, k)) >= 2,
    ensures
        exists|i: int|
            0 <= i < k && #[trigger] run(Phase::Uninitialized, events).1[i]
                == StartupAction::AddService,
    decreases k,
{
    let p = Phase::Uninitialized;
    if k == 0 {
        assert(events.take(0) =~= Seq::<StartupEvent>::empty());
    } else {
        lemma_phase_step(p, events, k - 1);
        lemma_run_action(p, events, k - 1);
        if progress(phase_at(p, events, k - 1)) >= 2 {
            lemma_registered_before(events, k - 1);
        } else {
            assert(run(p, events).1[k - 1] == StartupAction::AddService);
        }
    }
}

/// Waiting through `n` polls that find the radio off.
proof fn lemma_wait_for_power(n: nat)
    ensures
        run(
            Phase::Uninitialized,
            seq![StartupEvent::Created] + Seq::new(
                n,
                |i: int| StartupEvent::PowerPolled { is_powered: false },
            ),
        ) == (Phase::WaitingForPower, seq![StartupAction::PollPower] + Seq::new(
            n,
            |i: int| StartupAction::PollPowerAfterWait,
        )),
    decreases n,
{
    let events = seq![StartupEvent::Created] + Seq::new(
        n,
        |i: int| StartupEvent::PowerPolled { is_powered: false },
    );
    if n == 0 {
        reveal_with_fuel(run, 2);
        assert(events =~= seq![StartupEvent::Created]);
        assert(events.drop_last() =~= Seq::<StartupEvent>::empty());
        assert(seq![StartupAction::PollPower] + Seq::new(
            0,
            |i: int| StartupAction::PollPowerAfterWait,
        ) =~= seq![StartupAction::PollPower]);
        assert(Seq::<StartupAction>::empty().push(StartupAction::PollPower) =~= seq![
            StartupAction::PollPower,
        ]);
    } else {
        let m = (n - 1) as nat;
        lemma_wait_for_power(m);
        assert(events.drop_last() =~= seq![StartupEvent::Created] + Seq::new(
            m,
            |i: int| StartupEvent::PowerPolled { is_powered: false },
        ));
        assert(events.last() == StartupEvent::PowerPolled { is_powered: false });
        assert((seq![StartupAction::PollPower] + Seq::new(
            m,
            |i: int| StartupAction::PollPowerAfterWait,
        )).push(StartupAction::PollPowerAfterWait) =~= seq![StartupAction::PollPower]
            + Seq::new(n, |i: int| StartupAction::PollPowerAfterWait));
    }
}

/// With a radio that is off for `n` polls and then on, and a registration
/// and an advertising start that succeed, start-up polls, then registers
/// the service once, then starts advertising once, and then runs.
pub proof fn lemma_startup_in_order(n: nat)
    ensures
        run(
            Phase::Uninitialized,
            seq![StartupEvent::Created] + Seq::new(
                n,
                |i: int| StartupEvent::PowerPolled { is_powered: false },
            ) + seq![
                StartupEvent::PowerPolled { is_powered: true },
                StartupEvent::ServiceAdded { ok: true },
                StartupEvent::AdvertisingStarted { ok: true },
            ],
        ) == (Phase::Running, seq![StartupAction::PollPower] + Seq::new(
            n,
            |i: int| StartupAction::PollPowerAfterWait,
        ) + seq![StartupAction::AddService, StartupAction::StartAdvertising, StartupAction::Run]),
{
    let waiting = seq![StartupEvent::Created] + Seq::new(
        n,
        |i: int| StartupEvent::PowerPolled { is_powered: false },
    );
    let polls = seq![StartupAction::PollPower] + Seq::new(
        n,
        |i: int| StartupAction::PollPowerAfterWait,
    );
    lemma_wait_for_power(n);
    let e1 = waiting.push(StartupEvent::PowerPolled { is_powered: true });
    let e2 = e1.push(StartupEvent::ServiceAdded { ok: true });
    let e3 = e2.push(StartupEvent::AdvertisingStarted { ok: true });
    assert(e1.drop_last() =~= waiting);
    assert(e2.drop_last() =~= e1);
    assert(e3.drop_last() =~= e2);
    assert(run(Phase::Uninitialized, e1) == (Phase::RegisteringService, polls.push(
        StartupAction::AddService,
    )));
    assert(run(Phase::Uninitialized, e2) == (Phase::StartingAdvertising, polls.push(
        StartupAction::AddService,
    ).push(StartupAction::StartAdvertising)));
    assert(e3 =~= waiting + seq![
        StartupEvent::PowerPolled { is_powered: true },
        StartupEvent::ServiceAdded { ok: true },
        StartupEvent::AdvertisingStarted { ok: true },
    ]);
    assert(polls.push(StartupAction::AddService).push(StartupAction::StartAdvertising).push(
        StartupAction::Run,
    ) =~= polls + seq![
        StartupAction::AddService,
        StartupAction::StartAdvertising,
        StartupAction::Run,
    ]);
}

/// Whatever the events, the service is asked to be registered at most
/// once, and only in answer to a poll that found the radio on.
pub proof fn lemma_service_added_once_after_power(events: Seq<StartupEvent>)
    ensures
        run(Phase::Uninitialized, events).1.len() == events.len(),
        forall|i: int|
            0 <= i < events.len() && #[trigger] run(Phase::Uninitialized, events).1[i]
                == StartupAction::AddService ==> events[i] == (StartupEvent::PowerPolled {
                is_powered: true,
            }),
        forall|i: int, j: int|
            0 <= i < events.len() && 0 <= j < events.len() && #[trigger] run(
                Phase::Uninitialized,
                events,
            ).1[i] == StartupAction::AddService && #[trigger] run(Phase::Uninitialized, events).1[j]
                == StartupAction::AddService ==> i == j,
{
    let p = Phase::Uninitialized;
    lemma_run_len(p, events);
    assert forall|i: int|
        0 <= i < events.len() && #[trigger] run(p, events).1[i]
            == StartupAction::AddService implies events[i] == (StartupEvent::PowerPolled {
        is_powered: true,
    }) by {
        lemma_run_action(p, events, i);
    }
    assert forall|i: int, j: int|
        0 <= i < events.len() && 0 <= j < events.len() && #[trigger] run(p, events).1[i]
            == StartupAction::AddService && #[trigger] run(p, events).1[j]
            == StartupAction::AddService implies i == j by {
        lemma_run_action(p, events, i);
        lemma_run_action(p, events, j);
        if i < j {
            lemma_phase_step(p, events, i);
            lemma_progress_monotone(p, events, i + 1, j);
        } else if j < i {
            lemma_phase_step(p, events, j);
            lemma_progress_monotone(p, events, j + 1, i);
        }
    }
}

proof fn lemma_advertising_at(events: Seq<StartupEvent>, j: int)
    requires
        0 <= j < events.len(),
        run(Phase::Uninitialized, events).1[j] == StartupAction::StartAdvertising,
    ensures
        events[j] == (StartupEvent::ServiceAdded { ok: true }),
        exists|i: int|
            0 <= i < j && #[trigger] run(Phase::Uninitialized, events).1[i]
                == StartupAction::AddService,
{
    lemma_run_action(Phase::Uninitialized, events, j);
    lemma_registered_before(events, j);
}

/// Whatever the events, advertising is started at most once, only in
/// answer to a successful registration, and only after the service was
/// asked to be registered.
pub proof fn lemma_advertising_after_service(events: Seq<StartupEvent>)
    ensures
        forall|j: int|
            0 <= j < events.len() && #[trigger] run(Phase::Uninitialized, events).1[j]
                == StartupAction::StartAdvertising ==> events[j] == (StartupEvent::ServiceAdded {
                ok: true,
            }) && exists|i: int|
                0 <= i < j && #[trigger] run(Phase::Uninitialized, events).1[i]
                    == StartupAction::AddService,
        forall|i: int, j: int|
            0 <= i < events.len() && 0 <= j < events.len() && #[trigger] run(
                Phase::Uninitialized,
                events,
            ).1[i] == StartupAction::StartAdvertising && #[trigger] run(
                Phase::Uninitialized,
                events,
            ).1[j] == StartupAction::StartAdvertising ==> i == j,
{
    let p = Phase::Uninitialized;
    lemma_run_len(p, events);
    assert forall|j: int|
        0 <= j < events.len() && #[trigger] run(p, events).1[j]
            == StartupAction::StartAdvertising implies events[j] == (StartupEvent::ServiceAdded {
        ok: true,
    }) && exists|i: int| 0 <= i < j && #[trigger] run(p, events).1[i] == StartupAction::AddService by {
        lemma_advertising_at(events, j);
    }
    assert forall|i: int, j: int|
        0 <= i < events.len() && 0 <= j < events.len() && #[trigger] run(p, events).1[i]
            == StartupAction::StartAdvertising && #[trigger] run(p, events).1[j]
            == StartupAction::StartAdvertising implies i == j by {
        lemma_run_action(p, events, i);
        lemma_run_action(p, events, j);
        if i < j {
            lemma_phase_step(p, events, i);
            lemma_progress_monotone(p, events, i + 1, j);
        } else if j < i {
            lemma_phase_step(p, events, j);
            lemma_progress_monotone(p, events, j + 1, i);
        }
    }
}

/// Once registering the service has failed, advertising is never started:
/// not before the failure, and not after it, whatever events follow.
pub proof fn lemma_failed_registration_stops(p: Phase, events: Seq<StartupEvent>, k: int)
    requires
        0 <= k < events.len(),
        phase_at(p, events, k) == Phase::RegisteringService,
        events[k] == (StartupEvent::ServiceAdded { ok: false }),
    ensures
        forall|j: int|
            0 <= j < events.len() ==> #[trigger] run(p, events).1[j]
                != StartupAction::StartAdvertising,
{
    lemma_phase_step(p, events, k);
    assert forall|j: int| 0 <= j < events.len() implies #[trigger] run(p, events).1[j]
        != StartupAction::StartAdvertising by {
        lemma_run_action(p, events, j);
        if j < k {
            lemma_phase_step(p, events, j);
            lemma_progress_monotone(p, events, j + 1, k);
        } else if j > k {
            lemma_progress_monotone(p, events, k + 1, j);
        }
    }
}

} // verus!

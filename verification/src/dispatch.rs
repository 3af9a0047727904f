//! The course of one call, from the moment it is made to the moment the
//! caller is told its outcome or gives up waiting.
//!
//! The runtime keeps a `Phase` for each call and reports what happens to it as
//! `Signal`s; `Phase::advance` answers with the next phase and the one thing
//! the runtime now has to do. Calls share nothing: what is owed for one call
//! depends on the signals of that call alone.

use vstd::prelude::*;

verus! {

/// Where a call stands.
#[derive(Clone, Copy, Debug, PartialEq, Eq, Structural)]
pub enum Phase {
    /// Made, and not yet handed to the consensus engine or to the network.
    Ready,
    /// Handed over; the caller waits for the one reply.
    InFlight,
    /// The reply came and the caller has its outcome.
    Settled,
    /// The caller gave up before the reply came.
    Cancelled,
}

/// What happens to a call.
#[derive(Clone, Copy, Debug, PartialEq, Eq, Structural)]
pub enum Signal {
    /// The caller's task runs the call.
    Start,
    /// The reply is there, an answer or a failure.
    Arrival,
    /// The caller's task is cancelled.
    Cancel,
}

/// What the runtime has to do in answer to a signal.
#[derive(Clone, Copy, Debug, PartialEq, Eq, Structural)]
pub enum Duty {
    /// Carry out the call's `Outbound`: deliver the message or post the body.
    Perform,
    /// Turn the reply into the call's `Completion`, log what it says to log,
    /// and hand the outcome to the caller.
    Conclude,
    /// Stop waiting and let go of the outstanding operation.
    Abort,
    /// Nothing.
    Nothing,
}

impl Phase {
    /// The phase after `signal`, and what is owed for it.
    ///
    /// A call is performed when it starts and concluded when its reply
    /// arrives. Cancelling a call that is in flight aborts it; cancelling one
    /// that has not started only ends it. A signal that does not fit the
    /// phase changes nothing: a second start, an arrival for a call that is
    /// not in flight, anything after the call has ended.
    pub open spec fn step(self, signal: Signal) -> (Phase, Duty) {
        match (self, signal) {
            (Phase::Ready, Signal::Start) => (Phase::InFlight, Duty::Perform),
            (Phase::Ready, Signal::Cancel) => (Phase::Cancelled, Duty::Nothing),
            (Phase::InFlight, Signal::Arrival) => (Phase::Settled, Duty::Conclude),
            (Phase::InFlight, Signal::Cancel) => (Phase::Cancelled, Duty::Abort),
            _ => (self, Duty::Nothing),
        }
    }

    /// Whether an operation is outstanding for the call: a message with the
    /// engine, or a request with the HTTP client.
    pub open spec fn outstanding(self) -> bool {
        self == Phase::InFlight
    }

    /// The phase after `signal`, and what the runtime has to do now.
    pub fn advance(self, signal: Signal) -> (next: (Phase, Duty))
        ensures
            next == self.step(signal),
    {
        match (self, signal) {
            (Phase::Ready, Signal::Start) => (Phase::InFlight, Duty::Perform),
            (Phase::Ready, Signal::Cancel) => (Phase::Cancelled, Duty::Nothing),
            (Phase::InFlight, Signal::Arrival) => (Phase::Settled, Duty::Conclude),
            (Phase::InFlight, Signal::Cancel) => (Phase::Cancelled, Duty::Abort),
            _ => (self, Duty::Nothing),
        }
    }

    /// The phase after all of `signals`, in their order.
    pub open spec fn after(self, signals: Seq<Signal>) -> Phase
        decreases signals.len(),
    {
        if signals.len() == 0 {
            self
        } else {
            self.after(signals.drop_last()).step(signals.last()).0
        }
    }

    /// What is owed for each of `signals`, in their order.
    pub open spec fn duties(self, signals: Seq<Signal>) -> Seq<Duty>
        decreases signals.len(),
    {
        if signals.len() == 0 {
            Seq::empty()
        } else {
            self.duties(signals.drop_last()).push(
                self.after(signals.drop_last()).step(signals.last()).1,
            )
        }
    }
}

/// How often `duty` occurs in `duties`.
pub open spec fn times(duties: Seq<Duty>, duty: Duty) -> nat
    decreases duties.len(),
{
    if duties.len() == 0 {
        0
    } else {
        times(duties.drop_last(), duty) + if duties.last() == duty {
            1nat
        } else {
            0nat
        }
    }
}

/// What the counts of duties are, by where a call began and where it stands.
spec fn tally(from: Phase, to: Phase, performed: nat, concluded: nat, aborted: nat) -> bool {
    match (from, to) {
        (Phase::Ready, Phase::Ready) => performed == 0 && concluded == 0 && aborted == 0,
        (Phase::Ready, Phase::InFlight) => performed == 1 && concluded == 0 && aborted == 0,
        (Phase::Ready, Phase::Settled) => performed == 1 && concluded == 1 && aborted == 0,
        (Phase::Ready, Phase::Cancelled) => performed <= 1 && concluded == 0 && aborted
            == performed,
        (Phase::InFlight, Phase::InFlight) => performed == 0 && concluded == 0 && aborted == 0,
        (Phase::InFlight, Phase::Settled) => performed == 0 && concluded == 1 && aborted == 0,
        (Phase::InFlight, Phase::Cancelled) => performed == 0 && concluded == 0 && aborted == 1,
        (Phase::Settled, Phase::Settled) => performed == 0 && concluded == 0 && aborted == 0,
        (Phase::Cancelled, Phase::Cancelled) => performed == 0 && concluded == 0 && aborted == 0,
        _ => false,
    }
}

proof fn lemma_tally(from: Phase, signals: Seq<Signal>)
    ensures
        from.duties(signals).len() == signals.len(),
        tally(
            from,
            from.after(signals),
            times(from.duties(signals), Duty::Perform),
            times(from.duties(signals), Duty::Conclude),
            times(from.duties(signals), Duty::Abort),
        ),
    decreases signals.len(),
{
    if signals.len() > 0 {
        lemma_tally(from, signals.drop_last());
        assert(from.duties(signals).drop_last() =~= from.duties(signals.drop_last()));
    }
}

proof fn lemma_joined(from: Phase, first: Seq<Signal>, then: Seq<Signal>)
    ensures
        from.after(first + then) == from.after(first).after(then),
        from.duties(first + then) == from.duties(first) + from.after(first).duties(then),
    decreases then.len(),
{
    if then.len() > 0 {
        lemma_joined(from, first, then.drop_last());
        assert((first + then).drop_last() =~= first + then.drop_last());
    }
}

proof fn lemma_times_joined(first: Seq<Duty>, then: Seq<Duty>, duty: Duty)
    ensures
        times(first + then, duty) == times(first, duty) + times(then, duty),
    decreases then.len(),
{
    if then.len() > 0 {
        lemma_times_joined(first, then.drop_last(), duty);
        assert((first + then).drop_last() =~= first + then.drop_last());
    }
}

/// Without a cancellation a call that has started stays started.
proof fn lemma_started(signals: Seq<Signal>, start: int)
    requires
        forall|k: int| 0 <= k < signals.len() ==> signals[k] != Signal::Cancel,
        0 <= start < signals.len(),
        signals[start] == Signal::Start,
    ensures
        Phase::Ready.after(signals) == Phase::InFlight || Phase::Ready.after(signals)
            == Phase::Settled,
    decreases signals.len(),
{
    lemma_tally(Phase::Ready, signals.drop_last());
    if start < signals.len() - 1 {
        lemma_started(signals.drop_last(), start);
    } else {
        lemma_never_cancelled(signals.drop_last());
    }
}

proof fn lemma_never_cancelled(signals: Seq<Signal>)
    requires
        forall|k: int| 0 <= k < signals.len() ==> signals[k] != Signal::Cancel,
    ensures
        Phase::Ready.after(signals) != Phase::Cancelled,
    decreases signals.len(),
{
    if signals.len() > 0 {
        lemma_never_cancelled(signals.drop_last());
    }
}

proof fn lemma_settled(signals: Seq<Signal>, start: int, arrival: int)
    requires
        forall|k: int| 0 <= k < signals.len() ==> signals[k] != Signal::Cancel,
        0 <= start < arrival < signals.len(),
        signals[start] == Signal::Start,
        signals[arrival] == Signal::Arrival,
    ensures
        Phase::Ready.after(signals) == Phase::Settled,
    decreases signals.len(),
{
    if arrival < signals.len() - 1 {
        lemma_settled(signals.drop_last(), start, arrival);
    } else {
        lemma_started(signals.drop_last(), start);
    }
}

/// Where a call stands tells what was done for it. A call that is ready was
/// not performed. A call in flight was performed once and not concluded. A
/// settled call was performed once and concluded once. A cancelled call was
/// aborted if it had been performed, and never concluded.
pub proof fn done_by_phase(signals: Seq<Signal>)
    ensures
        Phase::Ready.duties(signals).len() == signals.len(),
        ({
            let performed = times(Phase::Ready.duties(signals), Duty::Perform);
            let concluded = times(Phase::Ready.duties(signals), Duty::Conclude);
            let aborted = times(Phase::Ready.duties(signals), Duty::Abort);
            match Phase::Ready.after(signals) {
                Phase::Ready => performed == 0 && concluded == 0 && aborted == 0,
                Phase::InFlight => performed == 1 && concluded == 0 && aborted == 0,
                Phase::Settled => performed == 1 && concluded == 1 && aborted == 0,
                Phase::Cancelled => performed <= 1 && concluded == 0 && aborted == performed,
            }
        }),
{
    lemma_tally(Phase::Ready, signals);
}

/// Whatever signals come, and in whatever order, a call is performed at most
/// once, concluded at most once and aborted at most once; it is concluded or
/// aborted only if it was performed, and never both.
pub proof fn at_most_once(signals: Seq<Signal>)
    ensures
        times(Phase::Ready.duties(signals), Duty::Perform) <= 1,
        times(Phase::Ready.duties(signals), Duty::Conclude) + times(
            Phase::Ready.duties(signals),
            Duty::Abort,
        ) <= times(Phase::Ready.duties(signals), Duty::Perform),
{
    lemma_tally(Phase::Ready, signals);
}

/// A call that is started, whose reply arrives later, and that nobody
/// cancels, is performed exactly once and concluded exactly once: the message
/// reaches the engine or the peer once, and the caller gets its outcome.
pub proof fn exactly_once(signals: Seq<Signal>, start: int, arrival: int)
    requires
        forall|k: int| 0 <= k < signals.len() ==> signals[k] != Signal::Cancel,
        0 <= start < arrival < signals.len(),
        signals[start] == Signal::Start,
        signals[arrival] == Signal::Arrival,
    ensures
        Phase::Ready.after(signals) == Phase::Settled,
        times(Phase::Ready.duties(signals), Duty::Perform) == 1,
        times(Phase::Ready.duties(signals), Duty::Conclude) == 1,
        times(Phase::Ready.duties(signals), Duty::Abort) == 0,
{
    lemma_settled(signals, start, arrival);
    lemma_tally(Phase::Ready, signals);
}

/// Cancelling a call that is in flight aborts it, once, and ends it: whatever
/// comes later, nothing is outstanding for the call, it is not aborted again,
/// and it is never concluded.
pub proof fn cancellation_releases(signals: Seq<Signal>, later: Seq<Signal>)
    requires
        Phase::Ready.after(signals).outstanding(),
    ensures
        Phase::Ready.after(signals.push(Signal::Cancel)) == Phase::Cancelled,
        Phase::Ready.duties(signals.push(Signal::Cancel)).last() == Duty::Abort,
        !Phase::Ready.after(signals.push(Signal::Cancel) + later).outstanding(),
        times(Phase::Ready.duties(signals.push(Signal::Cancel) + later), Duty::Abort) == 1,
        times(Phase::Ready.duties(signals.push(Signal::Cancel) + later), Duty::Conclude) == 0,
{
    let cancelled = signals.push(Signal::Cancel);
    assert(cancelled.drop_last() =~= signals);
    lemma_tally(Phase::Ready, cancelled);
    lemma_tally(Phase::Ready, cancelled + later);
    lemma_tally(Phase::Cancelled, later);
    lemma_joined(Phase::Ready, cancelled, later);
    lemma_times_joined(
        Phase::Ready.duties(cancelled),
        Phase::Cancelled.duties(later),
        Duty::Abort,
    );
}

/// A call that was concluded stays as it is: a cancellation that comes after
/// the reply, or any other signal, changes neither its phase nor what was
/// done for it.
pub proof fn completion_is_final(signals: Seq<Signal>, later: Seq<Signal>, duty: Duty)
    requires
        Phase::Ready.after(signals) == Phase::Settled,
        duty != Duty::Nothing,
    ensures
        Phase::Ready.after(signals + later) == Phase::Settled,
        times(Phase::Ready.duties(signals + later), duty) == times(
            Phase::Ready.duties(signals),
            duty,
        ),
{
    lemma_joined(Phase::Ready, signals, later);
    lemma_tally(Phase::Settled, later);
    lemma_times_joined(Phase::Ready.duties(signals), Phase::Settled.duties(later), duty);
}

/// A signal for one of the calls that are under way at the same time.
pub struct Event {
    /// Which call, by its place among them.
    pub call: nat,
    pub signal: Signal,
}

/// The signals that `schedule` holds for `call`, in their order.
pub open spec fn signals_of(schedule: Seq<Event>, call: nat) -> Seq<Signal>
    decreases schedule.len(),
{
    if schedule.len() == 0 {
        Seq::empty()
    } else if schedule.last().call == call {
        signals_of(schedule.drop_last(), call).push(schedule.last().signal)
    } else {
        signals_of(schedule.drop_last(), call)
    }
}

/// The phases of all calls after the events of `schedule`, each event moving
/// the one call it names. An event for a call that is not there moves none.
pub open spec fn phases_after(phases: Seq<Phase>, schedule: Seq<Event>) -> Seq<Phase>
    decreases schedule.len(),
{
    if schedule.len() == 0 {
        phases
    } else {
        let before = phases_after(phases, schedule.drop_last());
        let event = schedule.last();
        if event.call < before.len() {
            before.update(event.call as int, before[event.call as int].step(event.signal).0)
        } else {
            before
        }
    }
}

/// What is owed for `call` along `schedule`: one duty for each event that
/// names the call.
pub open spec fn duties_of(phases: Seq<Phase>, schedule: Seq<Event>, call: nat) -> Seq<Duty>
    decreases schedule.len(),
{
    if schedule.len() == 0 {
        Seq::empty()
    } else {
        let before = phases_after(phases, schedule.drop_last());
        let event = schedule.last();
        if event.call == call {
            duties_of(phases, schedule.drop_last(), call).push(
                before[call as int].step(event.signal).1,
            )
        } else {
            duties_of(phases, schedule.drop_last(), call)
        }
    }
}

/// Calls do not get in each other's way: however the events of several calls
/// are interleaved, each call goes through the phases, and is owed the duties,
/// that its own signals alone would give it.
pub proof fn calls_do_not_interfere(phases: Seq<Phase>, schedule: Seq<Event>, call: nat)
    requires
        call < phases.len(),
    ensures
        phases_after(phases, schedule).len() == phases.len(),
        phases_after(phases, schedule)[call as int] == phases[call as int].after(
            signals_of(schedule, call),
        ),
        duties_of(phases, schedule, call) == phases[call as int].duties(
            signals_of(schedule, call),
        ),
    decreases schedule.len(),
{
    if schedule.len() > 0 {
        calls_do_not_interfere(phases, schedule.drop_last(), call);
        let event = schedule.last();
        if event.call == call {
            let own = signals_of(schedule, call);
            assert(own.drop_last() =~= signals_of(schedule.drop_last(), call));
        } else if event.call < phases.len() {
            calls_do_not_interfere(phases, schedule.drop_last(), event.call);
        }
    }
}

/// Where the signal of `schedule[at]` stands among the signals of its call.
proof fn lemma_place(schedule: Seq<Event>, at: int) -> (place: int)
    requires
        0 <= at < schedule.len(),
    ensures
        0 <= place < signals_of(schedule, schedule[at].call).len(),
        signals_of(schedule, schedule[at].call)[place] == schedule[at].signal,
        place == signals_of(schedule.take(at), schedule[at].call).len(),
    decreases schedule.len(),
{
    let call = schedule[at].call;
    if at == schedule.len() - 1 {
        signals_of(schedule.drop_last(), call).len() as int
    } else {
        let place = lemma_place(schedule.drop_last(), at);
        assert(schedule.drop_last().take(at) =~= schedule.take(at));
        place
    }
}

/// The signals of a call grow with the schedule.
proof fn lemma_grows(schedule: Seq<Event>, call: nat, shorter: int, longer: int)
    requires
        0 <= shorter <= longer <= schedule.len(),
    ensures
        signals_of(schedule.take(shorter), call).len() <= signals_of(
            schedule.take(longer),
            call,
        ).len(),
        shorter < longer && schedule[shorter].call == call ==> signals_of(
            schedule.take(shorter),
            call,
        ).len() < signals_of(schedule.take(longer), call).len(),
    decreases longer - shorter,
{
    if shorter < longer {
        lemma_grows(schedule, call, shorter + 1, longer);
        assert(schedule.take(shorter + 1).drop_last() =~= schedule.take(shorter));
    }
}

proof fn lemma_uncancelled(schedule: Seq<Event>, call: nat)
    requires
        forall|k: int|
            0 <= k < schedule.len() && schedule[k].call == call ==> schedule[k].signal
                != Signal::Cancel,
    ensures
        forall|k: int|
            0 <= k < signals_of(schedule, call).len() ==> signals_of(schedule, call)[k]
                != Signal::Cancel,
    decreases schedule.len(),
{
    if schedule.len() > 0 {
        lemma_uncancelled(schedule.drop_last(), call);
    }
}

/// Of any number of calls under way at the same time, each one that is
/// started, whose reply arrives later, and that nobody cancels, is performed
/// exactly once and concluded exactly once, however its events are
/// interleaved with those of the others and whatever becomes of the others.
pub proof fn every_call_exactly_once(
    calls: nat,
    schedule: Seq<Event>,
    call: nat,
    start: int,
    arrival: int,
)
    requires
        call < calls,
        forall|k: int|
            0 <= k < schedule.len() && schedule[k].call == call ==> schedule[k].signal
                != Signal::Cancel,
        0 <= start < arrival < schedule.len(),
        schedule[start] == (Event { call, signal: Signal::Start }),
        schedule[arrival] == (Event { call, signal: Signal::Arrival }),
    ensures
        phases_after(Seq::new(calls, |i: int| Phase::Ready), schedule)[call as int]
            == Phase::Settled,
        times(
            duties_of(Seq::new(calls, |i: int| Phase::Ready), schedule, call),
            Duty::Perform,
        ) == 1,
        times(
            duties_of(Seq::new(calls, |i: int| Phase::Ready), schedule, call),
            Duty::Conclude,
        ) == 1,
{
    let own = signals_of(schedule, call);
    calls_do_not_interfere(Seq::new(calls, |i: int| Phase::Ready), schedule, call);
    lemma_uncancelled(schedule, call);
    let started = lemma_place(schedule, start);
    let arrived = lemma_place(schedule, arrival);
    lemma_grows(schedule, call, start, arrival);
    exactly_once(own, started, arrived);
}

} // verus!

//! The decisions taken while a command is written to the device.
//!
//! Writing a command takes several calls to the Bluetooth stack: asking
//! whether the device is connected, connecting when it is not, discovering
//! its services, then offering the command to its characteristics one after
//! the other until one accepts it. The caller performs each `SendAction` and
//! reports what happened as a `SendEvent`; `send_step` decides what comes next.

use vstd::prelude::*;

verus! {

/// Where a session that writes one command stands.
#[derive(Clone, Copy, Debug, PartialEq, Eq, Structural)]
pub enum SendPhase {
    /// Waiting to learn whether the device is connected.
    CheckingConnection,
    /// Waiting for the connection (and the pause after it) to complete.
    Connecting,
    /// Waiting for the services to be discovered (and the pause after it).
    Discovering,
    /// Waiting for the answer of characteristic `next`, out of `total`.
    Writing { next: usize, total: usize },
    /// The session is over.
    Finished,
}

/// Why a session failed.
#[derive(Clone, Copy, Debug, PartialEq, Eq, Structural)]
pub enum SendFailure {
    /// A call to the Bluetooth stack returned an error.
    CallFailed,
    /// No characteristic accepted the command.
    NoWritableCharacteristic,
}

/// What the caller is asked to do next.
#[derive(Clone, Copy, Debug, PartialEq, Eq, Structural)]
pub enum SendAction {
    /// Ask whether the device is connected.
    CheckConnection,
    /// Connect to the device, then pause for 500 ms.
    Connect,
    /// Discover the services, pause for 300 ms, and report how many
    /// characteristics the services hold in all.
    DiscoverServices,
    /// Write the command, without response, to the characteristic with this
    /// index (characteristics counted service by service, in order).
    Write(usize),
    /// The command was written: the session succeeded.
    Succeed,
    /// The session failed.
    Fail(SendFailure),
}

/// What the caller reports after performing an action.
#[derive(Clone, Copy, Debug, PartialEq, Eq, Structural)]
pub enum SendEvent {
    /// Whether the device is connected.
    ConnectionChecked(bool),
    /// The connection is established.
    Connected,
    /// The services are known; they hold this many characteristics.
    ServicesDiscovered(usize),
    /// Whether the characteristic last written accepted the command.
    WriteCompleted(bool),
    /// The call just made returned an error.
    CallFailed,
}

/// A phase that can occur: a characteristic being written is one of those
/// discovered.
pub open spec fn phase_wf(phase: SendPhase) -> bool {
    match phase {
        SendPhase::Writing { next, total } => next < total,
        _ => true,
    }
}

/// The events that can follow a phase. Connection checks, connections and
/// discoveries may fail; a failed write is reported as a refusal.
pub open spec fn accepts_spec(phase: SendPhase, event: SendEvent) -> bool {
    &&& phase_wf(phase)
    &&& match phase {
        SendPhase::CheckingConnection => event is ConnectionChecked || event is CallFailed,
        SendPhase::Connecting => event is Connected || event is CallFailed,
        SendPhase::Discovering => event is ServicesDiscovered || event is CallFailed,
        SendPhase::Writing { .. } => event is WriteCompleted,
        SendPhase::Finished => false,
    }
}

/// The next phase and action, given the phase and the event just reported.
pub open spec fn step_spec(phase: SendPhase, event: SendEvent) -> (SendPhase, SendAction) {
    match event {
        SendEvent::CallFailed => (SendPhase::Finished, SendAction::Fail(SendFailure::CallFailed)),
        SendEvent::ConnectionChecked(true) => (SendPhase::Discovering, SendAction::DiscoverServices),
        SendEvent::ConnectionChecked(false) => (SendPhase::Connecting, SendAction::Connect),
        SendEvent::Connected => (SendPhase::Discovering, SendAction::DiscoverServices),
        SendEvent::ServicesDiscovered(total) => if total == 0 {
            (SendPhase::Finished, SendAction::Fail(SendFailure::NoWritableCharacteristic))
        } else {
            (SendPhase::Writing { next: 0, total }, SendAction::Write(0))
        },
        SendEvent::WriteCompleted(accepted) => match phase {
            SendPhase::Writing { next, total } => if accepted {
                (SendPhase::Finished, SendAction::Succeed)
            } else if next + 1 < total {
                (
                    SendPhase::Writing { next: (next + 1) as usize, total },
                    SendAction::Write((next + 1) as usize),
                )
            } else {
                (SendPhase::Finished, SendAction::Fail(SendFailure::NoWritableCharacteristic))
            },
            _ => (phase, SendAction::Fail(SendFailure::CallFailed)),
        },
    }
}

/// Starts a session: the first thing to do is to ask whether the device is
/// connected.
pub fn send_start() -> (r: (SendPhase, SendAction))
    ensures
        r == (SendPhase::CheckingConnection, SendAction::CheckConnection),
{
    (SendPhase::CheckingConnection, SendAction::CheckConnection)
}

/// Tells whether `event` can follow `phase`.
pub fn send_accepts(phase: SendPhase, event: SendEvent) -> (b: bool)
    ensures
        b == accepts_spec(phase, event),
{
    match phase {
        SendPhase::CheckingConnection => match event {
            SendEvent::ConnectionChecked(_) | SendEvent::CallFailed => true,
            _ => false,
        },
        SendPhase::Connecting => match event {
            SendEvent::Connected | SendEvent::CallFailed => true,
            _ => false,
        },
        SendPhase::Discovering => match event {
            SendEvent::ServicesDiscovered(_) | SendEvent::CallFailed => true,
            _ => false,
        },
        SendPhase::Writing { next, total } => next < total && match event {
            SendEvent::WriteCompleted(_) => true,
            _ => false,
        },
        SendPhase::Finished => false,
    }
}

/// Decides the next phase and action after `event`: connect only when the
/// device is not connected; offer the command to the characteristics in
/// order; stop at the first that accepts it; fail when a call fails or when
/// none accepts it.
pub fn send_step(phase: SendPhase, event: SendEvent) -> (r: (SendPhase, SendAction))
    requires
        accepts_spec(phase, event),
    ensures
        r == step_spec(phase, event),
        phase_wf(r.0),
        r.1 matches SendAction::Write(i) ==> (r.0 matches SendPhase::Writing { next, .. } && next
            == i),
        r.0 is Finished <==> (r.1 is Succeed || r.1 is Fail),
{
    match event {
        SendEvent::CallFailed => (SendPhase::Finished, SendAction::Fail(SendFailure::CallFailed)),
        SendEvent::ConnectionChecked(connected) => {
            if connected {
                (SendPhase::Discovering, SendAction::DiscoverServices)
            } else {
                (SendPhase::Connecting, SendAction::Connect)
            }
        },
        SendEvent::Connected => (SendPhase::Discovering, SendAction::DiscoverServices),
        SendEvent::ServicesDiscovered(total) => {
            if total == 0 {
                (SendPhase::Finished, SendAction::Fail(SendFailure::NoWritableCharacteristic))
            } else {
                (SendPhase::Writing { next: 0, total }, SendAction::Write(0))
            }
        },
        SendEvent::WriteCompleted(accepted) => match phase {
            SendPhase::Writing { next, total } => {
                if accepted {
                    (SendPhase::Finished, SendAction::Succeed)
                } else if next + 1 < total {
                    (SendPhase::Writing { next: next + 1, total }, SendAction::Write(next + 1))
                } else {
                    (SendPhase::Finished, SendAction::Fail(SendFailure::NoWritableCharacteristic))
                }
            },
            _ => (phase, SendAction::Fail(SendFailure::CallFailed)),
        },
    }
}

/// The measure of the writing loop: how many characteristics are left to try.
pub open spec fn writes_left(phase: SendPhase) -> nat {
    match phase {
        SendPhase::Writing { next, total } => if next < total { (total - next) as nat } else { 0 },
        _ => 0,
    }
}

/// A session connects exactly when the device reports that it is not
/// connected, then discovers the services; a failed call ends it with that
/// failure. The characteristic written is always the one the session now
/// waits on,
/// and the first write goes to characteristic 0; after characteristic `next`
/// refuses, the command goes to characteristic `next + 1` when there is one,
/// and the session fails when there is none; after it accepts, the session
/// succeeds.
pub proof fn lemma_writes_follow_the_characteristics(phase: SendPhase, event: SendEvent)
    requires
        accepts_spec(phase, event),
    ensures
        step_spec(phase, event).1 matches SendAction::Write(i) ==> (step_spec(
            phase,
            event,
        ).0 matches SendPhase::Writing { next, .. } && next == i),
        phase == SendPhase::CheckingConnection ==> (step_spec(phase, event).1
            == SendAction::Connect <==> event == SendEvent::ConnectionChecked(false)),
        phase == SendPhase::CheckingConnection && event == SendEvent::ConnectionChecked(true)
            ==> step_spec(phase, event).1 == SendAction::DiscoverServices,
        phase == SendPhase::Connecting && event == SendEvent::Connected ==> step_spec(
            phase,
            event,
        ).1 == SendAction::DiscoverServices,
        event == SendEvent::CallFailed ==> step_spec(phase, event) == (
            SendPhase::Finished,
            SendAction::Fail(SendFailure::CallFailed),
        ),
        event matches SendEvent::ServicesDiscovered(n) ==> (n > 0 ==> step_spec(phase, event)
            == (SendPhase::Writing { next: 0, total: n }, SendAction::Write(0))),
        phase matches SendPhase::Writing { next, total } ==> {
            &&& event == SendEvent::WriteCompleted(true) ==> step_spec(phase, event)
                == (SendPhase::Finished, SendAction::Succeed)
            &&& event == SendEvent::WriteCompleted(false) && next + 1 < total ==> step_spec(
                phase,
                event,
            ).1 == SendAction::Write((next + 1) as usize)
            &&& event == SendEvent::WriteCompleted(false) && next + 1 == total ==> step_spec(
                phase,
                event,
            ) == (
                SendPhase::Finished,
                SendAction::Fail(SendFailure::NoWritableCharacteristic),
            )
        },
{
}

/// How far a session is from its end, stage by stage.
pub open spec fn stage(phase: SendPhase) -> nat {
    match phase {
        SendPhase::CheckingConnection => 4,
        SendPhase::Connecting => 3,
        SendPhase::Discovering => 2,
        SendPhase::Writing { .. } => 1,
        SendPhase::Finished => 0,
    }
}

/// Every step moves a session forward: to a later stage, or, while writing,
/// to a characteristic not yet tried. So every session ends, with success or
/// failure, after finitely many steps.
pub proof fn lemma_step_makes_progress(phase: SendPhase, event: SendEvent)
    requires
        accepts_spec(phase, event),
    ensures
        ({
            let p = step_spec(phase, event).0;
            stage(p) < stage(phase) || (stage(p) == stage(phase) && writes_left(p) < writes_left(
                phase,
            ))
        }),
{
}

/// The writing loop driven to its end, when characteristic `i` answers
/// `answers[i]`: the last action and the number of writes made from `phase` on.
pub open spec fn drive_writes(phase: SendPhase, answers: Seq<bool>) -> (SendAction, nat)
    decreases writes_left(phase),
{
    match phase {
        SendPhase::Writing { next, total } => if next < total {
            let (p, a) = step_spec(phase, SendEvent::WriteCompleted(answers[next as int]));
            if p is Writing && writes_left(p) < writes_left(phase) {
                let (last, writes) = drive_writes(p, answers);
                (last, writes + 1)
            } else {
                (a, 1)
            }
        } else {
            (SendAction::Fail(SendFailure::NoWritableCharacteristic), 0)
        },
        _ => (SendAction::Fail(SendFailure::NoWritableCharacteristic), 0),
    }
}

/// The index of the first answer from `i` on that accepts, or the number of
/// answers when none does.
pub open spec fn first_accepting_from(answers: Seq<bool>, i: int) -> int
    decreases answers.len() - i,
{
    if i >= answers.len() || i < 0 {
        answers.len() as int
    } else if answers[i] {
        i
    } else {
        first_accepting_from(answers, i + 1)
    }
}

proof fn lemma_first_accepting_from(answers: Seq<bool>, i: int)
    requires
        0 <= i <= answers.len(),
    ensures
        i <= first_accepting_from(answers, i) <= answers.len(),
        forall|j: int| i <= j < first_accepting_from(answers, i) ==> !answers[j],
        first_accepting_from(answers, i) < answers.len() ==> answers[first_accepting_from(answers, i)],
    decreases answers.len() - i,
{
    if i < answers.len() && !answers[i] {
        lemma_first_accepting_from(answers, i + 1);
    }
}

proof fn lemma_drive_writes(answers: Seq<bool>, next: usize)
    requires
        next < answers.len() <= usize::MAX,
    ensures
        ({
            let k = first_accepting_from(answers, next as int);
            drive_writes(SendPhase::Writing { next, total: answers.len() as usize }, answers) == if k
                < answers.len() {
                (SendAction::Succeed, (k - next + 1) as nat)
            } else {
                (
                    SendAction::Fail(SendFailure::NoWritableCharacteristic),
                    (answers.len() - next) as nat,
                )
            }
        }),
    decreases answers.len() - next,
{
    let total = answers.len() as usize;
    let phase = SendPhase::Writing { next, total };
    if !answers[next as int] && next + 1 < answers.len() {
        let p = SendPhase::Writing { next: (next + 1) as usize, total };
        assert(step_spec(phase, SendEvent::WriteCompleted(false)).0 == p);
        assert(writes_left(p) < writes_left(phase));
        lemma_drive_writes(answers, (next + 1) as usize);
        lemma_first_accepting_from(answers, next + 1);
    } else if !answers[next as int] {
        assert(first_accepting_from(answers, next + 1) == answers.len());
    }
}

/// A command reaches the device exactly when one of its characteristics
/// accepts it: it is offered to the characteristics in order, to none after
/// the first that accepts it, and to all of them when none does. A device
/// without characteristics fails at once.
pub proof fn lemma_writes_until_accepted(answers: Seq<bool>)
    requires
        answers.len() <= usize::MAX,
    ensures
        ({
            let (p, a) = step_spec(
                SendPhase::Discovering,
                SendEvent::ServicesDiscovered(answers.len() as usize),
            );
            let (last, writes) = drive_writes(p, answers);
            &&& answers.len() == 0 ==> p is Finished && a == SendAction::Fail(
                SendFailure::NoWritableCharacteristic,
            )
            &&& answers.len() > 0 ==> {
                &&& a == SendAction::Write(0)
                &&& (last == SendAction::Succeed) == answers.contains(true)
                &&& last != SendAction::Succeed ==> last == SendAction::Fail(
                    SendFailure::NoWritableCharacteristic,
                ) && writes == answers.len()
                &&& last == SendAction::Succeed ==> 0 < writes <= answers.len() && answers[writes
                    - 1] && forall|j: int| 0 <= j < writes - 1 ==> !answers[j]
            }
        }),
{
    if answers.len() > 0 {
        lemma_drive_writes(answers, 0);
        lemma_first_accepting_from(answers, 0);
        let k = first_accepting_from(answers, 0);
        if k < answers.len() {
            assert(answers.contains(true)) by {
                assert(answers[k] == true);
            }
        }
    }
}

} // verus!

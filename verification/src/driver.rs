//! One poll cycle as a state machine. The caller does the outside work
//! (reading the log, asking the sources, sending to the ledger, writing the
//! checkpoint) and reports each result as an event; the driver decides what
//! comes next.
use vstd::prelude::*;
use crate::logs::{EventLog, EventUrlLog};
use crate::poller::advanced_to;

verus! {

/// Where a cycle stands. Anything but `Idle` means that a cycle is in
/// flight.
#[derive(Debug, Clone, Copy, PartialEq, Eq, Structural)]
pub enum CycleState {
    Idle,
    Polling,
    Resolving,
    Dispatching,
}

/// What the caller reports to the driver.
#[derive(Debug, Clone, Copy, PartialEq, Eq, Structural)]
pub enum CycleEvent {
    /// The timer fired; the checkpoint as it was just loaded.
    Trigger { checkpoint: u64 },
    /// The log could not be read.
    PollFailed,
    /// The log was read: how many records are newer than the checkpoint,
    /// and the time of the last of them.
    Polled { records: usize, last_timestamp: u64 },
    /// Every record has its response, be it an error.
    Resolved,
    /// One response was handed to the ledger, which accepted or rejected it.
    Submitted { accepted: bool },
}

/// What the driver asks the caller to do next.
#[derive(Debug, Clone, Copy, PartialEq, Eq, Structural)]
pub enum CycleAction {
    /// Nothing at all.
    Nothing,
    /// Read the records of the log that are newer than `since`.
    Poll { since: u64 },
    /// Resolve the records that were read.
    Resolve,
    /// Hand the next response that has not been sent to the ledger.
    Dispatch,
    /// Write `watermark` as the new checkpoint.
    Save { watermark: u64 },
}

/// The driver of the pipeline: the state of the cycle, the watermark that
/// the cycle in flight started from or has reached, and how many responses
/// of the batch have not been sent yet.
#[derive(Debug, Clone, Copy, PartialEq, Eq, Structural)]
pub struct PipelineDriver {
    pub phase: CycleState,
    pub watermark: u64,
    pub unsent: usize,
}

/// A driver at rest with the given watermark.
pub open spec fn at_rest(watermark: u64) -> PipelineDriver {
    PipelineDriver { phase: CycleState::Idle, watermark, unsent: 0 }
}

/// The driver after an event, and what it asks for.
pub open spec fn next(d: PipelineDriver, e: CycleEvent) -> (PipelineDriver, CycleAction) {
    match (d.phase, e) {
        (CycleState::Idle, CycleEvent::Trigger { checkpoint }) => (
            PipelineDriver { phase: CycleState::Polling, watermark: checkpoint, unsent: 0 },
            CycleAction::Poll { since: checkpoint },
        ),
        (CycleState::Polling, CycleEvent::PollFailed) => (at_rest(d.watermark), CycleAction::Nothing),
        (CycleState::Polling, CycleEvent::Polled { records, last_timestamp }) => if records == 0 {
            (at_rest(d.watermark), CycleAction::Nothing)
        } else {
            (
                PipelineDriver {
                    phase: CycleState::Resolving,
                    watermark: advanced_to(d.watermark, Some(last_timestamp)),
                    unsent: records,
                },
                CycleAction::Resolve,
            )
        },
        (CycleState::Resolving, CycleEvent::Resolved) => (
            PipelineDriver { phase: CycleState::Dispatching, watermark: d.watermark, unsent: d.unsent },
            CycleAction::Dispatch,
        ),
        (CycleState::Dispatching, CycleEvent::Submitted { accepted }) => if d.unsent <= 1 {
            (at_rest(d.watermark), CycleAction::Save { watermark: d.watermark })
        } else {
            (
                PipelineDriver {
                    phase: CycleState::Dispatching,
                    watermark: d.watermark,
                    unsent: (d.unsent - 1) as usize,
                },
                CycleAction::Dispatch,
            )
        },
        _ => (d, CycleAction::Nothing),
    }
}

impl PipelineDriver {
    /// A driver at rest.
    pub fn new(watermark: u64) -> (r: PipelineDriver)
        ensures
            r == at_rest(watermark),
    {
        PipelineDriver { phase: CycleState::Idle, watermark, unsent: 0 }
    }

    /// Whether a cycle is in flight.
    pub fn is_running(&self) -> (r: bool)
        ensures
            r == (self.phase != CycleState::Idle),
    {
        match self.phase {
            CycleState::Idle => false,
            _ => true,
        }
    }

    /// Takes an event and says what to do next.
    pub fn step(&mut self, event: CycleEvent) -> (r: CycleAction)
        ensures
            (*final(self), r) == next(*old(self), event),
    {
        match (self.phase, event) {
            (CycleState::Idle, CycleEvent::Trigger { checkpoint }) => {
                self.phase = CycleState::Polling;
                self.watermark = checkpoint;
                self.unsent = 0;
                CycleAction::Poll { since: checkpoint }
            },
            (CycleState::Polling, CycleEvent::PollFailed) => {
                self.phase = CycleState::Idle;
                self.unsent = 0;
                CycleAction::Nothing
            },
            (CycleState::Polling, CycleEvent::Polled { records, last_timestamp }) => {
                if records == 0 {
                    self.phase = CycleState::Idle;
                    self.unsent = 0;
                    CycleAction::Nothing
                } else {
                    self.phase = CycleState::Resolving;
                    self.unsent = records;
                    if last_timestamp > self.watermark {
                        self.watermark = last_timestamp;
                    }
                    CycleAction::Resolve
                }
            },
            (CycleState::Resolving, CycleEvent::Resolved) => {
                self.phase = CycleState::Dispatching;
                CycleAction::Dispatch
            },
            (CycleState::Dispatching, CycleEvent::Submitted { accepted: _ }) => {
                if self.unsent <= 1 {
                    self.phase = CycleState::Idle;
                    self.unsent = 0;
                    CycleAction::Save { watermark: self.watermark }
                } else {
                    self.unsent = self.unsent - 1;
                    CycleAction::Dispatch
                }
            },
            _ => CycleAction::Nothing,
        }
    }
}

/// The time of the last record of a batch, the later of the last price
/// request and the last content request; `None` for an empty batch.
pub fn process_canister_logs(prices: &Vec<EventLog>, contents: &Vec<EventUrlLog>) -> (r: Option<u64>)
    ensures
        r is None <==> prices@.len() == 0 && contents@.len() == 0,
        r is Some ==> r->Some_0 == last_of(
            if prices@.len() > 0 {
                Some(prices@.last().timestamp)
            } else {
                None
            },
            if contents@.len() > 0 {
                Some(contents@.last().timestamp)
            } else {
                None
            },
        )->Some_0,
{
    let p = if prices.len() > 0 {
        Some(prices[prices.len() - 1].timestamp)
    } else {
        None
    };
    let c = if contents.len() > 0 {
        Some(contents[contents.len() - 1].timestamp)
    } else {
        None
    };
    match (p, c) {
        (Some(a), Some(b)) => if a >= b {
            Some(a)
        } else {
            Some(b)
        },
        (Some(a), None) => Some(a),
        (None, Some(b)) => Some(b),
        (None, None) => None,
    }
}

/// The later of two times, each of which may be missing.
pub open spec fn last_of(a: Option<u64>, b: Option<u64>) -> Option<u64> {
    match (a, b) {
        (Some(x), Some(y)) => if x >= y {
            Some(x)
        } else {
            Some(y)
        },
        (Some(x), None) => Some(x),
        (None, Some(y)) => Some(y),
        (None, None) => None,
    }
}

/// The driver after a run of events.
pub open spec fn run(d: PipelineDriver, events: Seq<CycleEvent>) -> PipelineDriver
    decreases events.len(),
{
    if events.len() == 0 {
        d
    } else {
        run(next(d, events[0]).0, events.skip(1))
    }
}

/// How often the driver asks to hand a response to the ledger during a run
/// of events.
pub open spec fn dispatches(d: PipelineDriver, events: Seq<CycleEvent>) -> nat
    decreases events.len(),
{
    if events.len() == 0 {
        0
    } else {
        let (after, action) = next(d, events[0]);
        dispatches(after, events.skip(1)) + if action == CycleAction::Dispatch {
            1nat
        } else {
            0nat
        }
    }
}

/// A cycle that finds no new record leaves the checkpoint as it was and
/// sends nothing: the driver is at rest again with the watermark that the
/// cycle started from, and neither step asks to resolve, dispatch or save.
pub proof fn law_empty_cycle_changes_nothing(checkpoint: u64, last_timestamp: u64)
    ensures
        ({
            let start = at_rest(checkpoint);
            let (polling, first) = next(start, CycleEvent::Trigger { checkpoint });
            let (end, second) = next(polling, CycleEvent::Polled { records: 0, last_timestamp });
            &&& first == CycleAction::Poll { since: checkpoint }
            &&& second == CycleAction::Nothing
            &&& end == start
        }),
{
}

/// A trigger that finds a cycle in flight is a no-op: the driver stays as it
/// is and asks for nothing, so nothing is polled or sent twice.
pub proof fn law_trigger_in_flight_is_noop(d: PipelineDriver, checkpoint: u64)
    requires
        d.phase != CycleState::Idle,
    ensures
        next(d, CycleEvent::Trigger { checkpoint }) == (d, CycleAction::Nothing),
{
}

/// Of two triggers in a row the second is a no-op: the first starts the
/// cycle, and the second finds it in flight.
pub proof fn law_second_trigger_is_noop(d: PipelineDriver, first: u64, second: u64)
    ensures
        ({
            let (after, _) = next(d, CycleEvent::Trigger { checkpoint: first });
            next(after, CycleEvent::Trigger { checkpoint: second }) == (after, CycleAction::Nothing)
        }),
{
}

/// Within a cycle the watermark never goes back: only a trigger at rest,
/// which loads the checkpoint, may set it to anything.
pub proof fn law_watermark_monotone(d: PipelineDriver, e: CycleEvent)
    requires
        !(d.phase == CycleState::Idle && e is Trigger),
    ensures
        next(d, e).0.watermark >= d.watermark,
{
}

/// A failed poll ends the cycle where it started: at rest, with the
/// watermark untouched and nothing asked for.
pub proof fn law_poll_failure_aborts(d: PipelineDriver)
    requires
        d.phase == CycleState::Polling,
    ensures
        next(d, CycleEvent::PollFailed) == (at_rest(d.watermark), CycleAction::Nothing),
{
}

/// The checkpoint is written only at the end of a cycle that resolved a
/// batch: a save is asked for on no event but a submit in state
/// `Dispatching`, and a response is sent on no event but `Resolved` in
/// state `Resolving` or a submit in state `Dispatching`.
pub proof fn law_save_only_after_dispatch(d: PipelineDriver, e: CycleEvent)
    ensures
        next(d, e).1 is Save ==> d.phase == CycleState::Dispatching && e is Submitted,
        next(d, e).1 == CycleAction::Dispatch ==> (d.phase == CycleState::Resolving && e
            == CycleEvent::Resolved) || (d.phase == CycleState::Dispatching && e is Submitted),
{
}

/// A response that the ledger rejects is dropped and the rest of the batch
/// is still sent: the driver goes on in the same way whether a submit was
/// accepted or rejected. It never asks for a response to be sent again.
pub proof fn law_rejection_does_not_stop_dispatch(d: PipelineDriver)
    ensures
        next(d, CycleEvent::Submitted { accepted: false }) == next(
            d,
            CycleEvent::Submitted { accepted: true },
        ),
{
}

/// Each response of a batch is sent exactly once: while `n` responses are
/// unsent, `n` submits, accepted or rejected, bring the driver to rest, and
/// on the way it asks for just the `n - 1` responses that follow the first.
pub proof fn law_each_response_sent_once(d: PipelineDriver, events: Seq<CycleEvent>)
    requires
        d.phase == CycleState::Dispatching,
        d.unsent >= 1,
        events.len() == d.unsent,
        forall|i: int| 0 <= i < events.len() ==> events[i] is Submitted,
    ensures
        run(d, events) == at_rest(d.watermark),
        dispatches(d, events) == d.unsent - 1,
    decreases events.len(),
{
    let rest = events.skip(1);
    let (after, action) = next(d, events[0]);
    assert(events[0] is Submitted);
    if d.unsent == 1 {
        assert(rest.len() == 0);
        assert(run(after, rest) == after);
        assert(dispatches(after, rest) == 0);
        assert(action != CycleAction::Dispatch);
    } else {
        assert(action == CycleAction::Dispatch);
        assert(after.unsent == d.unsent - 1);
        assert forall|i: int| 0 <= i < rest.len() implies rest[i] is Submitted by {
            assert(rest[i] == events[i + 1]);
        }
        law_each_response_sent_once(after, rest);
    }
}

} // verus!

//! The submission of a solution: a state machine that resets the epoch where it
//! has run out, sends the solution on one bus, and on rejection moves to the
//! next bus and starts over. The caller performs each action on the ledger and
//! reports what came of it.

use vstd::prelude::*;
use vstd::arithmetic::div_mod::{lemma_add_mod_noop, lemma_mod_twice, lemma_small_mod};
use crate::search::WebworkerResponse;

verus! {

/// What the engine has to know of the ledger's rules.
#[derive(Debug, Clone, Copy, PartialEq, Eq)]
pub struct LedgerParams {
    /// Length of an epoch, in seconds.
    pub epoch_duration: i64,
    /// Number of buses among which submissions are spread.
    pub bus_count: usize,
}

/// Why a submission was given up.
#[derive(Debug, Clone, Copy, PartialEq, Eq)]
pub enum SubmitError {
    /// The treasury or the clock could not be read.
    Gateway,
    /// The transaction that resets the epoch failed.
    EpochReset,
}

/// Where a submission stands.
#[derive(Debug, Clone, Copy, PartialEq, Eq)]
pub enum SubmitStage {
    /// The treasury and the clock are being read.
    ReadingLedger,
    /// The transaction that resets the epoch is under way.
    Resetting,
    /// The transaction that carries the solution is under way.
    Mining,
    /// The solution was accepted.
    Confirmed,
    /// The submission was given up.
    Failed(SubmitError),
}

/// A submission under way.
#[derive(Debug, Clone, Copy, PartialEq, Eq)]
pub struct Submission {
    /// The solution to submit.
    pub solution: WebworkerResponse,
    /// The bus that the next attempt goes to.
    pub bus_id: usize,
    /// Where the submission stands.
    pub stage: SubmitStage,
}

/// What the ledger answered to the action last asked for.
#[derive(Debug, Clone, Copy, PartialEq, Eq)]
pub enum SubmitEvent {
    /// The treasury and the clock were read.
    Ledger { epoch_start_at: i64, timestamp: i64 },
    /// The treasury or the clock could not be read.
    ReadFailed,
    /// The transaction last sent was confirmed.
    Confirmed,
    /// The transaction last sent was rejected.
    Rejected,
}

/// What the caller has to do next.
#[derive(Debug, Clone, Copy, PartialEq, Eq)]
pub enum SubmitAction {
    /// Read the treasury and the clock, and report `Ledger` or `ReadFailed`.
    ReadLedger,
    /// Send the transaction that resets the epoch, and report how it went.
    SendReset,
    /// Send the solution on the bus `bus_id`, and report how it went.
    SendMine { bus_id: usize, hash: [u8; 32], nonce: u64 },
    /// Hand the identifier of the confirmed transaction to whoever asked.
    Finish,
    /// Hand the failure to whoever asked.
    Abort(SubmitError),
}

/// The sum of `epoch_start_at` and `epoch_duration`, held within the range of
/// 64-bit timestamps.
pub open spec fn spec_epoch_end(epoch_start_at: i64, epoch_duration: i64) -> i64 {
    let end = epoch_start_at + epoch_duration;
    if end > i64::MAX {
        i64::MAX
    } else if end < i64::MIN {
        i64::MIN
    } else {
        end as i64
    }
}

/// The epoch that began at `epoch_start_at` is over at `timestamp`.
pub open spec fn spec_needs_reset(epoch_start_at: i64, timestamp: i64, epoch_duration: i64) -> bool {
    timestamp >= spec_epoch_end(epoch_start_at, epoch_duration)
}

/// The bus after `bus_id` among `bus_count` buses: the next index, or 0 after
/// the last.
pub open spec fn spec_next_bus(bus_id: usize, bus_count: usize) -> usize {
    if bus_id + 1 < bus_count {
        (bus_id + 1) as usize
    } else {
        0
    }
}

/// The action that the state `state` asks for.
pub open spec fn spec_action(state: Submission) -> SubmitAction {
    match state.stage {
        SubmitStage::ReadingLedger => SubmitAction::ReadLedger,
        SubmitStage::Resetting => SubmitAction::SendReset,
        SubmitStage::Mining => SubmitAction::SendMine {
            bus_id: state.bus_id,
            hash: state.solution.hash,
            nonce: state.solution.nonce,
        },
        SubmitStage::Confirmed => SubmitAction::Finish,
        SubmitStage::Failed(error) => SubmitAction::Abort(error),
    }
}

/// The state that follows `state` on `event`.
///
/// An event that does not answer the action that `state` asks for changes
/// nothing. Only a rejected solution moves the bus.
pub open spec fn spec_step(state: Submission, event: SubmitEvent, params: LedgerParams) -> Submission {
    match (state.stage, event) {
        (SubmitStage::ReadingLedger, SubmitEvent::Ledger { epoch_start_at, timestamp }) => Submission {
            stage: if spec_needs_reset(epoch_start_at, timestamp, params.epoch_duration) {
                SubmitStage::Resetting
            } else {
                SubmitStage::Mining
            },
            ..state
        },
        (SubmitStage::ReadingLedger, SubmitEvent::ReadFailed) => Submission {
            stage: SubmitStage::Failed(SubmitError::Gateway),
            ..state
        },
        (SubmitStage::Resetting, SubmitEvent::Confirmed) => Submission {
            stage: SubmitStage::Mining,
            ..state
        },
        (SubmitStage::Resetting, SubmitEvent::Rejected) => Submission {
            stage: SubmitStage::Failed(SubmitError::EpochReset),
            ..state
        },
        (SubmitStage::Mining, SubmitEvent::Confirmed) => Submission {
            stage: SubmitStage::Confirmed,
            ..state
        },
        (SubmitStage::Mining, SubmitEvent::Rejected) => Submission {
            stage: SubmitStage::ReadingLedger,
            bus_id: spec_next_bus(state.bus_id, params.bus_count),
            ..state
        },
        _ => state,
    }
}

/// The state at the start of the submission of `solution`.
pub open spec fn spec_start(solution: WebworkerResponse) -> Submission {
    Submission { solution, bus_id: 0, stage: SubmitStage::ReadingLedger }
}

/// Computes the end of the epoch that began at `epoch_start_at`.
pub fn epoch_end(epoch_start_at: i64, epoch_duration: i64) -> (end: i64)
    ensures
        end == spec_epoch_end(epoch_start_at, epoch_duration),
{
    match epoch_start_at.checked_add(epoch_duration) {
        Some(end) => end,
        None => if epoch_duration > 0 {
            i64::MAX
        } else {
            i64::MIN
        },
    }
}

/// Tells whether the epoch has to be reset before a solution is sent.
pub fn needs_reset(epoch_start_at: i64, timestamp: i64, epoch_duration: i64) -> (reset: bool)
    ensures
        reset == spec_needs_reset(epoch_start_at, timestamp, epoch_duration),
{
    timestamp >= epoch_end(epoch_start_at, epoch_duration)
}

/// Computes the bus to try after a rejection on `bus_id`.
pub fn next_bus(bus_id: usize, bus_count: usize) -> (next: usize)
    ensures
        next == spec_next_bus(bus_id, bus_count),
{
    if bus_id < usize::MAX && bus_id + 1 < bus_count {
        bus_id + 1
    } else {
        0
    }
}

/// Reads `ore::EPOCH_DURATION`, the length of an epoch of the Ore program in
/// seconds, which that crate fixes at 60.
#[verifier::external_body]
fn ore_epoch_duration() -> (seconds: i64)
    ensures
        seconds == 60,
{
    ore::EPOCH_DURATION
}

/// Reads `ore::BUS_COUNT`, the number of bus accounts of the Ore program, which
/// that crate fixes at 8.
#[verifier::external_body]
fn ore_bus_count() -> (count: usize)
    ensures
        count == 8,
{
    ore::BUS_COUNT
}

impl LedgerParams {
    /// The parameters of the Ore program: epochs of 60 seconds and 8 buses.
    pub fn ore() -> (params: LedgerParams)
        ensures
            params == (LedgerParams { epoch_duration: 60, bus_count: 8 }),
    {
        LedgerParams { epoch_duration: ore_epoch_duration(), bus_count: ore_bus_count() }
    }
}

impl Submission {
    /// Begins the submission of `solution`: on bus 0, with the ledger to be read.
    pub fn new(solution: WebworkerResponse) -> (state: Submission)
        ensures
            state == spec_start(solution),
    {
        Submission { solution, bus_id: 0, stage: SubmitStage::ReadingLedger }
    }

    /// The action that this state asks for.
    pub fn action(&self) -> (action: SubmitAction)
        ensures
            action == spec_action(*self),
    {
        match self.stage {
            SubmitStage::ReadingLedger => SubmitAction::ReadLedger,
            SubmitStage::Resetting => SubmitAction::SendReset,
            SubmitStage::Mining => SubmitAction::SendMine {
                bus_id: self.bus_id,
                hash: self.solution.hash,
                nonce: self.solution.nonce,
            },
            SubmitStage::Confirmed => SubmitAction::Finish,
            SubmitStage::Failed(error) => SubmitAction::Abort(error),
        }
    }

    /// The submission has ended, in `Confirmed` or in `Failed`.
    pub fn is_over(&self) -> (over: bool)
        ensures
            over == (self.stage is Confirmed || self.stage is Failed),
    {
        match self.stage {
            SubmitStage::Confirmed => true,
            SubmitStage::Failed(_) => true,
            _ => false,
        }
    }
}

/// Advances the submission `state` by the event `event`, and says what to do
/// next.
///
/// With the ledger read, the epoch is reset first where it is over, and the
/// solution is sent at once where it is not. A failed read and a failed reset
/// end the submission. A confirmed solution ends it well. A rejected solution
/// moves to the next bus and has the ledger read again, without limit.
pub fn submit_solution(state: Submission, event: SubmitEvent, params: &LedgerParams) -> (next: (
    Submission,
    SubmitAction,
))
    ensures
        next.0 == spec_step(state, event, *params),
        next.1 == spec_action(next.0),
{
    let stage = match (state.stage, event) {
        (SubmitStage::ReadingLedger, SubmitEvent::Ledger { epoch_start_at, timestamp }) => {
            if needs_reset(epoch_start_at, timestamp, params.epoch_duration) {
                SubmitStage::Resetting
            } else {
                SubmitStage::Mining
            }
        },
        (SubmitStage::ReadingLedger, SubmitEvent::ReadFailed) => SubmitStage::Failed(
            SubmitError::Gateway,
        ),
        (SubmitStage::Resetting, SubmitEvent::Confirmed) => SubmitStage::Mining,
        (SubmitStage::Resetting, SubmitEvent::Rejected) => SubmitStage::Failed(
            SubmitError::EpochReset,
        ),
        (SubmitStage::Mining, SubmitEvent::Confirmed) => SubmitStage::Confirmed,
        (SubmitStage::Mining, SubmitEvent::Rejected) => SubmitStage::ReadingLedger,
        (stage, _) => stage,
    };
    let bus_id = match (state.stage, event) {
        (SubmitStage::Mining, SubmitEvent::Rejected) => next_bus(state.bus_id, params.bus_count),
        _ => state.bus_id,
    };
    let after = Submission { solution: state.solution, bus_id, stage };
    let action = after.action();
    (after, action)
}

/// The state reached from `state` by the events `events`, in order.
pub open spec fn spec_run(state: Submission, events: Seq<SubmitEvent>, params: LedgerParams) -> Submission
    decreases events.len(),
{
    if events.len() == 0 {
        state
    } else {
        spec_run(spec_step(state, events[0], params), events.drop_first(), params)
    }
}

/// The number of times that a solution is rejected while `events` are applied
/// from `state` on.
pub open spec fn spec_rejections(state: Submission, events: Seq<SubmitEvent>, params: LedgerParams) -> nat
    decreases events.len(),
{
    if events.len() == 0 {
        0
    } else {
        let rejected: nat = if state.stage is Mining && events[0] is Rejected {
            1
        } else {
            0
        };
        rejected + spec_rejections(spec_step(state, events[0], params), events.drop_first(), params)
    }
}

/// Among `bus_count` buses, the bus after `bus_id` is `bus_id + 1` modulo
/// `bus_count`.
pub proof fn lemma_next_bus_is_modular(bus_id: usize, bus_count: usize)
    requires
        bus_id < bus_count,
    ensures
        spec_next_bus(bus_id, bus_count) == (bus_id + 1) % (bus_count as int),
{
    if bus_id + 1 < bus_count {
        lemma_small_mod((bus_id + 1) as nat, bus_count as nat);
    } else {
        assert((bus_id + 1) % (bus_count as int) == 0) by (nonlinear_arith)
            requires
                bus_id + 1 == bus_count,
                bus_count > 0,
        ;
    }
}

/// The buses are taken in a cycle: whatever happens to a submission, its bus
/// is the one it had, moved on by the number of rejected solutions, modulo the
/// number of buses. A submission that starts on bus 0 is on bus `k % bus_count`
/// after `k` rejections: it passes through every bus and comes back to 0. The
/// solution itself never changes.
pub proof fn lemma_bus_rotation(state: Submission, events: Seq<SubmitEvent>, params: LedgerParams)
    requires
        state.bus_id < params.bus_count,
    ensures
        spec_run(state, events, params).bus_id == (state.bus_id + spec_rejections(
            state,
            events,
            params,
        )) % (params.bus_count as int),
        spec_run(state, events, params).solution == state.solution,
    decreases events.len(),
{
    let n = params.bus_count as int;
    if events.len() == 0 {
        lemma_small_mod(state.bus_id as nat, params.bus_count as nat);
    } else {
        let after = spec_step(state, events[0], params);
        let rest = events.drop_first();
        let later = spec_rejections(after, rest, params);
        lemma_next_bus_is_modular(state.bus_id, params.bus_count);
        assert(after.bus_id < params.bus_count);
        lemma_bus_rotation(after, rest, params);
        if state.stage is Mining && events[0] is Rejected {
            lemma_add_mod_noop(state.bus_id + 1, later as int, n);
            lemma_mod_twice(later as int, n);
            lemma_add_mod_noop(after.bus_id as int, later as int, n);
            lemma_mod_twice(state.bus_id + 1, n);
        }
    }
}

/// A submission that has ended stays as it is: once the solution is confirmed,
/// or the submission given up, no event changes the state or the action asked
/// for.
pub proof fn lemma_ended_submission_is_final(
    state: Submission,
    events: Seq<SubmitEvent>,
    params: LedgerParams,
)
    requires
        state.stage is Confirmed || state.stage is Failed,
    ensures
        spec_run(state, events, params) == state,
    decreases events.len(),
{
    if events.len() > 0 {
        lemma_ended_submission_is_final(state, events.drop_first(), params);
    }
}

/// The reset comes before the solution: with the ledger read, and the end of
/// the epoch within the range of timestamps, the state that follows asks for
/// the reset exactly where the clock has reached
/// `epoch_start_at + epoch_duration`, and for the solution on the current bus
/// otherwise.
pub proof fn lemma_reset_comes_first(
    state: Submission,
    epoch_start_at: i64,
    timestamp: i64,
    params: LedgerParams,
)
    requires
        state.stage is ReadingLedger,
        i64::MIN <= epoch_start_at + params.epoch_duration <= i64::MAX,
    ensures
        ({
            let after = spec_step(
                state,
                SubmitEvent::Ledger { epoch_start_at, timestamp },
                params,
            );
            let over = timestamp >= epoch_start_at + params.epoch_duration;
            &&& over ==> spec_action(after) == SubmitAction::SendReset
            &&& !over ==> spec_action(after) == (SubmitAction::SendMine {
                bus_id: state.bus_id,
                hash: state.solution.hash,
                nonce: state.solution.nonce,
            })
        }),
{
}

} // verus!

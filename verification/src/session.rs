//! The controller of a mining session: it decides whether a balance allows
//! mining, has the miner's accounts made ready, has the challenge fetched,
//! hands the search to the worker and the solution to the submission. The
//! caller does the work on the ledger and reports each outcome as an event.

use vstd::prelude::*;
use crate::search::{MineRequest, WebworkerResponse};

verus! {

/// Where a session stands.
#[derive(Debug, Clone, Copy, PartialEq, Eq)]
pub enum Session {
    /// Nothing is under way.
    Idle,
    /// The miner's token account is being made ready.
    CreatingTokenAccount,
    /// The miner is being registered.
    Registering,
    /// The treasury and the miner's proof are being read.
    FetchingChallenge,
    /// The worker is searching.
    Searching(MineRequest),
    /// The solution is being submitted.
    Submitting(WebworkerResponse),
}

/// The phase of a session, as an observer sees it.
#[derive(Debug, Clone, Copy, PartialEq, Eq)]
pub enum SessionPhase {
    Idle,
    Provisioning,
    Searching,
    Submitting,
}

/// What came of the work last asked for.
#[derive(Debug, Clone, Copy, PartialEq, Eq)]
pub enum SessionEvent {
    /// The token account exists.
    TokenAccountReady,
    /// The miner is registered.
    Registered,
    /// The treasury and the proof were read.
    Challenge { proof_hash: [u8; 32], difficulty: [u8; 32], pubkey: [u8; 32] },
    /// The ledger could not be read or written.
    GatewayFailed,
    /// The worker found a solution.
    Solution(WebworkerResponse),
    /// The worker was paused.
    Paused,
    /// The solution was accepted.
    Submitted,
    /// A new search is asked for, with the accounts as they are.
    Resume,
}

/// What the caller has to do for a session.
#[derive(Debug, Clone, Copy, PartialEq, Eq)]
pub enum SessionAction {
    /// Nothing.
    Rest,
    /// Make sure that the token account exists, and report `TokenAccountReady`.
    CreateTokenAccount,
    /// Make sure that the miner is registered, and report `Registered`.
    Register,
    /// Read the treasury and the proof, and report `Challenge`.
    FetchChallenge,
    /// Send the request to the worker, and report its `Solution`.
    Search(MineRequest),
    /// Submit the solution, and report `Submitted`.
    Submit(WebworkerResponse),
}

/// The least balance that allows mining: a hundredth of `one_unit`.
pub open spec fn spec_min_balance(one_unit: u64) -> u64 {
    one_unit / 100
}

/// The balance `balance` allows mining where a unit is worth `one_unit`: it is
/// not zero and not below the least balance.
pub open spec fn spec_is_eligible(balance: u64, one_unit: u64) -> bool {
    balance != 0 && balance >= spec_min_balance(one_unit)
}

/// The phase of the session `state`.
pub open spec fn spec_phase(state: Session) -> SessionPhase {
    match state {
        Session::Idle => SessionPhase::Idle,
        Session::CreatingTokenAccount => SessionPhase::Provisioning,
        Session::Registering => SessionPhase::Provisioning,
        Session::FetchingChallenge => SessionPhase::Provisioning,
        Session::Searching(_) => SessionPhase::Searching,
        Session::Submitting(_) => SessionPhase::Submitting,
    }
}

/// The work that the session `state` asks for.
pub open spec fn spec_session_action(state: Session) -> SessionAction {
    match state {
        Session::Idle => SessionAction::Rest,
        Session::CreatingTokenAccount => SessionAction::CreateTokenAccount,
        Session::Registering => SessionAction::Register,
        Session::FetchingChallenge => SessionAction::FetchChallenge,
        Session::Searching(request) => SessionAction::Search(request),
        Session::Submitting(solution) => SessionAction::Submit(solution),
    }
}

/// The session that follows `state` on `event`.
///
/// The accounts are made ready one after the other, then the challenge is
/// fetched and the search begins on it. A solution goes to submission. A
/// failure of the ledger ends whatever was waiting for the ledger. An event
/// that does not answer the work that `state` asks for changes nothing.
pub open spec fn spec_session_step(state: Session, event: SessionEvent) -> Session {
    match (state, event) {
        (Session::CreatingTokenAccount, SessionEvent::TokenAccountReady) => Session::Registering,
        (Session::Registering, SessionEvent::Registered) => Session::FetchingChallenge,
        (
            Session::FetchingChallenge,
            SessionEvent::Challenge { proof_hash, difficulty, pubkey },
        ) => Session::Searching(MineRequest { hash: proof_hash, difficulty, pubkey }),
        (Session::CreatingTokenAccount, SessionEvent::GatewayFailed) => Session::Idle,
        (Session::Registering, SessionEvent::GatewayFailed) => Session::Idle,
        (Session::FetchingChallenge, SessionEvent::GatewayFailed) => Session::Idle,
        (Session::Submitting(_), SessionEvent::GatewayFailed) => Session::Idle,
        (Session::Searching(_), SessionEvent::Solution(solution)) => Session::Submitting(solution),
        (Session::Searching(_), SessionEvent::Paused) => Session::Idle,
        (Session::Submitting(_), SessionEvent::Submitted) => Session::Idle,
        (Session::Idle, SessionEvent::Resume) => Session::FetchingChallenge,
        _ => state,
    }
}

/// The words in which the session `state` tells an observer what it has begun,
/// where it has any.
pub open spec fn spec_status_message(state: Session) -> Option<Seq<char>> {
    match state {
        Session::CreatingTokenAccount => Some("Checking ..."@),
        Session::Registering => Some("Putting on hardhat..."@),
        Session::Searching(_) => Some("Searching for a valid hash..."@),
        _ => None,
    }
}

/// Reads `solana_sdk::native_token::LAMPORTS_PER_SOL`, the number of lamports
/// in one SOL, which that crate fixes at one billion.
#[verifier::external_body]
fn lamports_per_sol() -> (lamports: u64)
    ensures
        lamports == 1_000_000_000,
{
    solana_sdk::native_token::LAMPORTS_PER_SOL
}

/// The least balance that allows mining, in lamports: a hundredth of one SOL.
pub fn min_balance() -> (lamports: u64)
    ensures
        lamports == spec_min_balance(1_000_000_000),
        lamports == 10_000_000,
{
    lamports_per_sol() / 100
}

/// Tells whether `balance`, in lamports, allows mining.
pub fn is_eligible(balance: u64) -> (eligible: bool)
    ensures
        eligible == spec_is_eligible(balance, 1_000_000_000),
        eligible == (balance >= 10_000_000),
{
    balance != 0 && balance >= min_balance()
}

/// Starts a session for a miner with the balance `balance`, in lamports.
///
/// A balance that does not allow mining changes nothing, and `false` comes
/// back. With any other balance the session starts over, whatever it was
/// doing, by making the token account ready, and `true` comes back.
pub fn try_start_mining(session: &mut Session, balance: u64) -> (started: bool)
    ensures
        started == spec_is_eligible(balance, 1_000_000_000),
        started ==> *final(session) == Session::CreatingTokenAccount,
        !started ==> *final(session) == *old(session),
{
    if is_eligible(balance) {
        *session = Session::CreatingTokenAccount;
        true
    } else {
        false
    }
}

impl Session {
    /// A session in which nothing is under way.
    pub fn new() -> (state: Session)
        ensures
            state == Session::Idle,
    {
        Session::Idle
    }

    /// The phase of this session.
    pub fn phase(&self) -> (phase: SessionPhase)
        ensures
            phase == spec_phase(*self),
    {
        match self {
            Session::Idle => SessionPhase::Idle,
            Session::CreatingTokenAccount => SessionPhase::Provisioning,
            Session::Registering => SessionPhase::Provisioning,
            Session::FetchingChallenge => SessionPhase::Provisioning,
            Session::Searching(_) => SessionPhase::Searching,
            Session::Submitting(_) => SessionPhase::Submitting,
        }
    }

    /// The work that this session asks for.
    pub fn action(&self) -> (action: SessionAction)
        ensures
            action == spec_session_action(*self),
    {
        match self {
            Session::Idle => SessionAction::Rest,
            Session::CreatingTokenAccount => SessionAction::CreateTokenAccount,
            Session::Registering => SessionAction::Register,
            Session::FetchingChallenge => SessionAction::FetchChallenge,
            Session::Searching(request) => SessionAction::Search(*request),
            Session::Submitting(solution) => SessionAction::Submit(*solution),
        }
    }

    /// Takes the event `event`, and says what to do next.
    pub fn step(&mut self, event: SessionEvent) -> (action: SessionAction)
        ensures
            *final(self) == spec_session_step(*old(self), event),
            action == spec_session_action(*final(self)),
    {
        let next = match (*self, event) {
            (Session::CreatingTokenAccount, SessionEvent::TokenAccountReady) => Session::Registering,
            (Session::Registering, SessionEvent::Registered) => Session::FetchingChallenge,
            (
                Session::FetchingChallenge,
                SessionEvent::Challenge { proof_hash, difficulty, pubkey },
            ) => Session::Searching(MineRequest { hash: proof_hash, difficulty, pubkey }),
            (Session::CreatingTokenAccount, SessionEvent::GatewayFailed) => Session::Idle,
            (Session::Registering, SessionEvent::GatewayFailed) => Session::Idle,
            (Session::FetchingChallenge, SessionEvent::GatewayFailed) => Session::Idle,
            (Session::Submitting(_), SessionEvent::GatewayFailed) => Session::Idle,
            (Session::Searching(_), SessionEvent::Solution(solution)) => Session::Submitting(
                solution,
            ),
            (Session::Searching(_), SessionEvent::Paused) => Session::Idle,
            (Session::Submitting(_), SessionEvent::Submitted) => Session::Idle,
            (Session::Idle, SessionEvent::Resume) => Session::FetchingChallenge,
            (state, _) => state,
        };
        *self = next;
        self.action()
    }

    /// The words that tell an observer what this session has begun. Where it
    /// has none, what was shown before stays.
    pub fn status_message(&self) -> (message: Option<&'static str>)
        ensures
            match message {
                Some(text) => spec_status_message(*self) == Some(text@),
                None => spec_status_message(*self) is None,
            },
    {
        match self {
            Session::CreatingTokenAccount => Some("Checking ..."),
            Session::Registering => Some("Putting on hardhat..."),
            Session::Searching(_) => Some("Searching for a valid hash..."),
            _ => None,
        }
    }

    /// Tells whether a search is under way, for whoever shows it.
    pub fn is_grinding(&self) -> (grinding: bool)
        ensures
            grinding == self is Searching,
    {
        match self {
            Session::Searching(_) => true,
            _ => false,
        }
    }
}

} // verus!

use miner_core::search::{MineRequest, WebworkerResponse};
use miner_core::session::{
    is_eligible, min_balance, try_start_mining, Session, SessionAction, SessionEvent, SessionPhase,
};

fn challenge_event() -> SessionEvent {
    SessionEvent::Challenge { proof_hash: [1; 32], difficulty: [2; 32], pubkey: [3; 32] }
}

fn request() -> MineRequest {
    MineRequest { hash: [1; 32], difficulty: [2; 32], pubkey: [3; 32] }
}

fn solution() -> WebworkerResponse {
    WebworkerResponse { hash: [4; 32], nonce: 77 }
}

#[test]
fn min_balance_is_a_hundredth_of_a_unit() {
    assert_eq!(min_balance(), 10_000_000);
    assert_eq!(min_balance(), solana_sdk::native_token::LAMPORTS_PER_SOL / 100);
}

#[test]
fn eligibility_threshold() {
    assert!(!is_eligible(0));
    assert!(!is_eligible(1));
    assert!(!is_eligible(500_000));
    assert!(!is_eligible(9_999_999));
    assert!(is_eligible(10_000_000));
    assert!(is_eligible(10_000_001));
    assert!(is_eligible(50_000_000));
    assert!(is_eligible(u64::MAX));
}

#[test]
fn zero_balance_does_not_start() {
    let mut session = Session::new();
    assert!(!try_start_mining(&mut session, 0));
    assert_eq!(session, Session::Idle);
    assert_eq!(session.action(), SessionAction::Rest);
}

#[test]
fn balance_below_minimum_does_not_start() {
    let mut session = Session::new();
    assert!(!try_start_mining(&mut session, 500_000));
    assert_eq!(session, Session::Idle);
    assert_eq!(session.action(), SessionAction::Rest);
}

#[test]
fn refused_start_leaves_a_running_session_alone() {
    let mut session = Session::Searching(request());
    assert!(!try_start_mining(&mut session, 9_999_999));
    assert_eq!(session, Session::Searching(request()));
}

#[test]
fn sufficient_balance_starts_provisioning() {
    let mut session = Session::new();
    assert!(try_start_mining(&mut session, 50_000_000));
    assert_eq!(session, Session::CreatingTokenAccount);
    assert_eq!(session.phase(), SessionPhase::Provisioning);
    assert_eq!(session.action(), SessionAction::CreateTokenAccount);
}

#[test]
fn provisioning_leads_to_the_search() {
    let mut session = Session::new();
    assert!(try_start_mining(&mut session, 50_000_000));
    assert_eq!(session.status_message(), Some("Checking ..."));
    assert!(!session.is_grinding());

    assert_eq!(session.step(SessionEvent::TokenAccountReady), SessionAction::Register);
    assert_eq!(session, Session::Registering);
    assert_eq!(session.status_message(), Some("Putting on hardhat..."));

    assert_eq!(session.step(SessionEvent::Registered), SessionAction::FetchChallenge);
    assert_eq!(session, Session::FetchingChallenge);
    assert_eq!(session.phase(), SessionPhase::Provisioning);
    assert_eq!(session.status_message(), None);

    assert_eq!(session.step(challenge_event()), SessionAction::Search(request()));
    assert_eq!(session, Session::Searching(request()));
    assert_eq!(session.phase(), SessionPhase::Searching);
    assert_eq!(session.status_message(), Some("Searching for a valid hash..."));
    assert!(session.is_grinding());
}

#[test]
fn solution_goes_to_submission_and_back_to_idle() {
    let mut session = Session::Searching(request());
    assert_eq!(session.step(SessionEvent::Solution(solution())), SessionAction::Submit(solution()));
    assert_eq!(session, Session::Submitting(solution()));
    assert_eq!(session.phase(), SessionPhase::Submitting);
    assert!(!session.is_grinding());
    assert_eq!(session.step(SessionEvent::Submitted), SessionAction::Rest);
    assert_eq!(session, Session::Idle);
    assert_eq!(session.phase(), SessionPhase::Idle);
}

#[test]
fn resume_fetches_a_new_challenge() {
    let mut session = Session::new();
    assert_eq!(session.step(SessionEvent::Resume), SessionAction::FetchChallenge);
    assert_eq!(session.step(challenge_event()), SessionAction::Search(request()));
}

#[test]
fn gateway_failure_ends_what_waits_for_the_ledger() {
    for state in [
        Session::CreatingTokenAccount,
        Session::Registering,
        Session::FetchingChallenge,
        Session::Submitting(solution()),
    ] {
        let mut session = state;
        assert_eq!(session.step(SessionEvent::GatewayFailed), SessionAction::Rest);
        assert_eq!(session, Session::Idle);
    }
    let mut searching = Session::Searching(request());
    assert_eq!(searching.step(SessionEvent::GatewayFailed), SessionAction::Search(request()));
    assert_eq!(searching, Session::Searching(request()));
}

#[test]
fn pause_ends_the_search() {
    let mut session = Session::Searching(request());
    assert_eq!(session.step(SessionEvent::Paused), SessionAction::Rest);
    assert_eq!(session, Session::Idle);
}

#[test]
fn event_out_of_turn_changes_nothing() {
    let mut session = Session::new();
    assert_eq!(session.step(SessionEvent::Registered), SessionAction::Rest);
    assert_eq!(session.step(challenge_event()), SessionAction::Rest);
    assert_eq!(session.step(SessionEvent::Solution(solution())), SessionAction::Rest);
    assert_eq!(session, Session::Idle);

    let mut creating = Session::CreatingTokenAccount;
    assert_eq!(creating.step(SessionEvent::Registered), SessionAction::CreateTokenAccount);
    assert_eq!(creating.step(SessionEvent::Resume), SessionAction::CreateTokenAccount);
    assert_eq!(creating, Session::CreatingTokenAccount);
}

#[test]
fn restart_begins_with_the_token_account() {
    let mut session = Session::Submitting(solution());
    assert!(try_start_mining(&mut session, 10_000_000));
    assert_eq!(session, Session::CreatingTokenAccount);
}

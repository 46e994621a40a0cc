use pd::abci::{Event, ValidatorUpdate};
use pd::consensus::{
    outcome_fits_request, ConsensusRequest, ConsensusResponse, Fatal, Outcome, Phase, Worker, APP_HASH_LEN,
    CODE_OK, CODE_TX_FAILED, UNINITIALIZED_VERSION,
};

type Request = ConsensusRequest<Vec<u8>>;
type Response = ConsensusResponse<Vec<u8>>;

fn genesis() -> Request {
    ConsensusRequest::InitChain { app_state_bytes: b"{}".to_vec(), consensus_params: vec![4, 2] }
}

fn validators() -> Vec<ValidatorUpdate> {
    vec![ValidatorUpdate { pub_key: vec![1, 2, 3], power: 10 }]
}

fn event(kind: &str) -> Event {
    Event::new(kind.to_string(), vec![])
}

fn phase_of(r: &Response) -> Phase {
    match r {
        ConsensusResponse::InitChain { .. } => Phase::InitChain,
        ConsensusResponse::BeginBlock { .. } => Phase::BeginBlock,
        ConsensusResponse::DeliverTx { .. } => Phase::DeliverTx,
        ConsensusResponse::EndBlock { .. } => Phase::EndBlock,
        ConsensusResponse::Commit { .. } => Phase::Commit,
    }
}

#[test]
fn fresh_store_is_uninitialized() {
    let w = Worker::new(UNINITIALIZED_VERSION);
    assert!(!w.is_initialized());
    let w = Worker::new(5);
    assert!(w.is_initialized());
    assert_eq!(w.version(), 5);
}

#[test]
fn requests_are_answered_in_order_with_matching_phases() {
    let mut w = Worker::new(UNINITIALIZED_VERSION);
    let requests: Vec<Request> = vec![
        genesis(),
        ConsensusRequest::BeginBlock { height: 1 },
        ConsensusRequest::DeliverTx { tx: vec![1] },
        ConsensusRequest::DeliverTx { tx: vec![2] },
        ConsensusRequest::EndBlock,
        ConsensusRequest::Commit,
    ];
    let outcomes = vec![
        Outcome::Genesis { validators: validators() },
        Outcome::BlockBegun { events: vec![event("begin")] },
        Outcome::TxApplied { result: Ok(vec![event("tx")]) },
        Outcome::TxApplied { result: Err("bad signature".to_string()) },
        Outcome::BlockEnded { events: vec![], validators: validators() },
        Outcome::Committed { app_hash: vec![7; 32] },
    ];
    let expected = [
        Phase::InitChain,
        Phase::BeginBlock,
        Phase::DeliverTx,
        Phase::DeliverTx,
        Phase::EndBlock,
        Phase::Commit,
    ];
    let n = requests.len();
    let mut responses = Vec::new();
    for (req, out) in requests.into_iter().zip(outcomes.into_iter()) {
        assert_eq!(w.check_request(&req), Ok(()));
        responses.push(w.respond(req, out).expect("no fatal error"));
    }
    assert_eq!(responses.len(), n);
    for (r, p) in responses.iter().zip(expected.iter()) {
        assert_eq!(phase_of(r), *p);
    }
}

#[test]
fn second_genesis_is_fatal() {
    let mut w = Worker::new(UNINITIALIZED_VERSION);
    assert!(w.respond(genesis(), Outcome::Genesis { validators: vec![] }).is_ok());
    assert_eq!(w.check_request(&genesis()), Err(Fatal::AlreadyInitialized));
    let again = w.respond(genesis(), Outcome::Genesis { validators: vec![] });
    assert!(matches!(again, Err(Fatal::AlreadyInitialized)));
}

#[test]
fn genesis_on_a_committed_store_is_fatal() {
    let w = Worker::new(0);
    assert_eq!(w.check_request(&genesis()), Err(Fatal::AlreadyInitialized));
    assert_eq!(w.check_request(&Request::Commit), Ok(()));
}

#[test]
fn genesis_answer_has_placeholder_hash() {
    let mut w = Worker::new(UNINITIALIZED_VERSION);
    match w.respond(genesis(), Outcome::Genesis { validators: validators() }) {
        Ok(ConsensusResponse::InitChain { consensus_params, validators, app_hash }) => {
            assert_eq!(consensus_params, Some(vec![4, 2]));
            assert_eq!(app_hash, vec![255u8; 32]);
            assert_eq!(app_hash.len(), APP_HASH_LEN);
            assert_eq!(validators.len(), 1);
            assert_eq!(validators[0].power, 10);
        }
        _ => panic!("expected an InitChain response"),
    }
    assert!(w.is_initialized());
    assert_eq!(w.version(), UNINITIALIZED_VERSION);
}

#[test]
fn failed_transaction_is_reported_not_fatal() {
    let mut w = Worker::new(3);
    let req = || Request::DeliverTx { tx: vec![0xde, 0xad] };
    let out = Outcome::TxApplied { result: Err("invalid: balance: not enough funds".to_string()) };
    match w.respond(req(), out) {
        Ok(ConsensusResponse::DeliverTx { code, log, events }) => {
            assert_eq!(code, CODE_TX_FAILED);
            assert_eq!(code, 1);
            assert_eq!(log, "invalid: balance: not enough funds");
            assert!(events.is_empty());
        }
        _ => panic!("expected a DeliverTx response"),
    }
    let out = Outcome::TxApplied { result: Ok(vec![event("a"), event("b")]) };
    match w.respond(req(), out) {
        Ok(ConsensusResponse::DeliverTx { code, log, events }) => {
            assert_eq!(code, CODE_OK);
            assert_eq!(log, "");
            assert_eq!(events.len(), 2);
            assert_eq!(events[1].kind, "b");
        }
        _ => panic!("expected a DeliverTx response"),
    }
}

#[test]
fn failed_phases_are_fatal() {
    let mut w = Worker::new(3);
    let r = w.respond(Request::BeginBlock { height: 4 }, Outcome::Failed);
    assert!(matches!(r, Err(Fatal::PhaseFailed(Phase::BeginBlock))));
    let r = w.respond(Request::EndBlock, Outcome::Failed);
    assert!(matches!(r, Err(Fatal::PhaseFailed(Phase::EndBlock))));
    let r = w.respond(Request::Commit, Outcome::Failed);
    assert!(matches!(r, Err(Fatal::PhaseFailed(Phase::Commit))));
    assert_eq!(w.version(), 3);
}

#[test]
fn commit_advances_the_version_by_one() {
    let mut w = Worker::new(UNINITIALIZED_VERSION);
    let r = w.respond(Request::Commit, Outcome::Committed { app_hash: vec![9, 9] });
    match r {
        Ok(ConsensusResponse::Commit { data, retain_height }) => {
            assert_eq!(data, vec![9, 9]);
            assert_eq!(retain_height, 0);
        }
        _ => panic!("expected a Commit response"),
    }
    assert_eq!(w.version(), 0);
    assert!(w.is_initialized());
    let _ = w.respond(Request::Commit, Outcome::Committed { app_hash: vec![] });
    assert_eq!(w.version(), 1);
}

#[test]
fn end_block_carries_validator_set() {
    let mut w = Worker::new(1);
    let r = w.respond(
        Request::EndBlock,
        Outcome::BlockEnded { events: vec![event("e")], validators: validators() },
    );
    match r {
        Ok(ConsensusResponse::EndBlock { validator_updates, events }) => {
            assert_eq!(validator_updates.len(), 1);
            assert_eq!(validator_updates[0].pub_key, vec![1, 2, 3]);
            assert_eq!(events[0].kind, "e");
        }
        _ => panic!("expected an EndBlock response"),
    }
}

#[test]
fn outcomes_fit_their_phases() {
    let commit = Request::Commit;
    let tx = Request::DeliverTx { tx: vec![] };
    assert_eq!(commit.phase(), Phase::Commit);
    assert!(outcome_fits_request(&commit, &Outcome::Committed { app_hash: vec![] }));
    assert!(outcome_fits_request(&commit, &Outcome::Failed));
    assert!(!outcome_fits_request(&tx, &Outcome::Failed));
    assert!(!outcome_fits_request(&tx, &Outcome::BlockBegun { events: vec![] }));
    assert!(outcome_fits_request(&tx, &Outcome::TxApplied { result: Ok(vec![]) }));
}

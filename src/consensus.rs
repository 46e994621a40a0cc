//! The consensus driver.
//!
//! Requests from the consensus engine are served one at a time, in the order
//! they arrive. For each request the driver first decides whether it may be
//! handed to the application state machine at all ([`Worker::check_request`]); once
//! the application has done its part, the driver turns the application's
//! [`Outcome`] into the engine's response, or into a [`Fatal`] error on which
//! the process must stop ([`Worker::respond`]).
use vstd::prelude::*;

use crate::abci::{Event, ValidatorUpdate};
use crate::metrics::wrapping_inc;

verus! {

/// The store's version before anything was ever committed.
pub const UNINITIALIZED_VERSION: u64 = 0xffff_ffff_ffff_ffff;

/// Length of the app hash that answers the genesis request.
pub const APP_HASH_LEN: usize = 32;

/// Each byte of the app hash that answers the genesis request: the real hash
/// exists only after the first commit.
pub const PLACEHOLDER_HASH_BYTE: u8 = 0xff;

/// Result code of a transaction that was applied.
pub const CODE_OK: u32 = 0;

/// Result code of a transaction that was rejected.
pub const CODE_TX_FAILED: u32 = 1;

/// The block-processing phases of the consensus protocol.
#[derive(Debug, Clone, Copy, PartialEq, Eq, Structural)]
pub enum Phase {
    InitChain,
    BeginBlock,
    DeliverTx,
    EndBlock,
    Commit,
}

/// A request from the consensus engine. `P` is the engine's consensus
/// parameters, which the driver carries through untouched.
pub enum ConsensusRequest<P> {
    /// Start the chain from the genesis application state.
    InitChain { app_state_bytes: Vec<u8>, consensus_params: P },
    /// A new block of this height starts.
    BeginBlock { height: u64 },
    /// Apply one transaction, as raw bytes.
    DeliverTx { tx: Vec<u8> },
    /// The block's transactions are all delivered.
    EndBlock,
    /// Persist the block.
    Commit,
}

/// What the application state machine produced for a request.
pub enum Outcome {
    /// Genesis was applied; the initial validator set.
    Genesis { validators: Vec<ValidatorUpdate> },
    /// The block was begun, emitting these events.
    BlockBegun { events: Vec<Event> },
    /// The transaction was applied (its events) or rejected (the full chain
    /// of causes, as text).
    TxApplied { result: Result<Vec<Event>, String> },
    /// The block was ended; its events and the complete validator set, taken
    /// after every power change of the block.
    BlockEnded { events: Vec<Event>, validators: Vec<ValidatorUpdate> },
    /// The state was committed under this app hash.
    Committed { app_hash: Vec<u8> },
    /// The phase's work failed.
    Failed,
}

/// The response to the consensus engine.
pub enum ConsensusResponse<P> {
    InitChain {
        consensus_params: Option<P>,
        validators: Vec<ValidatorUpdate>,
        app_hash: Vec<u8>,
    },
    BeginBlock { events: Vec<Event> },
    DeliverTx { code: u32, log: String, events: Vec<Event> },
    EndBlock { validator_updates: Vec<ValidatorUpdate>, events: Vec<Event> },
    Commit { data: Vec<u8>, retain_height: u64 },
}

/// A violation of the replicated state machine's invariants: the process
/// must stop rather than answer.
#[derive(Debug, Clone, Copy, PartialEq, Eq, Structural)]
pub enum Fatal {
    /// Genesis was asked for on a chain that already has state.
    AlreadyInitialized,
    /// The work of this phase failed.
    PhaseFailed(Phase),
}

pub open spec fn request_phase<P>(r: ConsensusRequest<P>) -> Phase {
    match r {
        ConsensusRequest::InitChain { .. } => Phase::InitChain,
        ConsensusRequest::BeginBlock { .. } => Phase::BeginBlock,
        ConsensusRequest::DeliverTx { .. } => Phase::DeliverTx,
        ConsensusRequest::EndBlock => Phase::EndBlock,
        ConsensusRequest::Commit => Phase::Commit,
    }
}

pub open spec fn response_phase<P>(r: ConsensusResponse<P>) -> Phase {
    match r {
        ConsensusResponse::InitChain { .. } => Phase::InitChain,
        ConsensusResponse::BeginBlock { .. } => Phase::BeginBlock,
        ConsensusResponse::DeliverTx { .. } => Phase::DeliverTx,
        ConsensusResponse::EndBlock { .. } => Phase::EndBlock,
        ConsensusResponse::Commit { .. } => Phase::Commit,
    }
}

/// Whether `o` is an outcome that the application can give for a request of
/// phase `p`. Only a transaction can fail without failing the phase.
pub open spec fn outcome_fits(p: Phase, o: Outcome) -> bool {
    match o {
        Outcome::Genesis { .. } => p == Phase::InitChain,
        Outcome::BlockBegun { .. } => p == Phase::BeginBlock,
        Outcome::TxApplied { .. } => p == Phase::DeliverTx,
        Outcome::BlockEnded { .. } => p == Phase::EndBlock,
        Outcome::Committed { .. } => p == Phase::Commit,
        Outcome::Failed => p != Phase::DeliverTx,
    }
}

/// The app hash that answers the genesis request.
pub open spec fn placeholder_app_hash() -> Seq<u8> {
    Seq::new(APP_HASH_LEN as nat, |i: int| PLACEHOLDER_HASH_BYTE)
}

/// Whether a request of phase `p` may go to the application.
pub open spec fn admitted(initialized: bool, p: Phase) -> Result<(), Fatal> {
    if p == Phase::InitChain && initialized {
        Err(Fatal::AlreadyInitialized)
    } else {
        Ok(())
    }
}

/// How a request of phase `p` ends, given the application's outcome: the
/// phase of its response, or the fatal error.
pub open spec fn verdict(initialized: bool, p: Phase, o: Outcome) -> Result<Phase, Fatal> {
    if admitted(initialized, p) is Err {
        Err(Fatal::AlreadyInitialized)
    } else if o is Failed {
        Err(Fatal::PhaseFailed(p))
    } else {
        Ok(p)
    }
}

/// Whether `resp` answers `request` with what the outcome `o` produced; the
/// answer to genesis also hands back the request's consensus parameters.
pub open spec fn response_carries<P>(
    request: ConsensusRequest<P>,
    o: Outcome,
    resp: ConsensusResponse<P>,
) -> bool {
    match o {
        Outcome::Genesis { validators } => match resp {
            ConsensusResponse::InitChain { consensus_params, validators: v, app_hash } => {
                &&& v@ == validators@
                &&& app_hash@ == placeholder_app_hash()
                &&& match request {
                    ConsensusRequest::InitChain { consensus_params: asked, .. } => consensus_params
                        == Some(asked),
                    _ => false,
                }
            },
            _ => false,
        },
        Outcome::BlockBegun { events } => match resp {
            ConsensusResponse::BeginBlock { events: e } => e@ == events@,
            _ => false,
        },
        Outcome::TxApplied { result } => match resp {
            ConsensusResponse::DeliverTx { code, log, events: e } => match result {
                Ok(events) => code == CODE_OK && log@.len() == 0 && e@ == events@,
                Err(cause) => code == CODE_TX_FAILED && log@ == cause@ && e@.len() == 0,
            },
            _ => false,
        },
        Outcome::BlockEnded { events, validators } => match resp {
            ConsensusResponse::EndBlock { validator_updates, events: e } => validator_updates@
                == validators@ && e@ == events@,
            _ => false,
        },
        Outcome::Committed { app_hash } => match resp {
            ConsensusResponse::Commit { data, retain_height } => data@ == app_hash@
                && retain_height == 0,
            _ => false,
        },
        Outcome::Failed => false,
    }
}

/// The driver's state, seen from outside.
pub struct WorkerView {
    /// Whether the chain has state, from an earlier genesis or commit.
    pub initialized: bool,
    /// The store's version, as the driver last left it.
    pub version: u64,
}

/// The state after a request of phase `p` was answered.
pub open spec fn after_answer(s: WorkerView, p: Phase) -> WorkerView {
    match p {
        Phase::InitChain => WorkerView { initialized: true, version: s.version },
        Phase::Commit => WorkerView { initialized: true, version: wrapping_inc(s.version) },
        _ => s,
    }
}

/// The single consumer of the consensus engine's requests.
pub struct Worker {
    initialized: bool,
    version: u64,
}

impl View for Worker {
    type V = WorkerView;

    closed spec fn view(&self) -> WorkerView {
        WorkerView { initialized: self.initialized, version: self.version }
    }
}

fn placeholder_hash() -> (r: Vec<u8>)
    ensures
        r@ == placeholder_app_hash(),
{
    let mut hash: Vec<u8> = Vec::new();
    while hash.len() < APP_HASH_LEN
        invariant
            hash.len() <= APP_HASH_LEN,
            hash@ == Seq::new(hash.len() as nat, |i: int| PLACEHOLDER_HASH_BYTE),
        decreases APP_HASH_LEN - hash.len(),
    {
        hash.push(PLACEHOLDER_HASH_BYTE);
        assert(hash@ =~= Seq::new(hash.len() as nat, |i: int| PLACEHOLDER_HASH_BYTE));
    }
    assert(hash@ =~= placeholder_app_hash());
    hash
}

impl<P> ConsensusRequest<P> {
    pub fn phase(&self) -> (r: Phase)
        ensures
            r == request_phase(*self),
    {
        match self {
            ConsensusRequest::InitChain { .. } => Phase::InitChain,
            ConsensusRequest::BeginBlock { .. } => Phase::BeginBlock,
            ConsensusRequest::DeliverTx { .. } => Phase::DeliverTx,
            ConsensusRequest::EndBlock => Phase::EndBlock,
            ConsensusRequest::Commit => Phase::Commit,
        }
    }
}

/// Whether `outcome` is one that the application can give for `request`.
pub fn outcome_fits_request<P>(request: &ConsensusRequest<P>, outcome: &Outcome) -> (r: bool)
    ensures
        r == outcome_fits(request_phase(*request), *outcome),
{
    let phase = request.phase();
    match outcome {
        Outcome::Genesis { .. } => phase == Phase::InitChain,
        Outcome::BlockBegun { .. } => phase == Phase::BeginBlock,
        Outcome::TxApplied { .. } => phase == Phase::DeliverTx,
        Outcome::BlockEnded { .. } => phase == Phase::EndBlock,
        Outcome::Committed { .. } => phase == Phase::Commit,
        Outcome::Failed => phase != Phase::DeliverTx,
    }
}

impl Worker {
    /// A driver over a store at `version`; the chain has state unless the
    /// store was never committed to.
    pub fn new(version: u64) -> (r: Worker)
        ensures
            r@.version == version,
            r@.initialized == (version != UNINITIALIZED_VERSION),
    {
        Worker { initialized: version != UNINITIALIZED_VERSION, version }
    }

    pub fn is_initialized(&self) -> (r: bool)
        ensures
            r == self@.initialized,
    {
        self.initialized
    }

    pub fn version(&self) -> (r: u64)
        ensures
            r == self@.version,
    {
        self.version
    }

    /// Decides, before any work, whether `request` may go to the application:
    /// a second genesis is fatal.
    pub fn check_request<P>(&self, request: &ConsensusRequest<P>) -> (r: Result<(), Fatal>)
        ensures
            r == admitted(self@.initialized, request_phase(*request)),
    {
        match request {
            ConsensusRequest::InitChain { .. } => if self.initialized {
                Err(Fatal::AlreadyInitialized)
            } else {
                Ok(())
            },
            _ => Ok(()),
        }
    }

    /// Answers `request` from the application's `outcome`. A rejected
    /// transaction is answered with a failure code and its causes; a failed
    /// phase, or a genesis on a chain with state, is fatal.
    pub fn respond<P>(&mut self, request: ConsensusRequest<P>, outcome: Outcome) -> (r: Result<
        ConsensusResponse<P>,
        Fatal,
    >)
        requires
            outcome_fits(request_phase(request), outcome),
        ensures
            match r {
                Ok(resp) => verdict(old(self)@.initialized, request_phase(request), outcome) == Ok::<
                    Phase,
                    Fatal,
                >(response_phase(resp)),
                Err(f) => verdict(old(self)@.initialized, request_phase(request), outcome) == Err::<
                    Phase,
                    Fatal,
                >(f),
            },
            r matches Ok(resp) ==> response_carries(request, outcome, resp),
            final(self)@ == (if r is Ok {
                after_answer(old(self)@, request_phase(request))
            } else {
                old(self)@
            }),
    {
        if let Err(f) = self.check_request(&request) {
            return Err(f);
        }
        let phase = request.phase();
        match outcome {
            Outcome::Genesis { validators } => match request {
                ConsensusRequest::InitChain { consensus_params, .. } => {
                    self.initialized = true;
                    Ok(
                        ConsensusResponse::InitChain {
                            consensus_params: Some(consensus_params),
                            validators,
                            app_hash: placeholder_hash(),
                        },
                    )
                },
                _ => Err(Fatal::PhaseFailed(phase)),
            },
            Outcome::BlockBegun { events } => Ok(ConsensusResponse::BeginBlock { events }),
            Outcome::TxApplied { result } => match result {
                Ok(events) => Ok(
                    ConsensusResponse::DeliverTx { code: CODE_OK, log: String::new(), events },
                ),
                Err(cause) => Ok(
                    ConsensusResponse::DeliverTx {
                        code: CODE_TX_FAILED,
                        log: cause,
                        events: Vec::new(),
                    },
                ),
            },
            Outcome::BlockEnded { events, validators } => Ok(
                ConsensusResponse::EndBlock { validator_updates: validators, events },
            ),
            Outcome::Committed { app_hash } => {
                self.initialized = true;
                self.version = self.version.wrapping_add(1);
                Ok(ConsensusResponse::Commit { data: app_hash, retain_height: 0 })
            },
            Outcome::Failed => Err(Fatal::PhaseFailed(phase)),
        }
    }
}

/// Requests of the phases `requests`, served in order from state `s`, with
/// the application's `outcomes`: the phases of the responses given, up to the
/// first fatal error, and that error if one came.
pub open spec fn serve_run(s: WorkerView, requests: Seq<Phase>, outcomes: Seq<Outcome>) -> (
    Seq<Phase>,
    Option<Fatal>,
)
    decreases requests.len(),
{
    if requests.len() == 0 || outcomes.len() == 0 {
        (Seq::empty(), None)
    } else {
        match verdict(s.initialized, requests[0], outcomes[0]) {
            Ok(p) => {
                let rest = serve_run(
                    after_answer(s, p),
                    requests.drop_first(),
                    outcomes.drop_first(),
                );
                (seq![p] + rest.0, rest.1)
            },
            Err(f) => (Seq::empty(), Some(f)),
        }
    }
}

/// Requests are answered one for one and in order. Served from any state,
/// with an outcome for each request, the responses' phases are the first
/// requests' phases in the same order; fewer responses than requests come
/// only when a fatal error stops the driver, and without one every request
/// has its response.
pub proof fn lemma_responses_follow_requests(
    s: WorkerView,
    requests: Seq<Phase>,
    outcomes: Seq<Outcome>,
)
    requires
        requests.len() == outcomes.len(),
        forall|i: int| 0 <= i < requests.len() ==> outcome_fits(#[trigger] requests[i], outcomes[i]),
    ensures
        serve_run(s, requests, outcomes).0 == requests.subrange(
            0,
            serve_run(s, requests, outcomes).0.len() as int,
        ),
        serve_run(s, requests, outcomes).0.len() <= requests.len(),
        serve_run(s, requests, outcomes).1 is None <==> serve_run(s, requests, outcomes).0
            == requests,
    decreases requests.len(),
{
    if requests.len() > 0 {
        let rest_r = requests.drop_first();
        let rest_o = outcomes.drop_first();
        match verdict(s.initialized, requests[0], outcomes[0]) {
            Ok(p) => {
                assert forall|i: int| 0 <= i < rest_r.len() implies outcome_fits(
                    #[trigger] rest_r[i],
                    rest_o[i],
                ) by {
                    assert(outcome_fits(requests[i + 1], outcomes[i + 1]));
                }
                lemma_responses_follow_requests(after_answer(s, p), rest_r, rest_o);
                let rest = serve_run(after_answer(s, p), rest_r, rest_o);
                assert(requests =~= seq![requests[0]] + rest_r);
                assert(seq![p] + rest.0 =~= requests.subrange(0, rest.0.len() + 1 as int));
                if rest.0 == rest_r {
                    assert(seq![p] + rest.0 =~= requests);
                }
                if seq![p] + rest.0 == requests {
                    assert(rest.0 =~= rest_r);
                }
            },
            Err(f) => {
                assert(serve_run(s, requests, outcomes).0.len() == 0);
                assert(serve_run(s, requests, outcomes).0 != requests);
            },
        }
    } else {
        assert(requests =~= Seq::<Phase>::empty());
    }
}

proof fn lemma_no_genesis_after_init(s: WorkerView, requests: Seq<Phase>, outcomes: Seq<Outcome>)
    requires
        s.initialized,
        requests.len() == outcomes.len(),
    ensures
        forall|k: int|
            0 <= k < serve_run(s, requests, outcomes).0.len() ==> #[trigger] requests[k]
                != Phase::InitChain,
        serve_run(s, requests, outcomes).0.len() < requests.len() && requests[serve_run(
            s,
            requests,
            outcomes,
        ).0.len() as int] == Phase::InitChain ==> serve_run(s, requests, outcomes).1 == Some(
            Fatal::AlreadyInitialized,
        ),
        serve_run(s, requests, outcomes).0.len() <= requests.len(),
    decreases requests.len(),
{
    if requests.len() > 0 {
        let rest_r = requests.drop_first();
        let rest_o = outcomes.drop_first();
        match verdict(s.initialized, requests[0], outcomes[0]) {
            Ok(p) => {
                lemma_no_genesis_after_init(after_answer(s, p), rest_r, rest_o);
                let rest = serve_run(after_answer(s, p), rest_r, rest_o);
                assert forall|k: int|
                    0 <= k < serve_run(s, requests, outcomes).0.len() implies #[trigger] requests[k]
                    != Phase::InitChain by {
                    if k > 0 {
                        assert(requests[k] == rest_r[k - 1]);
                    }
                }
            },
            Err(f) => {},
        }
    }
}

/// Genesis is applied at most once: of two genesis requests served in order,
/// the second is never answered, and if the driver reaches it, it stops there
/// with a fatal error.
pub proof fn lemma_second_genesis_is_fatal(
    s: WorkerView,
    requests: Seq<Phase>,
    outcomes: Seq<Outcome>,
    i: int,
    j: int,
)
    requires
        requests.len() == outcomes.len(),
        0 <= i < j < requests.len(),
        requests[i] == Phase::InitChain,
        requests[j] == Phase::InitChain,
    ensures
        serve_run(s, requests, outcomes).0.len() <= j,
        serve_run(s, requests, outcomes).0.len() == j ==> serve_run(s, requests, outcomes).1
            == Some(Fatal::AlreadyInitialized),
    decreases i,
{
    let rest_r = requests.drop_first();
    let rest_o = outcomes.drop_first();
    match verdict(s.initialized, requests[0], outcomes[0]) {
        Ok(p) => {
            let s1 = after_answer(s, p);
            let rest = serve_run(s1, rest_r, rest_o);
            if i == 0 {
                lemma_no_genesis_after_init(s1, rest_r, rest_o);
                assert(rest_r[j - 1] == Phase::InitChain);
                if rest.0.len() > j - 1 {
                    assert(rest_r[j - 1] != Phase::InitChain);
                }
            } else {
                lemma_second_genesis_is_fatal(s1, rest_r, rest_o, i - 1, j - 1);
            }
        },
        Err(f) => {},
    }
}

} // verus!

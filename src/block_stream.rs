//! The compact-block streaming service.
//!
//! Each subscription is served by a worker that replays committed blocks from
//! a start height up to a resolved end height, and then, if the client asked
//! to be kept alive, bridges to the head of the chain and follows every newly
//! committed block. The worker's decisions are the state machine below: the
//! caller performs each [`StreamAction`] against the store and the client
//! channel, and reports what happened as a [`StreamEvent`].
use vstd::prelude::*;

use crate::metrics::{saturating_inc, wrapping_dec, wrapping_inc, StreamMetrics};

verus! {

/// Capacity of the bounded buffer between a worker and its client.
pub const STREAM_BUFFER_CAPACITY: usize = 10;

/// A client's request for a range of compact blocks.
pub struct CompactBlockRangeRequest {
    /// The chain id that the client expects to talk to.
    pub chain_id: String,
    pub start_height: u64,
    /// Last height to replay; `0` stands for the current height.
    pub end_height: u64,
    /// Whether to keep streaming new blocks once the range is replayed.
    pub keep_alive: bool,
}

/// The chain id that a client named is not the node's.
#[derive(Debug, Clone, PartialEq, Eq)]
pub struct ChainIdMismatch {
    pub provided: String,
    pub expected: String,
}

/// Admits a request only when the chain id it names is the node's own.
pub fn check_chain_id(provided: &String, chain_id: &String) -> (r: Result<(), ChainIdMismatch>)
    ensures
        r is Ok <==> provided@ == chain_id@,
        r matches Err(e) ==> e.provided@ == provided@ && e.expected@ == chain_id@,
{
    if provided.eq(chain_id) {
        Ok(())
    } else {
        Err(ChainIdMismatch { provided: provided.clone(), expected: chain_id.clone() })
    }
}

/// The last height a subscription replays: the current height when none was
/// asked for, else the asked height, but never past the current height.
pub open spec fn resolved_end_height(end_height: u64, current_height: u64) -> u64 {
    if end_height == 0 {
        current_height
    } else if end_height < current_height {
        end_height
    } else {
        current_height
    }
}

pub fn resolve_end_height(end_height: u64, current_height: u64) -> (r: u64)
    ensures
        r == resolved_end_height(end_height, current_height),
{
    if end_height == 0 {
        current_height
    } else if end_height < current_height {
        end_height
    } else {
        current_height
    }
}

/// Where a subscription's worker stands.
#[derive(Debug, Clone, Copy, PartialEq, Eq, Structural)]
pub enum StreamPhase {
    /// Replaying the range read; the next item is awaited.
    CatchUp,
    /// A replayed block is being handed to the client.
    CatchUpSend { height: u64 },
    /// The replay is over; the head height is awaited.
    AwaitHead,
    /// Block `height` of the blocks committed during the replay, up to
    /// `head`, is being fetched and handed to the client.
    Bridge { height: u64, head: u64 },
    /// Every height up to `last` is dealt with; waiting for the store to
    /// announce a new height.
    Live { last: u64 },
    /// Block `height` of the blocks committed since the last one handed over,
    /// up to the announced height `head`, is being fetched and handed over.
    LiveSend { height: u64, head: u64 },
    /// The requested range was delivered and the stream ended.
    Done,
    /// The client went away.
    Closed,
    /// A storage read failed; the client was told.
    Failed,
    /// A block that must exist was not found.
    Aborted,
    /// The worker's task stopped between steps.
    Abandoned,
}

/// What the caller observed after performing the last action.
#[derive(Debug, Clone, Copy, PartialEq, Eq, Structural)]
pub enum StreamEvent {
    /// The range read yielded the block of this height.
    Block(u64),
    /// The range read is exhausted.
    RangeEnd,
    /// The height of the latest committed snapshot.
    Head(u64),
    /// The client's buffer accepted the block.
    Sent,
    /// The store announced that this height is the latest committed one.
    /// Announcements may be skipped: several commits can show as one.
    NewHeight(u64),
    /// The block that was asked for is not in the store.
    Missing,
    /// A storage read failed.
    StorageError,
    /// Handing a block to the client failed: the client is gone.
    Disconnected,
    /// The worker's task is stopping between steps, for instance unwinding
    /// from a panic.
    Interrupted,
}

/// What the caller is to do next.
#[derive(Debug, Clone, Copy, PartialEq, Eq, Structural)]
pub enum StreamAction {
    /// Start a height-ordered range read at this height and read its first item.
    OpenRange(u64),
    /// Read the next item of the range read.
    ReadRange,
    /// Hand the block just read, of this height, to the client.
    Send(u64),
    /// Read the head height, marking the current announcement as seen.
    ReadHead,
    /// Fetch the block of this height and hand it to the client.
    FetchAndSend(u64),
    /// Wait for the store to announce a committed height.
    AwaitHeight,
    /// End the stream without error.
    Finish,
    /// End the stream silently: the client is gone.
    Close,
    /// Report an internal error to the client and end the stream.
    Fail,
    /// Stop loudly: the store broke an invariant.
    Abort,
}

pub open spec fn is_terminal(p: StreamPhase) -> bool {
    match p {
        StreamPhase::Done | StreamPhase::Closed | StreamPhase::Failed | StreamPhase::Aborted
        | StreamPhase::Abandoned => true,
        _ => false,
    }
}

/// The events that a phase can be answered with. A running worker can always
/// be interrupted.
pub open spec fn accepts(p: StreamPhase, e: StreamEvent) -> bool {
    if e is Interrupted {
        !is_terminal(p)
    } else {
        match p {
            StreamPhase::CatchUp => match e {
                StreamEvent::Block(_) | StreamEvent::RangeEnd | StreamEvent::StorageError => true,
                _ => false,
            },
            StreamPhase::CatchUpSend { .. } => match e {
                StreamEvent::Sent | StreamEvent::Disconnected => true,
                _ => false,
            },
            StreamPhase::AwaitHead => e is Head,
            StreamPhase::Bridge { .. } | StreamPhase::LiveSend { .. } => match e {
                StreamEvent::Sent | StreamEvent::Missing | StreamEvent::StorageError
                | StreamEvent::Disconnected => true,
                _ => false,
            },
            StreamPhase::Live { .. } => e is NewHeight,
            _ => false,
        }
    }
}

/// What follows the end of the replay.
pub open spec fn after_catch_up(keep_alive: bool) -> (StreamPhase, StreamAction) {
    if keep_alive {
        (StreamPhase::AwaitHead, StreamAction::ReadHead)
    } else {
        (StreamPhase::Done, StreamAction::Finish)
    }
}

/// The worker's transition on an accepted event, for a subscription that
/// replays up to `end`. Once the replay is over, the worker sends every
/// height after the last one it dealt with, up to the latest height it
/// learned of, one by one: an announcement that skipped heights does not
/// make it skip blocks, and one it has already dealt with sends nothing.
pub open spec fn transition(end: u64, keep_alive: bool, p: StreamPhase, e: StreamEvent) -> (
    StreamPhase,
    StreamAction,
) {
    if e is Interrupted {
        (StreamPhase::Abandoned, StreamAction::Close)
    } else {
        match p {
            StreamPhase::CatchUp => match e {
                StreamEvent::Block(h) => if h <= end {
                    (StreamPhase::CatchUpSend { height: h }, StreamAction::Send(h))
                } else {
                    after_catch_up(keep_alive)
                },
                StreamEvent::RangeEnd => after_catch_up(keep_alive),
                _ => (StreamPhase::Failed, StreamAction::Fail),
            },
            StreamPhase::CatchUpSend { .. } => match e {
                StreamEvent::Sent => (StreamPhase::CatchUp, StreamAction::ReadRange),
                _ => (StreamPhase::Closed, StreamAction::Close),
            },
            StreamPhase::AwaitHead => match e {
                StreamEvent::Head(head) => if end < head {
                    (
                        StreamPhase::Bridge { height: (end + 1) as u64, head },
                        StreamAction::FetchAndSend((end + 1) as u64),
                    )
                } else {
                    (StreamPhase::Live { last: end }, StreamAction::AwaitHeight)
                },
                _ => (p, StreamAction::ReadHead),
            },
            StreamPhase::Bridge { height, head } => match e {
                StreamEvent::Sent => if height < head {
                    (
                        StreamPhase::Bridge { height: (height + 1) as u64, head },
                        StreamAction::FetchAndSend((height + 1) as u64),
                    )
                } else {
                    (StreamPhase::Live { last: height }, StreamAction::AwaitHeight)
                },
                StreamEvent::Disconnected => (StreamPhase::Closed, StreamAction::Close),
                _ => (StreamPhase::Aborted, StreamAction::Abort),
            },
            StreamPhase::Live { last } => match e {
                StreamEvent::NewHeight(h) => if last < h {
                    (
                        StreamPhase::LiveSend { height: (last + 1) as u64, head: h },
                        StreamAction::FetchAndSend((last + 1) as u64),
                    )
                } else {
                    (p, StreamAction::AwaitHeight)
                },
                _ => (p, StreamAction::AwaitHeight),
            },
            StreamPhase::LiveSend { height, head } => match e {
                StreamEvent::Sent => if height < head {
                    (
                        StreamPhase::LiveSend { height: (height + 1) as u64, head },
                        StreamAction::FetchAndSend((height + 1) as u64),
                    )
                } else {
                    (StreamPhase::Live { last: height }, StreamAction::AwaitHeight)
                },
                StreamEvent::Missing => (StreamPhase::Aborted, StreamAction::Abort),
                StreamEvent::StorageError => (StreamPhase::Failed, StreamAction::Fail),
                _ => (StreamPhase::Closed, StreamAction::Close),
            },
            _ => (p, StreamAction::Finish),
        }
    }
}

/// Marks a live stream worker in the active-connection gauge: made when the
/// worker starts, and given back, once, when it ends.
pub struct CompactBlockConnectionCounter {
    held: (),
}

impl CompactBlockConnectionCounter {
    pub fn new(metrics: &mut StreamMetrics) -> (r: CompactBlockConnectionCounter)
        ensures
            final(metrics).active_connections == wrapping_inc(old(metrics).active_connections),
            final(metrics).blocks_served == old(metrics).blocks_served,
    {
        metrics.increment_connections();
        CompactBlockConnectionCounter { held: () }
    }

    pub fn release(self, metrics: &mut StreamMetrics)
        ensures
            final(metrics).active_connections == wrapping_dec(old(metrics).active_connections),
            final(metrics).blocks_served == old(metrics).blocks_served,
    {
        metrics.decrement_connections();
    }
}

/// What a subscription's worker is, seen from outside.
pub struct StreamView {
    pub start_height: u64,
    /// The resolved last height of the replay.
    pub end_height: u64,
    pub keep_alive: bool,
    pub phase: StreamPhase,
}

/// The state of one subscription's worker.
pub struct BlockStream {
    start_height: u64,
    end_height: u64,
    keep_alive: bool,
    phase: StreamPhase,
    guard: Option<CompactBlockConnectionCounter>,
}

impl View for BlockStream {
    type V = StreamView;

    closed spec fn view(&self) -> StreamView {
        StreamView {
            start_height: self.start_height,
            end_height: self.end_height,
            keep_alive: self.keep_alive,
            phase: self.phase,
        }
    }
}

impl BlockStream {
    /// The worker holds its place in the gauge exactly while it runs.
    pub closed spec fn wf(&self) -> bool {
        self.guard is Some <==> !is_terminal(self.phase)
    }

    /// Opens a subscription on a node whose chain id is `chain_id` and whose
    /// current height is `current_height`. A request that names another chain
    /// is refused before anything is read; otherwise the worker starts, takes
    /// its place in the gauge, and first asks for the range read from the
    /// start height.
    pub fn open(
        request: &CompactBlockRangeRequest,
        chain_id: &String,
        current_height: u64,
        metrics: &mut StreamMetrics,
    ) -> (r: Result<(BlockStream, StreamAction), ChainIdMismatch>)
        ensures
            r is Ok <==> request.chain_id@ == chain_id@,
            r matches Err(e) ==> e.provided@ == request.chain_id@ && e.expected@ == chain_id@,
            r matches Err(_) ==> *final(metrics) == *old(metrics),
            r matches Ok((s, a)) ==> {
                &&& s.wf()
                &&& s@.start_height == request.start_height
                &&& s@.end_height == resolved_end_height(request.end_height, current_height)
                &&& s@.keep_alive == request.keep_alive
                &&& s@.phase == StreamPhase::CatchUp
                &&& a == StreamAction::OpenRange(request.start_height)
                &&& final(metrics).active_connections == wrapping_inc(
                    old(metrics).active_connections,
                )
                &&& final(metrics).blocks_served == old(metrics).blocks_served
            },
    {
        match check_chain_id(&request.chain_id, chain_id) {
            Err(e) => Err(e),
            Ok(()) => {
                let end_height = resolve_end_height(request.end_height, current_height);
                let guard = CompactBlockConnectionCounter::new(metrics);
                let s = BlockStream {
                    start_height: request.start_height,
                    end_height,
                    keep_alive: request.keep_alive,
                    phase: StreamPhase::CatchUp,
                    guard: Some(guard),
                };
                Ok((s, StreamAction::OpenRange(request.start_height)))
            },
        }
    }

    pub fn start_height(&self) -> (r: u64)
        ensures
            r == self@.start_height,
    {
        self.start_height
    }

    pub fn end_height(&self) -> (r: u64)
        ensures
            r == self@.end_height,
    {
        self.end_height
    }

    pub fn keep_alive(&self) -> (r: bool)
        ensures
            r == self@.keep_alive,
    {
        self.keep_alive
    }

    pub fn phase(&self) -> (r: StreamPhase)
        ensures
            r == self@.phase,
    {
        self.phase
    }

    pub fn is_finished(&self) -> (r: bool)
        ensures
            r == is_terminal(self@.phase),
    {
        match self.phase {
            StreamPhase::Done | StreamPhase::Closed | StreamPhase::Failed | StreamPhase::Aborted
            | StreamPhase::Abandoned => true,
            _ => false,
        }
    }

    /// Whether `event` is an answer that the current phase can take.
    pub fn accepts(&self, event: StreamEvent) -> (r: bool)
        ensures
            r == accepts(self@.phase, event),
    {
        if let StreamEvent::Interrupted = event {
            return !self.is_finished();
        }
        match self.phase {
            StreamPhase::CatchUp => match event {
                StreamEvent::Block(_) | StreamEvent::RangeEnd | StreamEvent::StorageError => true,
                _ => false,
            },
            StreamPhase::CatchUpSend { .. } => match event {
                StreamEvent::Sent | StreamEvent::Disconnected => true,
                _ => false,
            },
            StreamPhase::AwaitHead => match event {
                StreamEvent::Head(_) => true,
                _ => false,
            },
            StreamPhase::Bridge { .. } | StreamPhase::LiveSend { .. } => match event {
                StreamEvent::Sent | StreamEvent::Missing | StreamEvent::StorageError
                | StreamEvent::Disconnected => true,
                _ => false,
            },
            StreamPhase::Live { .. } => match event {
                StreamEvent::NewHeight(_) => true,
                _ => false,
            },
            _ => false,
        }
    }

    fn next(&self, event: StreamEvent) -> (r: (StreamPhase, StreamAction))
        requires
            accepts(self.phase, event),
        ensures
            r == transition(self.end_height, self.keep_alive, self.phase, event),
    {
        if let StreamEvent::Interrupted = event {
            return (StreamPhase::Abandoned, StreamAction::Close);
        }
        let finish_catch_up = if self.keep_alive {
            (StreamPhase::AwaitHead, StreamAction::ReadHead)
        } else {
            (StreamPhase::Done, StreamAction::Finish)
        };
        match self.phase {
            StreamPhase::CatchUp => match event {
                StreamEvent::Block(h) => if h <= self.end_height {
                    (StreamPhase::CatchUpSend { height: h }, StreamAction::Send(h))
                } else {
                    finish_catch_up
                },
                StreamEvent::RangeEnd => finish_catch_up,
                _ => (StreamPhase::Failed, StreamAction::Fail),
            },
            StreamPhase::CatchUpSend { .. } => match event {
                StreamEvent::Sent => (StreamPhase::CatchUp, StreamAction::ReadRange),
                _ => (StreamPhase::Closed, StreamAction::Close),
            },
            StreamPhase::AwaitHead => match event {
                StreamEvent::Head(head) => if self.end_height < head {
                    let first = self.end_height + 1;
                    (StreamPhase::Bridge { height: first, head }, StreamAction::FetchAndSend(first))
                } else {
                    (StreamPhase::Live { last: self.end_height }, StreamAction::AwaitHeight)
                },
                _ => (self.phase, StreamAction::ReadHead),
            },
            StreamPhase::Bridge { height, head } => match event {
                StreamEvent::Sent => if height < head {
                    let following = height + 1;
                    (
                        StreamPhase::Bridge { height: following, head },
                        StreamAction::FetchAndSend(following),
                    )
                } else {
                    (StreamPhase::Live { last: height }, StreamAction::AwaitHeight)
                },
                StreamEvent::Disconnected => (StreamPhase::Closed, StreamAction::Close),
                _ => (StreamPhase::Aborted, StreamAction::Abort),
            },
            StreamPhase::Live { last } => match event {
                StreamEvent::NewHeight(h) => if last < h {
                    let first = last + 1;
                    (
                        StreamPhase::LiveSend { height: first, head: h },
                        StreamAction::FetchAndSend(first),
                    )
                } else {
                    (self.phase, StreamAction::AwaitHeight)
                },
                _ => (self.phase, StreamAction::AwaitHeight),
            },
            StreamPhase::LiveSend { height, head } => match event {
                StreamEvent::Sent => if height < head {
                    let following = height + 1;
                    (
                        StreamPhase::LiveSend { height: following, head },
                        StreamAction::FetchAndSend(following),
                    )
                } else {
                    (StreamPhase::Live { last: height }, StreamAction::AwaitHeight)
                },
                StreamEvent::Missing => (StreamPhase::Aborted, StreamAction::Abort),
                StreamEvent::StorageError => (StreamPhase::Failed, StreamAction::Fail),
                _ => (StreamPhase::Closed, StreamAction::Close),
            },
            _ => (self.phase, StreamAction::Finish),
        }
    }

    /// Advances the worker on `event` and returns what to do next. Each block
    /// the client accepted is counted as served, and the worker gives back
    /// its place in the gauge on whichever step ends it.
    pub fn step(&mut self, event: StreamEvent, metrics: &mut StreamMetrics) -> (action:
        StreamAction)
        requires
            old(self).wf(),
            accepts(old(self)@.phase, event),
        ensures
            final(self).wf(),
            final(self)@.start_height == old(self)@.start_height,
            final(self)@.end_height == old(self)@.end_height,
            final(self)@.keep_alive == old(self)@.keep_alive,
            (final(self)@.phase, action) == transition(
                old(self)@.end_height,
                old(self)@.keep_alive,
                old(self)@.phase,
                event,
            ),
            final(metrics).active_connections == (if is_terminal(final(self)@.phase) {
                wrapping_dec(old(metrics).active_connections)
            } else {
                old(metrics).active_connections
            }),
            final(metrics).blocks_served == (if event == StreamEvent::Sent {
                saturating_inc(old(metrics).blocks_served)
            } else {
                old(metrics).blocks_served
            }),
    {
        let (phase, action) = self.next(event);
        if let StreamEvent::Sent = event {
            metrics.record_block_served();
        }
        self.phase = phase;
        if self.is_finished() {
            if let Some(guard) = self.guard.take() {
                guard.release(metrics);
            }
        }
        action
    }

    /// Ends a worker whose task is stopping between steps, whatever the
    /// reason, giving back its place in the gauge if it still held one. A
    /// worker that had already ended is left as it is.
    pub fn abandon(&mut self, metrics: &mut StreamMetrics)
        requires
            old(self).wf(),
        ensures
            final(self).wf(),
            is_terminal(final(self)@.phase),
            final(self)@.start_height == old(self)@.start_height,
            final(self)@.end_height == old(self)@.end_height,
            final(self)@.keep_alive == old(self)@.keep_alive,
            is_terminal(old(self)@.phase) ==> final(self)@ == old(self)@ && *final(metrics) == *old(
                metrics,
            ),
            !is_terminal(old(self)@.phase) ==> {
                &&& final(self)@.phase == transition(
                    old(self)@.end_height,
                    old(self)@.keep_alive,
                    old(self)@.phase,
                    StreamEvent::Interrupted,
                ).0
                &&& final(metrics).active_connections == wrapping_dec(
                    old(metrics).active_connections,
                )
                &&& final(metrics).blocks_served == old(metrics).blocks_served
            },
    {
        if !self.is_finished() {
            self.step(StreamEvent::Interrupted, metrics);
        }
    }
}

/// The phase reached from `p` after answering with each of `events` in turn.
pub open spec fn run_phase(end: u64, keep_alive: bool, p: StreamPhase, events: Seq<StreamEvent>) -> StreamPhase
    decreases events.len(),
{
    if events.len() == 0 {
        p
    } else {
        run_phase(end, keep_alive, transition(end, keep_alive, p, events[0]).0, events.drop_first())
    }
}

/// Whether each of `events` is one that the phase it arrives in accepts.
pub open spec fn run_accepted(end: u64, keep_alive: bool, p: StreamPhase, events: Seq<StreamEvent>) -> bool
    decreases events.len(),
{
    events.len() == 0 || {
        &&& accepts(p, events[0])
        &&& run_accepted(
            end,
            keep_alive,
            transition(end, keep_alive, p, events[0]).0,
            events.drop_first(),
        )
    }
}

/// The active-connection gauge after each of `events` is answered, starting
/// from `g`: a step that ends the worker takes one off.
pub open spec fn gauge_after(
    g: u64,
    end: u64,
    keep_alive: bool,
    p: StreamPhase,
    events: Seq<StreamEvent>,
) -> u64
    decreases events.len(),
{
    if events.len() == 0 {
        g
    } else {
        let q = transition(end, keep_alive, p, events[0]).0;
        let g1 = if is_terminal(q) {
            wrapping_dec(g)
        } else {
            g
        };
        gauge_after(g1, end, keep_alive, q, events.drop_first())
    }
}

proof fn lemma_gauge_after_run(
    g: u64,
    end: u64,
    keep_alive: bool,
    p: StreamPhase,
    events: Seq<StreamEvent>,
)
    requires
        !is_terminal(p),
        run_accepted(end, keep_alive, p, events),
    ensures
        gauge_after(g, end, keep_alive, p, events) == (if is_terminal(
            run_phase(end, keep_alive, p, events),
        ) {
            wrapping_dec(g)
        } else {
            g
        }),
    decreases events.len(),
{
    if events.len() > 0 {
        let q = transition(end, keep_alive, p, events[0]).0;
        let rest = events.drop_first();
        assert(run_accepted(end, keep_alive, q, rest));
        if is_terminal(q) {
            if rest.len() > 0 {
                assert(!accepts(q, rest[0]));
            }
            assert(rest.len() == 0);
            assert(run_phase(end, keep_alive, q, rest) == q);
            assert(gauge_after(wrapping_dec(g), end, keep_alive, q, rest) == wrapping_dec(g));
        } else {
            lemma_gauge_after_run(g, end, keep_alive, q, rest);
        }
    }
}

/// A worker leaves the active-connection gauge as it found it. Opening a
/// subscription at gauge value `g` raises the gauge by one; whichever way the
/// worker then ends (the range delivered, a storage failure, the client gone,
/// a block missing, or its task interrupted), once it has ended the gauge is
/// back at `g`.
pub proof fn lemma_gauge_restored(g: u64, end: u64, keep_alive: bool, events: Seq<StreamEvent>)
    requires
        run_accepted(end, keep_alive, StreamPhase::CatchUp, events),
        is_terminal(run_phase(end, keep_alive, StreamPhase::CatchUp, events)),
    ensures
        gauge_after(wrapping_inc(g), end, keep_alive, StreamPhase::CatchUp, events) == g,
{
    lemma_gauge_after_run(wrapping_inc(g), end, keep_alive, StreamPhase::CatchUp, events);
}

/// The height of the block that a phase is handing to the client, if any.
pub open spec fn sending(p: StreamPhase) -> Option<u64> {
    match p {
        StreamPhase::CatchUpSend { height } => Some(height),
        StreamPhase::Bridge { height, .. } => Some(height),
        StreamPhase::LiveSend { height, .. } => Some(height),
        _ => None,
    }
}

/// The heights of the blocks that the client accepted, in order, while
/// `events` were answered from phase `p`.
pub open spec fn delivered(end: u64, keep_alive: bool, p: StreamPhase, events: Seq<StreamEvent>) -> Seq<u64>
    decreases events.len(),
{
    if events.len() == 0 {
        Seq::empty()
    } else {
        let q = transition(end, keep_alive, p, events[0]).0;
        let rest = delivered(end, keep_alive, q, events.drop_first());
        match sending(p) {
            Some(h) => if events[0] == StreamEvent::Sent {
                seq![h] + rest
            } else {
                rest
            },
            None => rest,
        }
    }
}

/// The last height that the range read has yielded, after `e`.
pub open spec fn next_seen(e: StreamEvent, seen: int) -> int {
    match e {
        StreamEvent::Block(h) => h as int,
        _ => seen,
    }
}

/// Whether the range read yields rising heights, each above `seen`.
pub open spec fn range_in_order(
    end: u64,
    keep_alive: bool,
    p: StreamPhase,
    events: Seq<StreamEvent>,
    seen: int,
) -> bool
    decreases events.len(),
{
    events.len() == 0 || {
        &&& match events[0] {
            StreamEvent::Block(h) => h > seen,
            _ => true,
        }
        &&& range_in_order(
            end,
            keep_alive,
            transition(end, keep_alive, p, events[0]).0,
            events.drop_first(),
            next_seen(events[0], seen),
        )
    }
}

spec fn order_inv(end: u64, p: StreamPhase, seen: int, top: int) -> bool {
    match p {
        StreamPhase::CatchUp => top <= seen && top <= end,
        StreamPhase::CatchUpSend { height } => top < height && height == seen && height <= end,
        StreamPhase::AwaitHead => top <= end,
        StreamPhase::Bridge { height, head } => top < height && height <= head,
        StreamPhase::Live { last } => top <= last,
        StreamPhase::LiveSend { height, head } => top < height && height <= head,
        _ => true,
    }
}

proof fn lemma_delivered_above(
    end: u64,
    keep_alive: bool,
    p: StreamPhase,
    events: Seq<StreamEvent>,
    seen: int,
    top: int,
)
    requires
        order_inv(end, p, seen, top),
        run_accepted(end, keep_alive, p, events),
        range_in_order(end, keep_alive, p, events, seen),
    ensures
        forall|i: int|
            0 <= i < delivered(end, keep_alive, p, events).len() ==> top < #[trigger] delivered(
                end,
                keep_alive,
                p,
                events,
            )[i],
        forall|i: int, j: int|
            0 <= i < j < delivered(end, keep_alive, p, events).len() ==> #[trigger] delivered(
                end,
                keep_alive,
                p,
                events,
            )[i] < #[trigger] delivered(end, keep_alive, p, events)[j],
    decreases events.len(),
{
    if events.len() > 0 {
        let e = events[0];
        let q = transition(end, keep_alive, p, e).0;
        let rest = events.drop_first();
        let seen1 = next_seen(e, seen);
        let top1 = match sending(p) {
            Some(h) => if e == StreamEvent::Sent {
                h as int
            } else {
                top
            },
            None => top,
        };
        assert(order_inv(end, q, seen1, top1));
        lemma_delivered_above(end, keep_alive, q, rest, seen1, top1);
        let d = delivered(end, keep_alive, p, events);
        let dr = delivered(end, keep_alive, q, rest);
        if let Some(h) = sending(p) {
            if e == StreamEvent::Sent {
                assert(d == seq![h] + dr);
                assert forall|i: int, j: int| 0 <= i < j < d.len() implies #[trigger] d[i]
                    < #[trigger] d[j] by {
                    if i == 0 {
                        assert(d[j] == dr[j - 1]);
                    } else {
                        assert(d[i] == dr[i - 1] && d[j] == dr[j - 1]);
                    }
                }
                assert forall|i: int| 0 <= i < d.len() implies top < #[trigger] d[i] by {
                    if i > 0 {
                        assert(d[i] == dr[i - 1]);
                    }
                }
            }
        }
    }
}

/// Blocks reach a subscriber in strictly increasing height order, with no
/// height twice, whatever heights the store announces, provided its range
/// read yields rising heights.
pub proof fn lemma_delivered_heights_increase(
    end: u64,
    keep_alive: bool,
    events: Seq<StreamEvent>,
)
    requires
        run_accepted(end, keep_alive, StreamPhase::CatchUp, events),
        range_in_order(end, keep_alive, StreamPhase::CatchUp, events, -1),
    ensures
        forall|i: int, j: int|
            0 <= i < j < delivered(end, keep_alive, StreamPhase::CatchUp, events).len()
                ==> #[trigger] delivered(end, keep_alive, StreamPhase::CatchUp, events)[i]
                < #[trigger] delivered(end, keep_alive, StreamPhase::CatchUp, events)[j],
{
    lemma_delivered_above(end, keep_alive, StreamPhase::CatchUp, events, -1, -1);
}

/// Whether the range read leaves no height out: it yields one height after
/// another from the one after `seen`, and ends only once it has reached the
/// replay's end.
pub open spec fn range_contiguous(
    end: u64,
    keep_alive: bool,
    p: StreamPhase,
    events: Seq<StreamEvent>,
    seen: int,
) -> bool
    decreases events.len(),
{
    events.len() == 0 || {
        &&& match events[0] {
            StreamEvent::Block(h) => h == seen + 1,
            StreamEvent::RangeEnd => seen >= end,
            _ => true,
        }
        &&& range_contiguous(
            end,
            keep_alive,
            transition(end, keep_alive, p, events[0]).0,
            events.drop_first(),
            next_seen(events[0], seen),
        )
    }
}

spec fn gapless_inv(end: u64, p: StreamPhase, seen: int, top: int) -> bool {
    match p {
        StreamPhase::CatchUp => top == -1 || (top == seen && top <= end),
        StreamPhase::CatchUpSend { height } => height == seen && height <= end && (top == -1 || top
            == height - 1),
        StreamPhase::AwaitHead => top == -1 || top == end,
        StreamPhase::Bridge { height, head } => height <= head && (top == -1 || top == height - 1),
        StreamPhase::Live { last } => top == -1 || top == last,
        StreamPhase::LiveSend { height, head } => height <= head && (top == -1 || top == height
            - 1),
        _ => true,
    }
}

proof fn lemma_delivered_gapless(
    end: u64,
    keep_alive: bool,
    p: StreamPhase,
    events: Seq<StreamEvent>,
    seen: int,
    top: int,
)
    requires
        gapless_inv(end, p, seen, top),
        run_accepted(end, keep_alive, p, events),
        range_contiguous(end, keep_alive, p, events, seen),
    ensures
        top != -1 && delivered(end, keep_alive, p, events).len() > 0 ==> delivered(
            end,
            keep_alive,
            p,
            events,
        )[0] == top + 1,
        forall|i: int|
            0 <= i < delivered(end, keep_alive, p, events).len() - 1 ==> #[trigger] delivered(
                end,
                keep_alive,
                p,
                events,
            )[i + 1] == delivered(end, keep_alive, p, events)[i] + 1,
    decreases events.len(),
{
    if events.len() > 0 {
        let e = events[0];
        let q = transition(end, keep_alive, p, e).0;
        let rest = events.drop_first();
        let seen1 = next_seen(e, seen);
        let top1 = match sending(p) {
            Some(h) => if e == StreamEvent::Sent {
                h as int
            } else {
                top
            },
            None => top,
        };
        assert(gapless_inv(end, q, seen1, top1));
        lemma_delivered_gapless(end, keep_alive, q, rest, seen1, top1);
        let d = delivered(end, keep_alive, p, events);
        let dr = delivered(end, keep_alive, q, rest);
        if let Some(h) = sending(p) {
            if e == StreamEvent::Sent {
                assert(d == seq![h] + dr);
                assert forall|i: int| 0 <= i < d.len() - 1 implies #[trigger] d[i + 1] == d[i]
                    + 1 by {
                    assert(d[i + 1] == dr[i]);
                    if i > 0 {
                        assert(d[i] == dr[i - 1]);
                        let k = i - 1;
                        assert(dr[k + 1] == dr[k] + 1);
                    } else {
                        assert(top1 == h as int);
                        assert(dr.len() > 0);
                        assert(dr[0] == h + 1);
                    }
                }
            }
        }
    }
}

/// No height is skipped or repeated: when the range read leaves no height
/// out, the blocks that reach a subscriber are consecutive heights, each one
/// above the one before, whatever heights the store announces and however
/// many announcements it folds into one.
pub proof fn lemma_delivered_heights_consecutive(
    start: u64,
    end: u64,
    keep_alive: bool,
    events: Seq<StreamEvent>,
)
    requires
        run_accepted(end, keep_alive, StreamPhase::CatchUp, events),
        range_contiguous(end, keep_alive, StreamPhase::CatchUp, events, start - 1),
    ensures
        forall|i: int|
            0 <= i < delivered(end, keep_alive, StreamPhase::CatchUp, events).len() - 1
                ==> #[trigger] delivered(end, keep_alive, StreamPhase::CatchUp, events)[i + 1]
                == delivered(end, keep_alive, StreamPhase::CatchUp, events)[i] + 1,
{
    lemma_delivered_gapless(end, keep_alive, StreamPhase::CatchUp, events, start - 1, -1);
}

} // verus!

//! Per-endpoint staleness and backpressure policy, and a faithful model of an
//! endpoint's unread buffer.
//!
//! Each endpoint tracks the time of its last confirmed successful write. Once
//! per loop iteration the engine offers the freshly read chunk to the
//! endpoint; the policy decides, in order:
//! 1. if the consumer has not drained in time (elapsed since the last good
//!    write exceeds the staleness timeout), clear everything it has not read
//!    and reset the clock — freshness over completeness;
//! 2. if the unread backlog is below the high-water mark, write the chunk and
//!    record a good write;
//! 3. otherwise drop the chunk for this endpoint and leave the clock alone.
//! A write failure preserves the clock as it stood after step 1, so the
//! staleness clock keeps ticking toward a future clear.
//!
//! The two endpoints are fully independent: a clear, a drop or a failure on
//! one never changes the other's clock, backlog or buffer contents. That and
//! the backpressure cap are proved below over arbitrary runs.

use vstd::prelude::*;

verus! {

/// Whether the consumer of an endpoint is presumed to have stopped draining:
/// the time since the last confirmed good write exceeds the staleness timeout.
pub open spec fn spec_staleness_expired(
    last_good_write_ms: u64,
    now_ms: u64,
    timeout_ms: u64,
) -> bool {
    now_ms - last_good_write_ms > timeout_ms
}

/// Whether a backlog of unread bytes is still small enough that fresh data
/// may be appended to it.
pub open spec fn spec_below_high_water(backlog: nat) -> bool {
    backlog < crate::HIGH_WATER_MARK
}

/// Decides step 1 of the policy: must the endpoint's pending data be cleared?
///
/// The clock never runs backwards past the last good write; a host whose
/// wall clock did would panic before reaching this decision, so that input is
/// excluded here.
pub fn staleness_expired(last_good_write_ms: u64, now_ms: u64, timeout_ms: u64) -> (r: bool)
    requires
        last_good_write_ms <= now_ms,
    ensures
        r == spec_staleness_expired(last_good_write_ms, now_ms, timeout_ms),
{
    now_ms - last_good_write_ms > timeout_ms
}

/// Decides step 2 of the policy: is the unread backlog small enough that the
/// chunk may be written?
pub fn below_high_water(backlog: u32) -> (r: bool)
    ensures
        r == spec_below_high_water(backlog as nat),
{
    backlog < crate::HIGH_WATER_MARK
}

/// What one forwarding step did to one endpoint, as observed by the engine.
#[derive(Clone, Copy, Debug, PartialEq, Eq, Structural)]
pub enum ForwardEvent {
    /// An endpoint operation (buffer clear, backlog query) failed before any
    /// write was attempted; the step was abandoned.
    StepFailed,
    /// The backlog was at or above the high-water mark: the chunk was dropped
    /// for this endpoint. `cleared` records whether a staleness clear
    /// happened first.
    Dropped { cleared: bool },
    /// The chunk was written to the endpoint.
    Written { cleared: bool },
    /// The write was attempted and failed; the chunk is lost for this
    /// endpoint.
    WriteFailed { cleared: bool },
}

/// The clock value an endpoint carries out of one forwarding step: a
/// successful write or a staleness clear resets it to now; everything else
/// leaves it ticking.
pub open spec fn spec_next_last_good(last_good_write_ms: u64, now_ms: u64, ev: ForwardEvent) -> u64 {
    match ev {
        ForwardEvent::StepFailed => last_good_write_ms,
        ForwardEvent::Dropped { cleared } => if cleared {
            now_ms
        } else {
            last_good_write_ms
        },
        ForwardEvent::Written { cleared: _ } => now_ms,
        ForwardEvent::WriteFailed { cleared } => if cleared {
            now_ms
        } else {
            last_good_write_ms
        },
    }
}

/// Advances an endpoint's staleness clock from what one forwarding step
/// reported. The engine calls this with the event it observed on the real
/// endpoint.
pub fn apply_forward_event(last_good_write_ms: u64, now_ms: u64, ev: &ForwardEvent) -> (r: u64)
    ensures
        r == spec_next_last_good(last_good_write_ms, now_ms, *ev),
{
    match ev {
        ForwardEvent::StepFailed => last_good_write_ms,
        ForwardEvent::Dropped { cleared } => if *cleared {
            now_ms
        } else {
            last_good_write_ms
        },
        ForwardEvent::Written { cleared: _ } => now_ms,
        ForwardEvent::WriteFailed { cleared } => if *cleared {
            now_ms
        } else {
            last_good_write_ms
        },
    }
}

/// Mathematical state of one endpoint: its staleness clock and the bytes its
/// consumer has not read yet.
#[verifier::ext_equal]
pub ghost struct EndpointView {
    pub last_good_write_ms: u64,
    pub queued: Seq<u8>,
}

/// One forwarding step on the mathematical endpoint state. `write_succeeds`
/// is the outcome of the underlying write, which the policy cannot control:
/// the step is defined for either outcome.
pub open spec fn spec_forward(
    ep: EndpointView,
    now_ms: u64,
    chunk: Seq<u8>,
    timeout_ms: u64,
    write_succeeds: bool,
) -> (EndpointView, ForwardEvent) {
    let expired = spec_staleness_expired(ep.last_good_write_ms, now_ms, timeout_ms);
    let queued = if expired {
        Seq::<u8>::empty()
    } else {
        ep.queued
    };
    let clock = if expired {
        now_ms
    } else {
        ep.last_good_write_ms
    };
    if spec_below_high_water(queued.len()) {
        if write_succeeds {
            (
                EndpointView { last_good_write_ms: now_ms, queued: queued + chunk },
                ForwardEvent::Written { cleared: expired },
            )
        } else {
            (
                EndpointView { last_good_write_ms: clock, queued },
                ForwardEvent::WriteFailed { cleared: expired },
            )
        }
    } else {
        (
            EndpointView { last_good_write_ms: clock, queued },
            ForwardEvent::Dropped { cleared: expired },
        )
    }
}

/// Executable model of one fan-out endpoint: the staleness clock and the
/// unread bytes queued on the consumer-facing side. The engine's policy is
/// exercised on it exactly as on a real endpoint, with the write outcome
/// injected.
pub struct ModelEndpoint {
    pub last_good_write_ms: u64,
    pub queued: Vec<u8>,
}

impl View for ModelEndpoint {
    type V = EndpointView;

    open spec fn view(&self) -> EndpointView {
        EndpointView { last_good_write_ms: self.last_good_write_ms, queued: self.queued@ }
    }
}

impl ModelEndpoint {
    /// A fresh endpoint: empty buffer, clock started at `start_ms`.
    pub fn new(start_ms: u64) -> (ep: ModelEndpoint)
        ensures
            ep@.last_good_write_ms == start_ms,
            ep@.queued == Seq::<u8>::empty(),
    {
        ModelEndpoint { last_good_write_ms: start_ms, queued: Vec::new() }
    }

    /// How many bytes the consumer has not read yet.
    pub fn backlog(&self) -> (n: usize)
        ensures
            n == self@.queued.len(),
    {
        self.queued.len()
    }

    /// One forwarding step: staleness clear, backpressure check, then the
    /// write (whose success is injected through `write_succeeds`).
    pub fn forward(
        &mut self,
        now_ms: u64,
        chunk: &Vec<u8>,
        timeout_ms: u64,
        write_succeeds: bool,
    ) -> (ev: ForwardEvent)
        requires
            old(self)@.last_good_write_ms <= now_ms,
            old(self)@.queued.len() + chunk@.len() <= usize::MAX,
        ensures
            final(self)@ == spec_forward(old(self)@, now_ms, chunk@, timeout_ms, write_succeeds).0,
            ev == spec_forward(old(self)@, now_ms, chunk@, timeout_ms, write_succeeds).1,
    {
        let expired = staleness_expired(self.last_good_write_ms, now_ms, timeout_ms);
        if expired {
            self.queued.clear();
        }
        if self.queued.len() < crate::HIGH_WATER_MARK as usize {
            if write_succeeds {
                self.queued.extend_from_slice(chunk.as_slice());
                self.last_good_write_ms = now_ms;
                ForwardEvent::Written { cleared: expired }
            } else {
                if expired {
                    self.last_good_write_ms = now_ms;
                }
                ForwardEvent::WriteFailed { cleared: expired }
            }
        } else {
            if expired {
                self.last_good_write_ms = now_ms;
            }
            ForwardEvent::Dropped { cleared: expired }
        }
    }

    /// A consumer read: removes and returns up to `max` bytes from the front
    /// of the unread buffer. Reading never touches the staleness clock — only
    /// a confirmed write does.
    pub fn read(&mut self, max: usize) -> (out: Vec<u8>)
        ensures
            out@ == old(self)@.queued.take(spec_read_len(old(self)@.queued.len(), max) as int),
            final(self)@.queued == old(self)@.queued.skip(
                spec_read_len(old(self)@.queued.len(), max) as int,
            ),
            final(self)@.last_good_write_ms == old(self)@.last_good_write_ms,
    {
        let k: usize = if max < self.queued.len() {
            max
        } else {
            self.queued.len()
        };
        let mut out: Vec<u8> = Vec::new();
        let mut i: usize = 0;
        while i < k
            invariant
                i <= k,
                k <= self.queued.len(),
                self@ == old(self)@,
                out@ == self.queued@.take(i as int),
            decreases k - i,
        {
            out.push(self.queued[i]);
            i = i + 1;
        }
        let mut rest: Vec<u8> = Vec::new();
        let mut j: usize = k;
        while j < self.queued.len()
            invariant
                k <= j <= self.queued.len(),
                self@ == old(self)@,
                rest@ == self.queued@.subrange(k as int, j as int),
            decreases self.queued.len() - j,
        {
            rest.push(self.queued[j]);
            j = j + 1;
        }
        self.queued = rest;
        out
    }
}

/// How many bytes a consumer read of at most `max` bytes takes from a buffer
/// of `len` bytes.
pub open spec fn spec_read_len(len: nat, max: usize) -> nat {
    if (max as nat) < len {
        max as nat
    } else {
        len
    }
}

/// What one loop iteration hands to one endpoint: the current time, the chunk
/// just read from the physical device, and the outcome of this endpoint's
/// write.
#[verifier::ext_equal]
pub ghost struct EndpointInput {
    pub now_ms: u64,
    pub chunk: Seq<u8>,
    pub write_ok: bool,
}

/// What one loop iteration hands to the pair: both endpoints see the same
/// time and the same chunk, but each write has its own outcome.
#[verifier::ext_equal]
pub ghost struct IterationInput {
    pub now_ms: u64,
    pub chunk: Seq<u8>,
    pub write0_ok: bool,
    pub write1_ok: bool,
}

/// The first endpoint's share of one iteration.
pub open spec fn input_for_ep0(s: IterationInput) -> EndpointInput {
    EndpointInput { now_ms: s.now_ms, chunk: s.chunk, write_ok: s.write0_ok }
}

/// The second endpoint's share of one iteration.
pub open spec fn input_for_ep1(s: IterationInput) -> EndpointInput {
    EndpointInput { now_ms: s.now_ms, chunk: s.chunk, write_ok: s.write1_ok }
}

/// One forwarding step on the mathematical endpoint state, by iteration input.
pub open spec fn spec_step_endpoint(
    ep: EndpointView,
    s: EndpointInput,
    timeout_ms: u64,
) -> EndpointView {
    spec_forward(ep, s.now_ms, s.chunk, timeout_ms, s.write_ok).0
}

/// A whole run: the forwarding steps of `steps`, applied in order to one
/// endpoint.
pub open spec fn spec_run_endpoint(
    ep: EndpointView,
    steps: Seq<EndpointInput>,
    timeout_ms: u64,
) -> EndpointView
    decreases steps.len(),
{
    if steps.len() == 0 {
        ep
    } else {
        spec_run_endpoint(
            spec_step_endpoint(ep, steps[0], timeout_ms),
            steps.skip(1),
            timeout_ms,
        )
    }
}

/// Mathematical state of the fan-out pair.
#[verifier::ext_equal]
pub ghost struct PairView {
    pub ep0: EndpointView,
    pub ep1: EndpointView,
}

/// One loop iteration on the pair: each endpoint takes the same chunk through
/// its own forwarding step.
pub open spec fn spec_step_pair(p: PairView, s: IterationInput, timeout_ms: u64) -> PairView {
    PairView {
        ep0: spec_step_endpoint(p.ep0, input_for_ep0(s), timeout_ms),
        ep1: spec_step_endpoint(p.ep1, input_for_ep1(s), timeout_ms),
    }
}

/// A whole run of the pair.
pub open spec fn spec_run_pair(p: PairView, steps: Seq<IterationInput>, timeout_ms: u64) -> PairView
    decreases steps.len(),
{
    if steps.len() == 0 {
        p
    } else {
        spec_run_pair(spec_step_pair(p, steps[0], timeout_ms), steps.skip(1), timeout_ms)
    }
}

/// Executable model of the fan-out pair: both endpoints offered the same
/// chunk each iteration, entirely independent otherwise.
pub struct ModelPair {
    pub ep0: ModelEndpoint,
    pub ep1: ModelEndpoint,
}

impl View for ModelPair {
    type V = PairView;

    open spec fn view(&self) -> PairView {
        PairView { ep0: self.ep0@, ep1: self.ep1@ }
    }
}

impl ModelPair {
    /// A fresh pair, both clocks started at `start_ms`.
    pub fn new(start_ms: u64) -> (p: ModelPair)
        ensures
            p@.ep0.last_good_write_ms == start_ms,
            p@.ep0.queued == Seq::<u8>::empty(),
            p@.ep1.last_good_write_ms == start_ms,
            p@.ep1.queued == Seq::<u8>::empty(),
    {
        ModelPair { ep0: ModelEndpoint::new(start_ms), ep1: ModelEndpoint::new(start_ms) }
    }

    /// One loop iteration: the same chunk is offered to both endpoints, each
    /// through its own forwarding step with its own write outcome. The
    /// contract shows the independence directly: each endpoint's new state is
    /// a function of its own old state and its own inputs alone.
    pub fn forward_both(
        &mut self,
        now_ms: u64,
        chunk: &Vec<u8>,
        timeout_ms: u64,
        write0_ok: bool,
        write1_ok: bool,
    ) -> (evs: (ForwardEvent, ForwardEvent))
        requires
            old(self)@.ep0.last_good_write_ms <= now_ms,
            old(self)@.ep1.last_good_write_ms <= now_ms,
            old(self)@.ep0.queued.len() + chunk@.len() <= usize::MAX,
            old(self)@.ep1.queued.len() + chunk@.len() <= usize::MAX,
        ensures
            final(self)@.ep0 == spec_forward(
                old(self)@.ep0,
                now_ms,
                chunk@,
                timeout_ms,
                write0_ok,
            ).0,
            final(self)@.ep1 == spec_forward(
                old(self)@.ep1,
                now_ms,
                chunk@,
                timeout_ms,
                write1_ok,
            ).0,
            evs.0 == spec_forward(old(self)@.ep0, now_ms, chunk@, timeout_ms, write0_ok).1,
            evs.1 == spec_forward(old(self)@.ep1, now_ms, chunk@, timeout_ms, write1_ok).1,
    {
        let ev0 = self.ep0.forward(now_ms, chunk, timeout_ms, write0_ok);
        let ev1 = self.ep1.forward(now_ms, chunk, timeout_ms, write1_ok);
        (ev0, ev1)
    }
}

/// A pair run is the two endpoint runs side by side: each endpoint's final
/// state is fully determined by its own starting state and its own share of
/// the inputs.
pub proof fn lemma_run_pair_componentwise(p: PairView, steps: Seq<IterationInput>, timeout_ms: u64)
    ensures
        spec_run_pair(p, steps, timeout_ms).ep0 == spec_run_endpoint(
            p.ep0,
            steps.map_values(|s: IterationInput| input_for_ep0(s)),
            timeout_ms,
        ),
        spec_run_pair(p, steps, timeout_ms).ep1 == spec_run_endpoint(
            p.ep1,
            steps.map_values(|s: IterationInput| input_for_ep1(s)),
            timeout_ms,
        ),
    decreases steps.len(),
{
    let m0 = steps.map_values(|s: IterationInput| input_for_ep0(s));
    let m1 = steps.map_values(|s: IterationInput| input_for_ep1(s));
    if steps.len() == 0 {
        assert(m0 =~= Seq::<EndpointInput>::empty());
        assert(m1 =~= Seq::<EndpointInput>::empty());
    } else {
        let p2 = spec_step_pair(p, steps[0], timeout_ms);
        lemma_run_pair_componentwise(p2, steps.skip(1), timeout_ms);
        assert(steps.skip(1).map_values(|s: IterationInput| input_for_ep0(s)) =~= m0.skip(1));
        assert(steps.skip(1).map_values(|s: IterationInput| input_for_ep1(s)) =~= m1.skip(1));
    }
}

/// Endpoint independence: two runs whose second-endpoint inputs agree step by
/// step leave the second endpoint in the same state — the first endpoint's
/// starting state, its write failures and its staleness clears never change
/// the second endpoint's clock, backlog or buffer contents.
pub proof fn lemma_endpoint_independence(
    p1: PairView,
    p2: PairView,
    s1: Seq<IterationInput>,
    s2: Seq<IterationInput>,
    timeout_ms: u64,
)
    requires
        p1.ep1 == p2.ep1,
        s1.len() == s2.len(),
        forall|i: int| 0 <= i < s1.len() ==> input_for_ep1(s1[i]) == input_for_ep1(s2[i]),
    ensures
        spec_run_pair(p1, s1, timeout_ms).ep1 == spec_run_pair(p2, s2, timeout_ms).ep1,
{
    lemma_run_pair_componentwise(p1, s1, timeout_ms);
    lemma_run_pair_componentwise(p2, s2, timeout_ms);
    assert(s1.map_values(|s: IterationInput| input_for_ep1(s)) =~= s2.map_values(
        |s: IterationInput| input_for_ep1(s),
    ));
}

/// The mirror image of `lemma_endpoint_independence`: nothing that happens to
/// the second endpoint changes the first.
pub proof fn lemma_endpoint_independence_ep0(
    p1: PairView,
    p2: PairView,
    s1: Seq<IterationInput>,
    s2: Seq<IterationInput>,
    timeout_ms: u64,
)
    requires
        p1.ep0 == p2.ep0,
        s1.len() == s2.len(),
        forall|i: int| 0 <= i < s1.len() ==> input_for_ep0(s1[i]) == input_for_ep0(s2[i]),
    ensures
        spec_run_pair(p1, s1, timeout_ms).ep0 == spec_run_pair(p2, s2, timeout_ms).ep0,
{
    lemma_run_pair_componentwise(p1, s1, timeout_ms);
    lemma_run_pair_componentwise(p2, s2, timeout_ms);
    assert(s1.map_values(|s: IterationInput| input_for_ep0(s)) =~= s2.map_values(
        |s: IterationInput| input_for_ep0(s),
    ));
}

/// Backlog cap, one step: with the staleness timeout not yet expired and the
/// backlog at or above the high-water mark, the step writes nothing — the
/// endpoint is left exactly as it was and the chunk is dropped.
pub proof fn lemma_backlog_cap_step(ep: EndpointView, s: EndpointInput, timeout_ms: u64)
    requires
        !spec_staleness_expired(ep.last_good_write_ms, s.now_ms, timeout_ms),
        ep.queued.len() >= crate::HIGH_WATER_MARK,
    ensures
        spec_step_endpoint(ep, s, timeout_ms) == ep,
        spec_forward(ep, s.now_ms, s.chunk, timeout_ms, s.write_ok).1 == (ForwardEvent::Dropped {
            cleared: false,
        }),
{
    assert(spec_step_endpoint(ep, s, timeout_ms) =~= ep);
}

/// Backlog cap, whole run: once the backlog has reached the high-water mark,
/// no further source bytes are written to the endpoint for as long as no
/// staleness clear occurs — over any such run the endpoint is left untouched.
/// (Only a consumer read can shrink the backlog, and reading is not a
/// forwarding step.)
pub proof fn lemma_backlog_cap_run(ep: EndpointView, steps: Seq<EndpointInput>, timeout_ms: u64)
    requires
        ep.queued.len() >= crate::HIGH_WATER_MARK,
        forall|i: int| 0 <= i < steps.len() ==> !spec_staleness_expired(
            ep.last_good_write_ms,
            #[trigger] steps[i].now_ms,
            timeout_ms,
        ),
    ensures
        spec_run_endpoint(ep, steps, timeout_ms) == ep,
    decreases steps.len(),
{
    if steps.len() > 0 {
        lemma_backlog_cap_step(ep, steps[0], timeout_ms);
        assert(forall|i: int| 0 <= i < steps.skip(1).len() ==> steps.skip(1)[i] == steps[i + 1]);
        lemma_backlog_cap_run(ep, steps.skip(1), timeout_ms);
    }
}

/// Loss tolerance: when the staleness timeout has expired at a forwarding
/// step, nothing the endpoint had queued before survives it — afterwards the
/// buffer holds at most the current chunk, and the clock restarts at now. A
/// consumer that drains slower than the staleness timeout therefore observes
/// a non-contiguous subsequence of the source stream: every chunk queued
/// before the clear is gone.
pub proof fn lemma_staleness_clear_discards(ep: EndpointView, s: EndpointInput, timeout_ms: u64)
    requires
        spec_staleness_expired(ep.last_good_write_ms, s.now_ms, timeout_ms),
    ensures
        spec_step_endpoint(ep, s, timeout_ms).queued == (if s.write_ok {
            s.chunk
        } else {
            Seq::<u8>::empty()
        }),
        spec_step_endpoint(ep, s, timeout_ms).last_good_write_ms == s.now_ms,
{
    if s.write_ok {
        assert(Seq::<u8>::empty() + s.chunk =~= s.chunk);
    }
}

/// The bytes of a run's chunks, in the order the source produced them.
pub open spec fn spec_concat_chunks(steps: Seq<EndpointInput>) -> Seq<u8>
    decreases steps.len(),
{
    if steps.len() == 0 {
        Seq::<u8>::empty()
    } else {
        steps[0].chunk + spec_concat_chunks(steps.skip(1))
    }
}

/// Ordering and completeness of a timely stream: over a run in which every
/// write succeeds, every step comes within the staleness timeout of the last
/// good write, and the backlog never reaches the high-water mark, the
/// endpoint loses nothing — it ends holding what it held plus every chunk,
/// whole and in the order received. Gaps in a consumer's view can come only
/// from a staleness clear, a backlog drop or a write failure.
pub proof fn lemma_timely_stream_is_gapless(
    ep: EndpointView,
    steps: Seq<EndpointInput>,
    timeout_ms: u64,
)
    requires
        forall|i: int| 0 <= i < steps.len() ==> (#[trigger] steps[i]).write_ok,
        steps.len() > 0 ==> !spec_staleness_expired(
            ep.last_good_write_ms,
            steps[0].now_ms,
            timeout_ms,
        ),
        forall|i: int| 0 < i < steps.len() ==> !spec_staleness_expired(
            steps[i - 1].now_ms,
            (#[trigger] steps[i]).now_ms,
            timeout_ms,
        ),
        forall|i: int| 0 <= i < steps.len() ==> spec_below_high_water(
            ep.queued.len() + spec_concat_chunks(#[trigger] steps.take(i)).len(),
        ),
    ensures
        spec_run_endpoint(ep, steps, timeout_ms).queued == ep.queued + spec_concat_chunks(steps),
        spec_run_endpoint(ep, steps, timeout_ms).last_good_write_ms == (if steps.len() == 0 {
            ep.last_good_write_ms
        } else {
            steps[steps.len() - 1].now_ms
        }),
    decreases steps.len(),
{
    if steps.len() == 0 {
        assert(ep.queued + spec_concat_chunks(steps) =~= ep.queued);
    } else {
        let s0 = steps[0];
        let tail = steps.skip(1);
        assert(steps.take(0) =~= Seq::<EndpointInput>::empty());
        assert(spec_below_high_water(ep.queued.len() + spec_concat_chunks(steps.take(0)).len()));
        let ep1 = spec_step_endpoint(ep, s0, timeout_ms);
        assert(ep1.queued == ep.queued + s0.chunk);
        assert(ep1.last_good_write_ms == s0.now_ms);
        assert forall|i: int| 0 <= i < tail.len() implies spec_below_high_water(
            ep1.queued.len() + spec_concat_chunks(#[trigger] tail.take(i)).len(),
        ) by {
            lemma_concat_chunks_take_shift(steps, i);
            assert(spec_below_high_water(
                ep.queued.len() + spec_concat_chunks(steps.take(i + 1)).len(),
            ));
        }
        lemma_timely_stream_is_gapless(ep1, tail, timeout_ms);
        assert(ep1.queued + spec_concat_chunks(tail) =~= ep.queued + spec_concat_chunks(steps));
        if tail.len() > 0 {
            assert(tail[tail.len() - 1] == steps[steps.len() - 1]);
        }
    }
}

/// Splitting a run's bytes after the first step: the first `i + 1` chunks are
/// the first chunk followed by the next `i` chunks of the tail.
proof fn lemma_concat_chunks_take_shift(steps: Seq<EndpointInput>, i: int)
    requires
        steps.len() > 0,
        0 <= i < steps.skip(1).len(),
    ensures
        spec_concat_chunks(steps.take(i + 1)) == steps[0].chunk + spec_concat_chunks(
            steps.skip(1).take(i),
        ),
{
    let front = steps.take(i + 1);
    assert(front[0] == steps[0]);
    assert(front.skip(1) =~= steps.skip(1).take(i));
}

/// The staleness clock never rolls back: whatever one step does, the clock it
/// leaves is no older than the one it found.
pub proof fn lemma_clock_monotone(ep: EndpointView, s: EndpointInput, timeout_ms: u64)
    requires
        ep.last_good_write_ms <= s.now_ms,
    ensures
        spec_step_endpoint(ep, s, timeout_ms).last_good_write_ms >= ep.last_good_write_ms,
{
}

/// The model and the engine-facing clock transition agree: the clock that
/// `spec_forward` leaves is exactly what `spec_next_last_good` computes from
/// the event it reports.
pub proof fn lemma_clock_matches_event(
    ep: EndpointView,
    now_ms: u64,
    chunk: Seq<u8>,
    timeout_ms: u64,
    write_succeeds: bool,
)
    ensures
        spec_forward(ep, now_ms, chunk, timeout_ms, write_succeeds).0.last_good_write_ms
            == spec_next_last_good(
            ep.last_good_write_ms,
            now_ms,
            spec_forward(ep, now_ms, chunk, timeout_ms, write_succeeds).1,
        ),
{
}

} // verus!

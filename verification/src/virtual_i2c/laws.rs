//! What holds of every execution of the multiplexer.
//!
//! An execution is a sequence of events applied to an idle multiplexer. Beside
//! the state, a [`History`] records what an observer of both sides would see:
//! the requests that endpoints accepted, the transactions that reached the
//! hardware, and the completions that came back, each in order.

use vstd::prelude::*;
use vstd::set_lib::{lemma_int_range, lemma_len_subset, set_int_range};
use super::model::{
    lemma_attach_keeps_wf, lemma_complete_keeps_wf, lemma_enqueue_keeps_wf,
    lemma_set_client_keeps_wf, CompletionView, MuxView,
};
use super::types::{BusCommandView, BusStatus, RequestError, RequestView};

verus! {

/// One thing that can happen to a multiplexer.
pub enum Event {
    /// An endpoint bound to `address` is attached.
    Attach { address: u8 },
    /// An endpoint registers a completion client.
    SetClient { endpoint: usize, client: usize },
    /// A driver asks its endpoint for an operation.
    Submit { request: RequestView },
    /// The physical master reports the end of the transaction in flight.
    Complete { buffer: Seq<u8>, status: BusStatus },
}

/// A multiplexer together with a record of what it has done so far.
pub struct History {
    pub state: MuxView,
    /// Requests that endpoints accepted, in the order of the calls.
    pub accepted: Seq<RequestView>,
    /// Transactions handed to the physical master, in the order of the
    /// hand-over.
    pub started: Seq<BusCommandView>,
    /// Completions of the physical master, in the order in which they fired.
    pub completions: Seq<CompletionView>,
}

impl History {
    /// The history of a multiplexer that has done nothing yet.
    pub open spec fn start(state: MuxView) -> History {
        History { state, accepted: Seq::empty(), started: Seq::empty(), completions: Seq::empty() }
    }

    /// Whether `event` can happen now: endpoints that act are registered, and
    /// the hardware completes only what was started.
    pub open spec fn admits(self, event: Event) -> bool {
        match event {
            Event::Attach { address } => true,
            Event::SetClient { endpoint, client } => self.state.registered(endpoint),
            Event::Submit { request } => self.state.registered(request.endpoint),
            Event::Complete { buffer, status } => self.state.is_busy(),
        }
    }

    /// The history after `event`.
    pub open spec fn step(self, event: Event) -> History {
        match event {
            Event::Attach { address } => History { state: self.state.attach(address), ..self },
            Event::SetClient { endpoint, client } => History {
                state: self.state.set_client(endpoint, client),
                ..self
            },
            Event::Submit { request } => if self.state.verdict(request) is None {
                History {
                    state: self.state.submit(request),
                    accepted: self.accepted.push(request),
                    started: match self.state.submit_command(request) {
                        Some(command) => self.started.push(command),
                        None => self.started,
                    },
                    ..self
                }
            } else {
                self
            },
            Event::Complete { buffer, status } => History {
                state: self.state.complete(),
                started: match self.state.completion(buffer, status).next {
                    Some(command) => self.started.push(command),
                    None => self.started,
                },
                completions: self.completions.push(self.state.completion(buffer, status)),
                ..self
            },
        }
    }

    /// The history after all of `trace`, first event first.
    pub open spec fn run(self, trace: Seq<Event>) -> History
        decreases trace.len(),
    {
        if trace.len() == 0 {
            self
        } else {
            self.run(trace.drop_last()).step(trace.last())
        }
    }

    /// Whether every event of `trace` can happen when its turn comes.
    pub open spec fn admissible(self, trace: Seq<Event>) -> bool
        decreases trace.len(),
    {
        trace.len() == 0 || (self.admissible(trace.drop_last()) && self.run(
            trace.drop_last(),
        ).admits(trace.last()))
    }

    /// Number of accepted requests whose completion has come.
    pub open spec fn done(self) -> int {
        self.completions.len() as int
    }

    /// The record and the state agree: the accepted requests up to `done()`
    /// are completed, the next one is in flight, the later ones wait in
    /// order; and the hardware was handed, in order, the transaction of each
    /// request up to the one in flight.
    pub open spec fn consistent(self) -> bool {
        let a = self.accepted.len() as int;
        let c = self.done();
        &&& self.state.wf()
        &&& c <= a
        &&& forall|i: int|
            0 <= i < a ==> self.state.registered((#[trigger] self.accepted[i]).endpoint)
        &&& self.state.inflight == if c < a {
            Some(self.accepted[c].endpoint)
        } else {
            None
        }
        &&& self.state.pending == if c < a {
            self.accepted.subrange(c + 1, a)
        } else {
            Seq::empty()
        }
        &&& self.started.len() == if c < a {
            c + 1
        } else {
            a
        }
        &&& forall|i: int|
            0 <= i < self.started.len() ==> #[trigger] self.started[i] == self.state.command_for(
                self.accepted[i],
            )
        &&& forall|i: int|
            0 <= i < c ==> (#[trigger] self.completions[i]).endpoint == self.accepted[i].endpoint
    }
}

proof fn lemma_step_keeps_consistent(h: History, event: Event)
    requires
        h.consistent(),
        h.admits(event),
    ensures
        h.step(event).consistent(),
{
    let a = h.accepted.len() as int;
    let c = h.done();
    let n = h.step(event);
    match event {
        Event::Attach { address } => {
            lemma_attach_keeps_wf(h.state, address);
            assert forall|i: int| 0 <= i < n.started.len() implies #[trigger] n.started[i]
                == n.state.command_for(n.accepted[i]) by {
                assert(h.state.registered(h.accepted[i].endpoint));
            }
        },
        Event::SetClient { endpoint, client } => {
            lemma_set_client_keeps_wf(h.state, endpoint, client);
            assert forall|i: int| 0 <= i < n.started.len() implies #[trigger] n.started[i]
                == n.state.command_for(n.accepted[i]) by {
                assert(h.state.registered(h.accepted[i].endpoint));
            }
        },
        Event::Submit { request } => {
            if h.state.verdict(request) is None {
                lemma_enqueue_keeps_wf(h.state, request);
                assert(n.state.pending =~= n.accepted.subrange(c + 1, a + 1));
                assert forall|i: int| 0 <= i < a + 1 implies n.state.registered(
                    (#[trigger] n.accepted[i]).endpoint,
                ) by {
                    if i < a {
                        assert(n.accepted[i] == h.accepted[i]);
                    }
                }
                assert forall|i: int| 0 <= i < n.started.len() implies #[trigger] n.started[i]
                    == n.state.command_for(n.accepted[i]) by {
                    if i < h.started.len() {
                        assert(n.started[i] == h.started[i]);
                        assert(n.accepted[i] == h.accepted[i]);
                    }
                }
            }
        },
        Event::Complete { buffer, status } => {
            lemma_complete_keeps_wf(h.state);
            if c + 1 < a {
                assert(h.state.pending[0] == h.accepted[c + 1]);
                assert(n.state.pending =~= n.accepted.subrange(c + 2, a));
                assert forall|i: int| 0 <= i < n.started.len() implies #[trigger] n.started[i]
                    == n.state.command_for(n.accepted[i]) by {
                    if i < h.started.len() {
                        assert(n.started[i] == h.started[i]);
                    }
                }
            } else {
                assert(n.state.pending =~= Seq::empty());
            }
        },
    }
}

/// Every execution from an idle multiplexer keeps record and state in
/// agreement.
pub proof fn lemma_run_consistent(s: MuxView, trace: Seq<Event>)
    requires
        s.wf(),
        !s.is_busy(),
        History::start(s).admissible(trace),
    ensures
        History::start(s).run(trace).consistent(),
    decreases trace.len(),
{
    if trace.len() == 0 {
        assert(s.pending =~= Seq::empty());
    } else {
        lemma_run_consistent(s, trace.drop_last());
        lemma_step_keeps_consistent(History::start(s).run(trace.drop_last()), trace.last());
    }
}

/// An endpoint keeps its place and its address: whatever happens to the
/// multiplexer, an endpoint that is registered stays registered under the
/// same handle and bound to the address that it was created with.
pub proof fn law_address_is_fixed(s: MuxView, trace: Seq<Event>, endpoint: usize)
    requires
        s.registered(endpoint),
        History::start(s).admissible(trace),
    ensures
        ({
            let h = History::start(s).run(trace);
            &&& h.state.registered(endpoint)
            &&& h.state.endpoints[endpoint as int].address == s.endpoints[endpoint as int].address
        }),
    decreases trace.len(),
{
    if trace.len() > 0 {
        law_address_is_fixed(s, trace.drop_last(), endpoint);
    }
}

/// At most one in flight: at every point of every execution, the physical
/// master has been handed at most one request more than it has completed,
/// and exactly one more precisely while the multiplexer is busy. So it never
/// receives a second operation before the first one's completion has fired.
pub proof fn law_at_most_one_in_flight(s: MuxView, trace: Seq<Event>)
    requires
        s.wf(),
        !s.is_busy(),
        History::start(s).admissible(trace),
    ensures
        ({
            let h = History::start(s).run(trace);
            &&& h.completions.len() <= h.started.len() <= h.completions.len() + 1
            &&& h.state.is_busy() <==> h.started.len() == h.completions.len() + 1
        }),
{
    lemma_run_consistent(s, trace);
}

/// First come, first served: the requests reach the physical master in the
/// order in which the endpoints accepted them, none overtaking another, each
/// with its own operation and buffer and addressed to the bus address of its
/// own endpoint; and those that still wait are queued in that same order
/// behind the ones that were started.
pub proof fn law_fifo_fairness(s: MuxView, trace: Seq<Event>)
    requires
        s.wf(),
        !s.is_busy(),
        History::start(s).admissible(trace),
    ensures
        ({
            let h = History::start(s).run(trace);
            &&& h.started.len() <= h.accepted.len()
            &&& forall|i: int|
                0 <= i < h.started.len() ==> {
                    &&& (#[trigger] h.started[i]).op == h.accepted[i].op
                    &&& h.started[i].buffer == h.accepted[i].buffer
                    &&& h.state.registered(h.accepted[i].endpoint)
                    &&& h.started[i].address == h.state.endpoints[h.accepted[i].endpoint
                        as int].address
                }
            &&& h.state.pending == h.accepted.subrange(
                h.started.len() as int,
                h.accepted.len() as int,
            )
        }),
{
    lemma_run_consistent(s, trace);
    let h = History::start(s).run(trace);
    assert(h.state.pending =~= h.accepted.subrange(
        h.started.len() as int,
        h.accepted.len() as int,
    ));
    assert forall|i: int| 0 <= i < h.started.len() implies {
        &&& (#[trigger] h.started[i]).op == h.accepted[i].op
        &&& h.started[i].buffer == h.accepted[i].buffer
        &&& h.state.registered(h.accepted[i].endpoint)
        &&& h.started[i].address == h.state.endpoints[h.accepted[i].endpoint as int].address
    } by {
        assert(h.started[i] == h.state.command_for(h.accepted[i]));
        assert(h.state.registered(h.accepted[i].endpoint));
    }
}

/// No orphaned completion: the completions are routed, one each and in order,
/// to the endpoints of the accepted requests. The completion with number `i`
/// answers the transaction with number `i` that the hardware was handed,
/// which is that of the accepted request with number `i`; so each completion
/// goes to the endpoint whose request produced it, and no more completions
/// are routed than transactions were started.
pub proof fn law_no_orphaned_completion(s: MuxView, trace: Seq<Event>)
    requires
        s.wf(),
        !s.is_busy(),
        History::start(s).admissible(trace),
    ensures
        ({
            let h = History::start(s).run(trace);
            &&& h.completions.len() <= h.accepted.len()
            &&& h.completions.len() <= h.started.len()
            &&& forall|i: int|
                0 <= i < h.completions.len() ==> {
                    &&& (#[trigger] h.completions[i]).endpoint == h.accepted[i].endpoint
                    &&& h.started[i] == h.state.command_for(h.accepted[i])
                }
        }),
{
    lemma_run_consistent(s, trace);
}

/// Idle liveness over executions: the bus is never idle while an accepted
/// request has not completed. As long as completions are owed, a transaction
/// is on the wire, and it is that of the oldest request without a completion.
pub proof fn law_never_idle_with_work(s: MuxView, trace: Seq<Event>)
    requires
        s.wf(),
        !s.is_busy(),
        History::start(s).admissible(trace),
    ensures
        ({
            let h = History::start(s).run(trace);
            &&& h.state.wf()
            &&& !h.state.is_busy() ==> h.state.pending.len() == 0 && h.completions.len()
                == h.accepted.len()
            &&& h.completions.len() < h.accepted.len() ==> h.state.inflight == Some(
                h.accepted[h.completions.len() as int].endpoint,
            )
        }),
{
    lemma_run_consistent(s, trace);
}

/// Idle liveness in one step: a completion that finds requests waiting hands
/// the oldest of them to the hardware in the same step, addressed to its own
/// endpoint, and the bus stays busy with it; one that finds none leaves the
/// bus idle.
pub proof fn law_idle_liveness(s: MuxView, buffer: Seq<u8>, status: BusStatus)
    requires
        s.wf(),
        s.is_busy(),
    ensures
        s.pending.len() > 0 ==> {
            &&& s.completion(buffer, status).next == Some(s.command_for(s.pending[0]))
            &&& s.complete().inflight == Some(s.pending[0].endpoint)
            &&& s.complete().pending == s.pending.drop_first()
        },
        s.pending.len() == 0 ==> {
            &&& s.completion(buffer, status).next is None
            &&& !s.complete().is_busy()
        },
        s.complete().wf(),
{
    lemma_complete_keeps_wf(s);
}

/// A completion goes to exactly the endpoint in the slot, with the buffer and
/// the status that the hardware reported, and to the client registered on
/// that endpoint or, where there is none, to nobody.
pub proof fn law_completion_routing(s: MuxView, buffer: Seq<u8>, status: BusStatus)
    requires
        s.wf(),
        s.is_busy(),
    ensures
        ({
            let done = s.completion(buffer, status);
            let target = s.endpoints[s.inflight->0 as int];
            &&& s.inflight == Some(done.endpoint)
            &&& s.registered(done.endpoint)
            &&& !s.complete().outstanding(done.endpoint)
            &&& target.client is None <==> done.callback is None
            &&& done.callback matches Some(cb) ==> cb.buffer == buffer && cb.status == status
                && target.client == Some(cb.client)
        }),
{
    lemma_complete_keeps_wf(s);
    let e = s.inflight->0;
    let after = s.complete();
    if after.queued(e) {
        let i = choose|i: int|
            0 <= i < after.pending.len() && (#[trigger] after.pending[i]).endpoint == e;
        assert(after.pending[i] == s.pending[i + 1]);
    }
}

/// Busy rejection: once an endpoint has accepted a request, a second request
/// of the same endpoint is refused with `Busy`, whatever its operation and
/// buffer, and changes nothing and starts nothing.
pub proof fn law_busy_rejection(s: MuxView, first: RequestView, second: RequestView)
    requires
        s.wf(),
        s.registered(first.endpoint),
        s.verdict(first) is None,
        second.endpoint == first.endpoint,
    ensures
        ({
            let after = s.submit(first);
            &&& after.outstanding(first.endpoint)
            &&& after.verdict(second) == Some(RequestError::Busy)
            &&& after.submit(second) == after
            &&& after.submit_command(second) is None
        }),
{
    let after = s.submit(first);
    if s.inflight is Some {
        assert(after.pending[s.pending.len() as int].endpoint == first.endpoint);
    }
}

/// Busy exactly while a completion is owed: at every point of every
/// execution, an endpoint refuses with `Busy` if and only if one of its
/// accepted requests has not had its completion yet. With the completions
/// coming in the order of acceptance, these are the accepted requests from
/// number `done()` on.
pub proof fn law_busy_while_outstanding(s: MuxView, trace: Seq<Event>, request: RequestView)
    requires
        s.wf(),
        !s.is_busy(),
        History::start(s).admissible(trace),
    ensures
        ({
            let h = History::start(s).run(trace);
            h.state.verdict(request) == Some(RequestError::Busy) <==> exists|i: int|
                h.done() <= i < h.accepted.len() && (#[trigger] h.accepted[i]).endpoint
                    == request.endpoint
        }),
{
    lemma_run_consistent(s, trace);
    let h = History::start(s).run(trace);
    let c = h.done();
    let a = h.accepted.len() as int;
    let e = request.endpoint;
    if h.state.outstanding(e) {
        if h.state.inflight == Some(e) {
            assert(h.accepted[c].endpoint == e);
        } else {
            let k = choose|k: int|
                0 <= k < h.state.pending.len() && (#[trigger] h.state.pending[k]).endpoint == e;
            assert(h.accepted[c + 1 + k].endpoint == e);
        }
    }
    if exists|i: int| c <= i < a && (#[trigger] h.accepted[i]).endpoint == e {
        let i = choose|i: int| c <= i < a && (#[trigger] h.accepted[i]).endpoint == e;
        if i > c {
            assert(h.state.pending[i - c - 1].endpoint == e);
        }
    }
}

/// An endpoint stays busy until its own completion: what other endpoints ask
/// and what completes for others does not free it, and the completion that
/// is routed to it does.
pub proof fn law_busy_until_completion(h: History, event: Event, endpoint: usize)
    requires
        h.state.wf(),
        h.admits(event),
        h.state.outstanding(endpoint),
    ensures
        h.step(event).state.outstanding(endpoint) <==> !(event is Complete && h.state.inflight
            == Some(endpoint)),
{
    let s = h.state;
    let n = h.step(event).state;
    match event {
        Event::Attach { address } => {
            if s.queued(endpoint) {
                let i = choose|i: int|
                    0 <= i < s.pending.len() && (#[trigger] s.pending[i]).endpoint == endpoint;
                assert(n.pending[i].endpoint == endpoint);
            }
        },
        Event::SetClient { endpoint: e, client } => {
            if s.queued(endpoint) {
                let i = choose|i: int|
                    0 <= i < s.pending.len() && (#[trigger] s.pending[i]).endpoint == endpoint;
                assert(n.pending[i].endpoint == endpoint);
            }
        },
        Event::Submit { request } => {
            if s.queued(endpoint) {
                let i = choose|i: int|
                    0 <= i < s.pending.len() && (#[trigger] s.pending[i]).endpoint == endpoint;
                assert(n.pending[i].endpoint == endpoint);
            }
        },
        Event::Complete { buffer, status } => {
            if s.inflight == Some(endpoint) {
                law_completion_routing(s, buffer, status);
            } else {
                let i = choose|i: int|
                    0 <= i < s.pending.len() && (#[trigger] s.pending[i]).endpoint == endpoint;
                if i > 0 {
                    assert(n.pending[i - 1] == s.pending[i]);
                }
            }
        },
    }
}

/// The queue is bounded: since no endpoint has more than one request
/// outstanding, the requests that wait are fewer than the endpoints. A queue
/// with room for one request less than there are endpoints never overflows.
pub proof fn law_queue_is_bounded(s: MuxView)
    requires
        s.wf(),
    ensures
        s.is_busy() ==> s.pending.len() < s.endpoints.len(),
        !s.is_busy() ==> s.pending.len() == 0,
{
    if s.inflight is Some {
        let n = s.pending.len() as int;
        let owners = Seq::new(
            (n + 1) as nat,
            |i: int|
                if i < n {
                    s.pending[i].endpoint as int
                } else {
                    s.inflight->0 as int
                },
        );
        assert(owners.no_duplicates()) by {
            assert forall|i: int, j: int| 0 <= i < owners.len() && 0 <= j < owners.len() && i
                != j implies owners[i] != owners[j] by {
                if i < n && j < n {
                    if i < j {
                        assert(s.pending[i].endpoint != s.pending[j].endpoint);
                    } else {
                        assert(s.pending[j].endpoint != s.pending[i].endpoint);
                    }
                } else if i < n {
                    assert(Some(s.pending[i].endpoint) != s.inflight);
                } else {
                    assert(Some(s.pending[j].endpoint) != s.inflight);
                }
            }
        }
        owners.unique_seq_to_set();
        let handles = set_int_range(0, s.endpoints.len() as int);
        lemma_int_range(0, s.endpoints.len() as int);
        assert(owners.to_set().subset_of(handles)) by {
            assert forall|e: int| owners.to_set().contains(e) implies handles.contains(e) by {
                let i = choose|i: int| 0 <= i < owners.len() && owners[i] == e;
                if i < n {
                    assert(s.registered(s.pending[i].endpoint));
                }
            }
        }
        lemma_len_subset(owners.to_set(), handles);
    }
}

/// Length guard: a request whose byte count exceeds its buffer is refused,
/// changes nothing and sends nothing to the physical master. The refusal is
/// `InvalidLength` unless the endpoint is busy, which is reported first.
pub proof fn law_length_guard(s: MuxView, request: RequestView)
    requires
        !request.op.fits(request.buffer.len() as int),
    ensures
        s.verdict(request) is Some,
        s.submit(request) == s,
        s.submit_command(request) is None,
        !s.outstanding(request.endpoint) ==> s.verdict(request) == Some(
            RequestError::InvalidLength,
        ),
        s.outstanding(request.endpoint) ==> s.verdict(request) == Some(RequestError::Busy),
{
}

} // verus!

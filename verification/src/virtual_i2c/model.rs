//! The multiplexer as a mathematical state machine.
//!
//! Two states, told apart by the in-flight slot: idle (slot empty) and busy
//! (slot occupied). A request that arrives while the bus is idle goes to the
//! hardware at once; one that arrives while it is busy waits in arrival order.
//! A completion empties the slot and, if anything waits, refills it with the
//! oldest waiting request in the same step.

use vstd::prelude::*;
use super::types::{BusCommandView, BusStatus, CallbackView, RequestError, RequestView};

verus! {

/// Registry record of one endpoint: what the multiplexer knows about it.
#[derive(Clone, Copy, Debug, PartialEq, Eq, Structural)]
pub struct Endpoint {
    /// Bus address the endpoint is bound to; fixed when it is created.
    pub address: u8,
    /// Token of the registered completion client, if there is one.
    pub client: Option<usize>,
}

/// Mathematical value of a multiplexer.
pub struct MuxView {
    /// Registered endpoints in the order in which they were attached; an
    /// endpoint's handle is its position here.
    pub endpoints: Seq<Endpoint>,
    /// Handle of the endpoint whose transaction is on the wire.
    pub inflight: Option<usize>,
    /// Requests that wait for the bus, oldest first.
    pub pending: Seq<RequestView>,
}

/// What a completion produces: who it was routed to, what that endpoint hands
/// to its client, and what goes to the hardware next.
pub struct CompletionView {
    pub endpoint: usize,
    pub callback: Option<CallbackView>,
    pub next: Option<BusCommandView>,
}

impl MuxView {
    /// A multiplexer without endpoints, idle.
    pub open spec fn empty() -> MuxView {
        MuxView { endpoints: Seq::empty(), inflight: None, pending: Seq::empty() }
    }

    /// The handle names an endpoint of this multiplexer.
    pub open spec fn registered(self, endpoint: usize) -> bool {
        endpoint < self.endpoints.len()
    }

    /// A transaction is on the wire: the slot is occupied.
    pub open spec fn is_busy(self) -> bool {
        self.inflight is Some
    }

    /// The endpoint has a request in the waiting queue.
    pub open spec fn queued(self, endpoint: usize) -> bool {
        exists|i: int| 0 <= i < self.pending.len() && (#[trigger] self.pending[i]).endpoint == endpoint
    }

    /// The endpoint has issued a request whose completion has not come yet.
    pub open spec fn outstanding(self, endpoint: usize) -> bool {
        self.inflight == Some(endpoint) || self.queued(endpoint)
    }

    /// The invariant of the multiplexer.
    ///
    /// Everything it refers to is registered; the bus is never idle while a
    /// request waits; and no endpoint has more than one request outstanding.
    pub open spec fn wf(self) -> bool {
        &&& self.inflight matches Some(e) ==> self.registered(e)
        &&& forall|i: int|
            0 <= i < self.pending.len() ==> self.registered((#[trigger] self.pending[i]).endpoint)
        &&& self.inflight is None ==> self.pending.len() == 0
        &&& forall|i: int|
            0 <= i < self.pending.len() ==> Some((#[trigger] self.pending[i]).endpoint)
                != self.inflight
        &&& forall|i: int, j: int|
            0 <= i < j < self.pending.len() ==> (#[trigger] self.pending[i]).endpoint != (
            #[trigger] self.pending[j]).endpoint
    }

    /// The hardware transaction that carries out `request`.
    pub open spec fn command_for(self, request: RequestView) -> BusCommandView {
        BusCommandView {
            address: self.endpoints[request.endpoint as int].address,
            op: request.op,
            buffer: request.buffer,
        }
    }

    /// State after a new endpoint bound to `address` was attached.
    pub open spec fn attach(self, address: u8) -> MuxView {
        MuxView { endpoints: self.endpoints.push(Endpoint { address, client: None }), ..self }
    }

    /// State after `endpoint` registered `client` for its completions.
    pub open spec fn set_client(self, endpoint: usize, client: usize) -> MuxView {
        MuxView {
            endpoints: self.endpoints.update(
                endpoint as int,
                Endpoint { address: self.endpoints[endpoint as int].address, client: Some(client) },
            ),
            ..self
        }
    }

    /// State after `request` was handed to the multiplexer.
    pub open spec fn enqueue(self, request: RequestView) -> MuxView {
        if self.inflight is None {
            MuxView { inflight: Some(request.endpoint), ..self }
        } else {
            MuxView { pending: self.pending.push(request), ..self }
        }
    }

    /// What handing over `request` sends to the hardware: the request itself
    /// if the bus was idle, nothing if it was busy.
    pub open spec fn enqueue_command(self, request: RequestView) -> Option<BusCommandView> {
        if self.inflight is None {
            Some(self.command_for(request))
        } else {
            None
        }
    }

    /// State after the hardware reported the end of the transaction in flight.
    pub open spec fn complete(self) -> MuxView {
        if self.pending.len() > 0 {
            MuxView {
                inflight: Some(self.pending[0].endpoint),
                pending: self.pending.drop_first(),
                ..self
            }
        } else {
            MuxView { inflight: None, ..self }
        }
    }

    /// What the endpoint in the slot hands to its client for a completion
    /// with `buffer` and `status`: nothing if no client is registered.
    pub open spec fn callback_for(self, buffer: Seq<u8>, status: BusStatus) -> Option<
        CallbackView,
    > {
        match self.endpoints[self.inflight->0 as int].client {
            Some(client) => Some(CallbackView { client, buffer, status }),
            None => None,
        }
    }

    /// What a completion with `buffer` and `status` produces in a busy state.
    pub open spec fn completion(self, buffer: Seq<u8>, status: BusStatus) -> CompletionView {
        CompletionView {
            endpoint: self.inflight->0,
            callback: self.callback_for(buffer, status),
            next: if self.pending.len() > 0 {
                Some(self.command_for(self.pending[0]))
            } else {
                None
            },
        }
    }

    /// Answer of an endpoint to a request of its driver, before anything is
    /// started: `Busy` while an earlier request of the endpoint is
    /// outstanding, else `InvalidLength` if the byte count does not fit the
    /// buffer, else acceptance.
    pub open spec fn verdict(self, request: RequestView) -> Option<RequestError> {
        if self.outstanding(request.endpoint) {
            Some(RequestError::Busy)
        } else if !request.op.fits(request.buffer.len() as int) {
            Some(RequestError::InvalidLength)
        } else {
            None
        }
    }

    /// State after an endpoint dealt with a request of its driver: unchanged
    /// if the endpoint turned it down.
    pub open spec fn submit(self, request: RequestView) -> MuxView {
        if self.verdict(request) is None {
            self.enqueue(request)
        } else {
            self
        }
    }

    /// What an endpoint's handling of a request sends to the hardware.
    pub open spec fn submit_command(self, request: RequestView) -> Option<BusCommandView> {
        if self.verdict(request) is None {
            self.enqueue_command(request)
        } else {
            None
        }
    }
}

/// Attaching an endpoint keeps the invariant.
pub proof fn lemma_attach_keeps_wf(s: MuxView, address: u8)
    requires
        s.wf(),
    ensures
        s.attach(address).wf(),
{
}

/// Registering a client keeps the invariant.
pub proof fn lemma_set_client_keeps_wf(s: MuxView, endpoint: usize, client: usize)
    requires
        s.wf(),
        s.registered(endpoint),
    ensures
        s.set_client(endpoint, client).wf(),
{
}

/// Taking a request of a registered endpoint that has none outstanding
/// keeps the invariant.
pub proof fn lemma_enqueue_keeps_wf(s: MuxView, request: RequestView)
    requires
        s.wf(),
        s.registered(request.endpoint),
        !s.outstanding(request.endpoint),
    ensures
        s.enqueue(request).wf(),
{
    if s.inflight is Some {
        let grown = s.pending.push(request);
        assert forall|i: int| 0 <= i < grown.len() implies s.registered(
            (#[trigger] grown[i]).endpoint,
        ) && Some(grown[i].endpoint) != s.inflight by {
            if i < s.pending.len() {
                assert(grown[i] == s.pending[i]);
            }
        }
        assert forall|i: int, j: int| 0 <= i < j < grown.len() implies (#[trigger] grown[i]).endpoint
            != (#[trigger] grown[j]).endpoint by {
            assert(grown[i] == s.pending[i]);
            if j < s.pending.len() {
                assert(grown[j] == s.pending[j]);
            }
        }
    }
}

/// A completion in a busy state keeps the invariant.
pub proof fn lemma_complete_keeps_wf(s: MuxView)
    requires
        s.wf(),
        s.is_busy(),
    ensures
        s.complete().wf(),
{
    if s.pending.len() > 0 {
        let rest = s.pending.drop_first();
        assert forall|i: int| 0 <= i < rest.len() implies s.registered(
            (#[trigger] rest[i]).endpoint,
        ) && rest[i].endpoint != s.pending[0].endpoint by {
            assert(rest[i] == s.pending[i + 1]);
        }
        assert forall|i: int, j: int| 0 <= i < j < rest.len() implies (#[trigger] rest[i]).endpoint
            != (#[trigger] rest[j]).endpoint by {
            assert(rest[i] == s.pending[i + 1]);
            assert(rest[j] == s.pending[j + 1]);
        }
    }
}

} // verus!

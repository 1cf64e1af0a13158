//! The multiplexer: the one owner of the physical master.

use std::collections::VecDeque;
use vstd::prelude::*;
use super::model::{
    lemma_complete_keeps_wf, lemma_enqueue_keeps_wf, CompletionView, Endpoint, MuxView,
};
use super::types::{
    command_view, BusCommand, BusStatus, Callback, Operation, Request, RequestView,
};

verus! {

/// Result of a completion: the endpoint it was routed to, what that endpoint
/// hands to its client, and the transaction to start next.
#[derive(Debug)]
pub struct Completion {
    /// Handle of the endpoint whose request produced the completion.
    pub endpoint: usize,
    /// `None` where the endpoint has no client: the buffer is dropped.
    pub callback: Option<Callback>,
    /// The oldest waiting request, to be started before anything else.
    pub next: Option<BusCommand>,
}

impl View for Completion {
    type V = CompletionView;

    open spec fn view(&self) -> CompletionView {
        CompletionView {
            endpoint: self.endpoint,
            callback: match self.callback {
                Some(c) => Some(c@),
                None => None,
            },
            next: command_view(self.next),
        }
    }
}

/// Serialises the requests of all endpoints onto one physical master.
pub struct MuxI2C {
    endpoints: Vec<Endpoint>,
    inflight: Option<usize>,
    pending: VecDeque<Request>,
}

impl View for MuxI2C {
    type V = MuxView;

    closed spec fn view(&self) -> MuxView {
        MuxView {
            endpoints: self.endpoints@,
            inflight: self.inflight,
            pending: self.pending@.map_values(|r: Request| r@),
        }
    }
}

impl Endpoint {
    /// Entry point for a completion that the multiplexer routed to this
    /// endpoint: passes buffer and status on to the registered client, or
    /// drops the buffer where there is none. The endpoint itself keeps nothing.
    pub(crate) fn command_complete(&self, buffer: Vec<u8>, status: BusStatus) -> (callback: Option<
        Callback,
    >)
        ensures
            match self.client {
                Some(client) => callback matches Some(c) && c.client == client && c.buffer@
                    == buffer@ && c.status == status,
                None => callback is None,
            },
    {
        match self.client {
            Some(client) => Some(Callback { client, buffer, status }),
            None => None,
        }
    }
}

impl MuxI2C {
    /// A multiplexer with no endpoint attached and nothing on the bus.
    pub fn new() -> (mux: MuxI2C)
        ensures
            mux@ == MuxView::empty(),
            mux@.wf(),
    {
        let mux = MuxI2C { endpoints: Vec::new(), inflight: None, pending: VecDeque::new() };
        assert(mux@.pending =~= Seq::empty());
        mux
    }

    /// Whether a transaction is on the wire.
    pub fn is_busy(&self) -> (busy: bool)
        ensures
            busy == self@.is_busy(),
    {
        self.inflight.is_some()
    }

    /// Number of attached endpoints; the handles are the numbers below it.
    pub fn endpoint_count(&self) -> (n: usize)
        ensures
            n == self@.endpoints.len(),
    {
        self.endpoints.len()
    }

    /// Whether `endpoint` has a request whose completion is still to come.
    pub fn is_outstanding(&self, endpoint: usize) -> (out: bool)
        ensures
            out == self@.outstanding(endpoint),
    {
        if self.inflight == Some(endpoint) {
            return true;
        }
        let mut i: usize = 0;
        while i < self.pending.len()
            invariant
                0 <= i <= self.pending.len(),
                forall|k: int| 0 <= k < i ==> (#[trigger] self@.pending[k]).endpoint != endpoint,
            decreases self.pending.len() - i,
        {
            if self.pending[i].endpoint == endpoint {
                assert(self@.pending[i as int].endpoint == endpoint);
                return true;
            }
            i += 1;
        }
        false
    }

    /// Bus address that `endpoint` is bound to.
    pub fn address_of(&self, endpoint: usize) -> (address: u8)
        requires
            self@.registered(endpoint),
        ensures
            address == self@.endpoints[endpoint as int].address,
    {
        self.endpoints[endpoint].address
    }

    /// Token of the completion client of `endpoint`, if one is registered.
    pub fn client_of(&self, endpoint: usize) -> (client: Option<usize>)
        requires
            self@.registered(endpoint),
        ensures
            client == self@.endpoints[endpoint as int].client,
    {
        self.endpoints[endpoint].client
    }

    /// Number of requests that wait for the bus.
    pub fn pending_count(&self) -> (n: usize)
        ensures
            n == self@.pending.len(),
    {
        self.pending.len()
    }

    /// Handle of the endpoint whose transaction is on the wire.
    pub fn inflight(&self) -> (slot: Option<usize>)
        ensures
            slot == self@.inflight,
    {
        self.inflight
    }

    /// Attaches a new endpoint bound to `address` and returns its handle.
    ///
    /// The new endpoint has no client and nothing outstanding; the bus and the
    /// waiting requests are not touched. Room in the queue is set aside here
    /// for every endpoint to wait at once, so that taking a request later
    /// needs no memory.
    pub fn attach(&mut self, address: u8) -> (endpoint: usize)
        requires
            old(self)@.wf(),
        ensures
            endpoint == old(self)@.endpoints.len(),
            final(self)@ == old(self)@.attach(address),
            final(self)@.wf(),
    {
        let endpoint = self.endpoints.len();
        self.endpoints.push(Endpoint { address, client: None });
        self.pending.reserve(self.endpoints.len());
        endpoint
    }

    /// Registers `client` as the target of the completions of `endpoint`,
    /// in place of any earlier one.
    pub fn set_client(&mut self, endpoint: usize, client: usize)
        requires
            old(self)@.wf(),
            old(self)@.registered(endpoint),
        ensures
            final(self)@ == old(self)@.set_client(endpoint, client),
            final(self)@.wf(),
    {
        let address = self.endpoints[endpoint].address;
        self.endpoints.set(endpoint, Endpoint { address, client: Some(client) });
    }

    /// Takes a request of the endpoint with the handle `endpoint`.
    ///
    /// If the bus is idle the request is returned as the transaction to start
    /// now, addressed to the endpoint's bus address, and the slot records the
    /// endpoint. If the bus is busy the request joins the back of the waiting
    /// queue and nothing is returned. Either way the call returns at once.
    ///
    /// This is the entry for endpoints. The endpoint must be registered and
    /// must have no request outstanding: an endpoint turns a second request
    /// down itself, with `Busy`, before it comes here.
    pub fn enqueue(&mut self, endpoint: usize, op: Operation, buffer: Vec<u8>) -> (command: Option<
        BusCommand,
    >)
        requires
            old(self)@.wf(),
            old(self)@.registered(endpoint),
            !old(self)@.outstanding(endpoint),
        ensures
            final(self)@ == old(self)@.enqueue(RequestView { endpoint, op, buffer: buffer@ }),
            command_view(command) == old(self)@.enqueue_command(
                RequestView { endpoint, op, buffer: buffer@ },
            ),
            final(self)@.wf(),
    {
        let ghost before = self@;
        let ghost request = RequestView { endpoint, op, buffer: buffer@ };
        if self.inflight.is_none() {
            let address = self.endpoints[endpoint].address;
            self.inflight = Some(endpoint);
            Some(BusCommand { address, op, buffer })
        } else {
            proof {
                lemma_enqueue_keeps_wf(before, request);
            }
            self.pending.push_back(Request { endpoint, op, buffer });
            proof {
                assert(self@.pending =~= before.pending.push(request));
            }
            None
        }
    }

    /// The completion callback of the physical master.
    ///
    /// Routes the completion to the endpoint in the slot, which hands buffer
    /// and status to its client unchanged, whatever the status: a failed
    /// transaction is reported, never retried. Then the oldest waiting request,
    /// if there is one, takes the slot and is returned as the transaction to
    /// start next; with nothing waiting the bus becomes idle.
    ///
    /// A completion answers a transaction: the bus must be busy.
    pub fn physical_master_completion(&mut self, buffer: Vec<u8>, status: BusStatus) -> (done:
        Completion)
        requires
            old(self)@.wf(),
            old(self)@.is_busy(),
        ensures
            final(self)@ == old(self)@.complete(),
            done@ == old(self)@.completion(buffer@, status),
            final(self)@.wf(),
    {
        let ghost before = self@;
        let endpoint = self.inflight.unwrap();
        let callback = self.endpoints[endpoint].command_complete(buffer, status);
        let next = match self.pending.pop_front() {
            Some(request) => {
                let address = self.endpoints[request.endpoint].address;
                self.inflight = Some(request.endpoint);
                proof {
                    assert(request@ == before.pending[0]);
                    assert(self@.pending =~= before.pending.drop_first());
                    lemma_complete_keeps_wf(before);
                }
                Some(BusCommand { address, op: request.op, buffer: request.buffer })
            },
            None => {
                self.inflight = None;
                proof {
                    assert(self@.pending =~= before.pending);
                    lemma_complete_keeps_wf(before);
                }
                None
            },
        };
        Completion { endpoint, callback, next }
    }
}

} // verus!

//! Book-keeping of the peripheral (server) mode: the requests of connected
//! centrals that wait for an answer from the host, the request numbering, the
//! registered services and the advertising status.

use vstd::prelude::*;
use std::collections::HashMap;
use tokio::sync::oneshot::{Receiver, Sender};
use crate::peripheral_manager::GattService;

verus! {

broadcast use vstd::std_specs::hash::group_hash_axioms;

/// `tokio::sync::oneshot::Sender`, carried opaquely.
#[verifier::external_type_specification]
#[verifier::external_body]
#[verifier::reject_recursive_types(T)]
pub struct ExOneshotSender<T>(tokio::sync::oneshot::Sender<T>);

/// `tokio::sync::oneshot::Receiver`, carried opaquely.
#[verifier::external_type_specification]
#[verifier::external_body]
#[verifier::reject_recursive_types(T)]
pub struct ExOneshotReceiver<T>(tokio::sync::oneshot::Receiver<T>);

/// `tokio::sync::oneshot::error::RecvError`, named by the receiver's
/// `Future` implementation.
#[verifier::external_type_specification]
#[verifier::external_body]
pub struct ExOneshotRecvError(tokio::sync::oneshot::error::RecvError);

/// `tokio::sync::oneshot::channel`: a fresh sender/receiver pair. Nothing is
/// stated of the pair: it is a new channel.
#[verifier::external_body]
pub(crate) fn oneshot_channel<T>() -> (Sender<T>, Receiver<T>) {
    tokio::sync::oneshot::channel()
}

/// `tokio::sync::oneshot::Sender::send`: hands `value` over to the receiving
/// side. Whether the receiver was still there depends on the other task; when
/// it was not, the crate gives the value back unchanged.
#[verifier::external_body]
pub(crate) fn send_response<T>(sender: Sender<T>, value: T) -> (r: Result<(), T>)
    ensures
        r matches Err(v) ==> v == value,
{
    sender.send(value)
}

/// The host's answer to a read request.
#[derive(Debug, Clone)]
pub struct ReadRequestResponse {
    pub value: Vec<u8>,
    pub success: bool,
}

/// The host's answer to a write request.
#[derive(Debug, Clone)]
pub struct WriteRequestResponse {
    pub success: bool,
}

/// An answer handed to the sender of a pending request: the request id and
/// the answer.
pub enum HandedAnswer {
    Read(u64, ReadRequestResponse),
    Write(u64, WriteRequestResponse),
}

/// State of the peripheral manager.
pub struct PeripheralManagerState {
    /// Read requests waiting for the host's answer, by request id.
    pub pending_read_requests: HashMap<u64, Sender<ReadRequestResponse>>,
    /// Write requests waiting for the host's answer, by request id.
    pub pending_write_requests: HashMap<u64, Sender<WriteRequestResponse>>,
    /// The next request id to hand out.
    pub request_counter: u64,
    /// Services added to the peripheral so far.
    pub services: Vec<GattService>,
    /// Whether the peripheral is advertising.
    pub is_advertising: bool,
    /// The name last used for advertising.
    pub device_name: Option<String>,
    /// The answers handed to the senders of pending requests so far, oldest
    /// first.
    pub handed: Ghost<Seq<HandedAnswer>>,
}

/// The counter after handing out an id: one more, wrapping around after
/// `u64::MAX`.
pub open spec fn next_counter(c: u64) -> u64 {
    if c == u64::MAX { 0 } else { (c + 1) as u64 }
}

impl PeripheralManagerState {
    /// The id that the next request will get.
    pub open spec fn counter(&self) -> u64 {
        self.request_counter
    }

    /// A manager with no pending request, no service, not advertising.
    pub fn new() -> (r: Self)
        ensures
            r.pending_read_requests@ == Map::<u64, Sender<ReadRequestResponse>>::empty(),
            r.pending_write_requests@ == Map::<u64, Sender<WriteRequestResponse>>::empty(),
            r.counter() == 0,
            r.services@ == Seq::<GattService>::empty(),
            !r.is_advertising,
            r.device_name.is_none(),
            r.handed@ == Seq::<HandedAnswer>::empty(),
    {
        Self {
            pending_read_requests: HashMap::new(),
            pending_write_requests: HashMap::new(),
            request_counter: 0,
            services: Vec::new(),
            is_advertising: false,
            device_name: None,
            handed: Ghost(Seq::empty()),
        }
    }

    /// Hands out a request id: the counter's value, which then advances by one
    /// (wrapping around after `u64::MAX`).
    pub fn next_request_id(&mut self) -> (id: u64)
        ensures
            id == old(self).counter(),
            final(self).counter() == next_counter(old(self).counter()),
            final(self).pending_read_requests == old(self).pending_read_requests,
            final(self).pending_write_requests == old(self).pending_write_requests,
            final(self).services == old(self).services,
            final(self).is_advertising == old(self).is_advertising,
            final(self).device_name == old(self).device_name,
            final(self).handed == old(self).handed,
    {
        let id = self.request_counter;
        self.request_counter = self.request_counter.wrapping_add(1);
        id
    }

    /// Records a read request that waits for an answer under `request_id`.
    pub fn add_read_request(&mut self, request_id: u64, sender: Sender<ReadRequestResponse>)
        ensures
            final(self).pending_read_requests@ == old(self).pending_read_requests@.insert(request_id, sender),
            final(self).pending_write_requests == old(self).pending_write_requests,
            final(self).counter() == old(self).counter(),
            final(self).services == old(self).services,
            final(self).is_advertising == old(self).is_advertising,
            final(self).device_name == old(self).device_name,
            final(self).handed == old(self).handed,
    {
        self.pending_read_requests.insert(request_id, sender);
    }

    /// Takes the read request `request_id` out of the pending ones and pairs
    /// the sender recorded under it with the host's answer: what is to be
    /// handed to that sender. `None` when no such request is pending.
    pub fn take_read_answer(&mut self, request_id: u64, response: ReadRequestResponse) -> (r: Option<(Sender<ReadRequestResponse>, ReadRequestResponse)>)
        ensures
            r is Some <==> old(self).pending_read_requests@.contains_key(request_id),
            r matches Some((sender, answer)) ==> sender == old(self).pending_read_requests@[request_id]
                && answer == response,
            final(self).pending_read_requests@ == old(self).pending_read_requests@.remove(request_id),
            final(self).pending_write_requests == old(self).pending_write_requests,
            final(self).counter() == old(self).counter(),
            final(self).services == old(self).services,
            final(self).is_advertising == old(self).is_advertising,
            final(self).device_name == old(self).device_name,
            final(self).handed == old(self).handed,
    {
        match self.pending_read_requests.remove(&request_id) {
            Some(sender) => Some((sender, response)),
            None => None,
        }
    }

    /// Answers the read request `request_id` and forgets it: the answer is
    /// handed to the sender recorded under that id. `false` when no such
    /// request is pending (or its requester is gone).
    pub fn complete_read_request(&mut self, request_id: u64, response: ReadRequestResponse) -> (r: bool)
        ensures
            final(self).pending_read_requests@ == old(self).pending_read_requests@.remove(request_id),
            r ==> old(self).pending_read_requests@.contains_key(request_id),
            final(self).pending_write_requests == old(self).pending_write_requests,
            final(self).counter() == old(self).counter(),
            final(self).services == old(self).services,
            final(self).is_advertising == old(self).is_advertising,
            final(self).device_name == old(self).device_name,
            old(self).pending_read_requests@.contains_key(request_id)
                ==> final(self).handed@ == old(self).handed@.push(HandedAnswer::Read(request_id, response)),
            !old(self).pending_read_requests@.contains_key(request_id) ==> final(self).handed == old(self).handed,
    {
        match self.take_read_answer(request_id, response) {
            Some((sender, answer)) => {
                proof {
                    self.handed@ = self.handed@.push(HandedAnswer::Read(request_id, answer));
                }
                send_response(sender, answer).is_ok()
            },
            None => false,
        }
    }

    /// Records a write request that waits for an answer under `request_id`.
    pub fn add_write_request(&mut self, request_id: u64, sender: Sender<WriteRequestResponse>)
        ensures
            final(self).pending_write_requests@ == old(self).pending_write_requests@.insert(request_id, sender),
            final(self).pending_read_requests == old(self).pending_read_requests,
            final(self).counter() == old(self).counter(),
            final(self).services == old(self).services,
            final(self).is_advertising == old(self).is_advertising,
            final(self).device_name == old(self).device_name,
            final(self).handed == old(self).handed,
    {
        self.pending_write_requests.insert(request_id, sender);
    }

    /// Takes the write request `request_id` out of the pending ones and pairs
    /// the sender recorded under it with the host's answer: what is to be
    /// handed to that sender. `None` when no such request is pending.
    pub fn take_write_answer(&mut self, request_id: u64, response: WriteRequestResponse) -> (r: Option<(Sender<WriteRequestResponse>, WriteRequestResponse)>)
        ensures
            r is Some <==> old(self).pending_write_requests@.contains_key(request_id),
            r matches Some((sender, answer)) ==> sender == old(self).pending_write_requests@[request_id]
                && answer == response,
            final(self).pending_write_requests@ == old(self).pending_write_requests@.remove(request_id),
            final(self).pending_read_requests == old(self).pending_read_requests,
            final(self).counter() == old(self).counter(),
            final(self).services == old(self).services,
            final(self).is_advertising == old(self).is_advertising,
            final(self).device_name == old(self).device_name,
            final(self).handed == old(self).handed,
    {
        match self.pending_write_requests.remove(&request_id) {
            Some(sender) => Some((sender, response)),
            None => None,
        }
    }

    /// Answers the write request `request_id` and forgets it: the answer is
    /// handed to the sender recorded under that id. `false` when no such
    /// request is pending (or its requester is gone).
    pub fn complete_write_request(&mut self, request_id: u64, response: WriteRequestResponse) -> (r: bool)
        ensures
            final(self).pending_write_requests@ == old(self).pending_write_requests@.remove(request_id),
            r ==> old(self).pending_write_requests@.contains_key(request_id),
            final(self).pending_read_requests == old(self).pending_read_requests,
            final(self).counter() == old(self).counter(),
            final(self).services == old(self).services,
            final(self).is_advertising == old(self).is_advertising,
            final(self).device_name == old(self).device_name,
            old(self).pending_write_requests@.contains_key(request_id)
                ==> final(self).handed@ == old(self).handed@.push(HandedAnswer::Write(request_id, response)),
            !old(self).pending_write_requests@.contains_key(request_id) ==> final(self).handed == old(self).handed,
    {
        match self.take_write_answer(request_id, response) {
            Some((sender, answer)) => {
                proof {
                    self.handed@ = self.handed@.push(HandedAnswer::Write(request_id, answer));
                }
                send_response(sender, answer).is_ok()
            },
            None => false,
        }
    }

    /// Forgets the read request `request_id` without answering it (its
    /// answer did not come in time).
    pub fn drop_read_request(&mut self, request_id: u64)
        ensures
            final(self).pending_read_requests@ == old(self).pending_read_requests@.remove(request_id),
            final(self).pending_write_requests == old(self).pending_write_requests,
            final(self).counter() == old(self).counter(),
            final(self).services == old(self).services,
            final(self).is_advertising == old(self).is_advertising,
            final(self).device_name == old(self).device_name,
            final(self).handed == old(self).handed,
    {
        self.pending_read_requests.remove(&request_id);
    }

    /// Forgets the write request `request_id` without answering it.
    pub fn drop_write_request(&mut self, request_id: u64)
        ensures
            final(self).pending_write_requests@ == old(self).pending_write_requests@.remove(request_id),
            final(self).pending_read_requests == old(self).pending_read_requests,
            final(self).counter() == old(self).counter(),
            final(self).services == old(self).services,
            final(self).is_advertising == old(self).is_advertising,
            final(self).device_name == old(self).device_name,
            final(self).handed == old(self).handed,
    {
        self.pending_write_requests.remove(&request_id);
    }

    /// Gives a new read request an id and records `sender` as the end on which
    /// its answer is to be handed over; returns the id with `receiver`, the
    /// end on which the requester waits.
    pub fn record_read_request(&mut self, sender: Sender<ReadRequestResponse>, receiver: Receiver<ReadRequestResponse>) -> (r: (u64, Receiver<ReadRequestResponse>))
        ensures
            r.0 == old(self).counter(),
            r.1 == receiver,
            final(self).counter() == next_counter(old(self).counter()),
            final(self).pending_read_requests@ == old(self).pending_read_requests@.insert(r.0, sender),
            final(self).pending_write_requests == old(self).pending_write_requests,
            final(self).services == old(self).services,
            final(self).is_advertising == old(self).is_advertising,
            final(self).device_name == old(self).device_name,
            final(self).handed == old(self).handed,
    {
        let id = self.next_request_id();
        self.add_read_request(id, sender);
        (id, receiver)
    }

    /// Gives a new read request an id, records it as pending and returns the
    /// id with the receiving end on which its answer will arrive.
    pub fn register_read_request(&mut self) -> (r: (u64, Receiver<ReadRequestResponse>))
        ensures
            r.0 == old(self).counter(),
            final(self).counter() == next_counter(old(self).counter()),
            final(self).pending_read_requests@.dom() == old(self).pending_read_requests@.dom().insert(r.0),
            forall|k: u64| k != r.0 && #[trigger] old(self).pending_read_requests@.contains_key(k)
                ==> final(self).pending_read_requests@[k] == old(self).pending_read_requests@[k],
            final(self).pending_write_requests == old(self).pending_write_requests,
            final(self).services == old(self).services,
            final(self).is_advertising == old(self).is_advertising,
            final(self).device_name == old(self).device_name,
            final(self).handed == old(self).handed,
    {
        let (tx, rx) = oneshot_channel::<ReadRequestResponse>();
        self.record_read_request(tx, rx)
    }

    /// Gives a new write request an id and records `sender` as the end on which
    /// its answer is to be handed over; returns the id with `receiver`, the
    /// end on which the requester waits.
    pub fn record_write_request(&mut self, sender: Sender<WriteRequestResponse>, receiver: Receiver<WriteRequestResponse>) -> (r: (u64, Receiver<WriteRequestResponse>))
        ensures
            r.0 == old(self).counter(),
            r.1 == receiver,
            final(self).counter() == next_counter(old(self).counter()),
            final(self).pending_write_requests@ == old(self).pending_write_requests@.insert(r.0, sender),
            final(self).pending_read_requests == old(self).pending_read_requests,
            final(self).services == old(self).services,
            final(self).is_advertising == old(self).is_advertising,
            final(self).device_name == old(self).device_name,
            final(self).handed == old(self).handed,
    {
        let id = self.next_request_id();
        self.add_write_request(id, sender);
        (id, receiver)
    }

    /// Gives a new write request an id, records it as pending and returns the
    /// id with the receiving end on which its answer will arrive.
    pub fn register_write_request(&mut self) -> (r: (u64, Receiver<WriteRequestResponse>))
        ensures
            r.0 == old(self).counter(),
            final(self).counter() == next_counter(old(self).counter()),
            final(self).pending_write_requests@.dom() == old(self).pending_write_requests@.dom().insert(r.0),
            forall|k: u64| k != r.0 && #[trigger] old(self).pending_write_requests@.contains_key(k)
                ==> final(self).pending_write_requests@[k] == old(self).pending_write_requests@[k],
            final(self).pending_read_requests == old(self).pending_read_requests,
            final(self).services == old(self).services,
            final(self).is_advertising == old(self).is_advertising,
            final(self).device_name == old(self).device_name,
            final(self).handed == old(self).handed,
    {
        let (tx, rx) = oneshot_channel::<WriteRequestResponse>();
        self.record_write_request(tx, rx)
    }
}


/// Once a request was answered (or dropped) it is no longer pending, so a
/// second answer to it is refused.
pub proof fn lemma_request_answered_once<S>(pending: Map<u64, S>, request_id: u64)
    ensures
        !pending.remove(request_id).contains_key(request_id),
{
}

/// Two requests registered one after the other get different ids.
pub proof fn lemma_consecutive_ids_differ(counter: u64)
    ensures
        counter != next_counter(counter),
{
}

/// The counter after `k` requests, starting from `start`.
pub open spec fn counter_after(start: u64, k: nat) -> u64
    decreases k,
{
    if k == 0 { start } else { next_counter(counter_after(start, (k - 1) as nat)) }
}

/// A new manager (counter 0) gives its request number `k` (counting from 0)
/// the id `k`, taken modulo 2^64.
pub proof fn lemma_request_ids_count_up(k: nat)
    ensures
        counter_after(0, k) == (k % 0x1_0000_0000_0000_0000) as u64,
    decreases k,
{
    if k > 0 {
        lemma_request_ids_count_up((k - 1) as nat);
        let m: int = 0x1_0000_0000_0000_0000;
        let p: int = (k - 1) as int;
        assert(p % m == m - 1 ==> (p + 1) % m == 0) by (nonlinear_arith)
            requires m == 0x1_0000_0000_0000_0000, p >= 0;
        assert(p % m < m - 1 ==> (p + 1) % m == p % m + 1) by (nonlinear_arith)
            requires m == 0x1_0000_0000_0000_0000, p >= 0;
        assert(0 <= p % m < m) by (nonlinear_arith)
            requires m == 0x1_0000_0000_0000_0000, p >= 0;
    }
}

/// The first 2^64 requests of a new manager get pairwise different ids.
pub proof fn lemma_request_ids_distinct(i: nat, j: nat)
    requires
        i < j < 0x1_0000_0000_0000_0000,
    ensures
        counter_after(0, i) != counter_after(0, j),
{
    lemma_request_ids_count_up(i);
    lemma_request_ids_count_up(j);
}

/// A change of the pending requests of one kind: a request recorded under an
/// id with its sender ([`PeripheralManagerState::record_read_request`]), or
/// the request under an id taken out (answered or dropped).
pub enum PendingChange<S> {
    Record(u64, S),
    Take(u64),
}

/// The pending requests after the changes `changes`, in order.
pub open spec fn pending_after<S>(pending: Map<u64, S>, changes: Seq<PendingChange<S>>) -> Map<u64, S>
    decreases changes.len(),
{
    if changes.len() == 0 {
        pending
    } else {
        let before = pending_after(pending, changes.drop_last());
        match changes.last() {
            PendingChange::Record(id, sender) => before.insert(id, sender),
            PendingChange::Take(id) => before.remove(id),
        }
    }
}

/// Whether a change is about the request `id`.
pub open spec fn touches<S>(change: PendingChange<S>, id: u64) -> bool {
    match change {
        PendingChange::Record(k, _) => k == id,
        PendingChange::Take(k) => k == id,
    }
}

/// The answer to request `n` reaches the request registered as `n`: once its
/// sender is recorded under `n`, recording and answering other requests
/// leave it there, so taking the answer for `n` hands it to that sender.
pub proof fn lemma_answer_reaches_its_request<S>(pending: Map<u64, S>, n: u64, sender: S, changes: Seq<PendingChange<S>>)
    requires
        forall|i: int| 0 <= i < changes.len() ==> !touches(#[trigger] changes[i], n),
    ensures
        pending_after(pending.insert(n, sender), changes).contains_key(n),
        pending_after(pending.insert(n, sender), changes)[n] == sender,
    decreases changes.len(),
{
    if changes.len() > 0 {
        let prev = changes.drop_last();
        assert forall|i: int| 0 <= i < prev.len() implies !touches(#[trigger] prev[i], n) by {
            assert(prev[i] == changes[i]);
        }
        lemma_answer_reaches_its_request(pending, n, sender, prev);
        assert(!touches(changes[changes.len() - 1], n));
    }
}

} // verus!

//! The pump: the state that the write loop and the read loop share, and what
//! each of them decides.
//!
//! The loops themselves wait on the request queue and on the channel, which
//! is not this module's business. What they do between two waits is: the
//! write loop hands over what it took from the queue and is told what to
//! write; the read loop hands over a payload it has read and the answer is
//! routed to the caller that waits for it.
use vstd::prelude::*;
use std::collections::HashMap;
use crate::error::{AuthResult, ProtocolError};
use crate::frame::{shutdown_frame, spec_frame, spec_shutdown_frame, try_frame, MAX_PAYLOAD};
use crate::reply::{ReplyReceiver, ReplySlot};
use crate::wire::{
    decode_response, encode_request, spec_decode_response, spec_request_wire, PamRequest,
    PamResponse, RequestModel,
};

verus! {

/// What travels over the request queue: a request and the slot for its
/// answer.
pub struct PamRequest1 {
    pub req: PamRequest,
    pub resp_chan: ReplySlot,
}

/// The id that follows `id`. The counter wraps at its numeric limit.
pub open spec fn spec_next_id(id: u64) -> u64 {
    if id == u64::MAX {
        0
    } else {
        (id + 1) as u64
    }
}

/// The counter from which the write loop numbers the requests.
pub struct RequestIds {
    next: u64,
}

impl RequestIds {
    /// The id that the next request will get.
    pub closed spec fn spec_next(&self) -> u64 {
        self.next
    }

    /// A counter that starts at 0.
    pub fn new() -> (ids: RequestIds)
        ensures
            ids.spec_next() == 0,
    {
        RequestIds { next: 0 }
    }

    /// The id that the next request will get.
    pub fn peek(&self) -> (id: u64)
        ensures
            id == self.spec_next(),
    {
        self.next
    }

    /// Takes the next id.
    pub fn assign(&mut self) -> (id: u64)
        ensures
            id == old(self).spec_next(),
            final(self).spec_next() == spec_next_id(id),
    {
        let id = self.next;
        self.next = id.wrapping_add(1);
        id
    }
}

/// An answer on its way to the caller that waits for it.
pub struct Reply {
    pub slot: ReplySlot,
    pub result: AuthResult,
}

impl Reply {
    /// Fulfils the slot with the answer. A caller that has gone away is no
    /// error: the answer it did not take comes back unchanged.
    pub fn deliver(self) -> (untaken: Result<(), AuthResult>)
        ensures
            untaken matches Err(back) ==> back == self.result,
    {
        self.slot.send(self.result)
    }
}

/// What the read loop did with a response.
#[derive(Debug, Clone, Copy, PartialEq, Eq, Structural)]
pub enum Dispatch {
    /// The caller that waited for this id has its answer.
    Delivered(u64),
    /// A caller waited for this id but was gone when the answer came.
    Abandoned(u64),
    /// No caller waited for this id: the response was discarded.
    Unknown(u64),
}

impl Dispatch {
    /// The id of the response.
    pub open spec fn spec_id(self) -> u64 {
        match self {
            Dispatch::Delivered(id) => id,
            Dispatch::Abandoned(id) => id,
            Dispatch::Unknown(id) => id,
        }
    }

    /// The id of the response.
    #[verifier::when_used_as_spec(spec_id)]
    pub fn id(self) -> (id: u64)
        ensures
            id == self.spec_id(),
    {
        match self {
            Dispatch::Delivered(id) => id,
            Dispatch::Abandoned(id) => id,
            Dispatch::Unknown(id) => id,
        }
    }
}

/// What the write loop is to do next.
pub enum WriteAction {
    /// Write these bytes, one request frame, and go on with the next request.
    /// If the write fails the loop is over.
    Write(Vec<u8>),
    /// Write these bytes, the shutdown signal, and end the loop whether or
    /// not the write succeeds.
    Shutdown(Vec<u8>),
    /// The request cannot be sent as it is: the process must not go on.
    Abort(ProtocolError),
}

/// A [`WriteAction`] as a mathematical value.
pub enum WriteActionModel {
    Write(Seq<u8>),
    Shutdown(Seq<u8>),
    Abort(ProtocolError),
}

impl View for WriteAction {
    type V = WriteActionModel;

    open spec fn view(&self) -> WriteActionModel {
        match self {
            WriteAction::Write(bytes) => WriteActionModel::Write(bytes@),
            WriteAction::Shutdown(bytes) => WriteActionModel::Shutdown(bytes@),
            WriteAction::Abort(e) => WriteActionModel::Abort(*e),
        }
    }
}

/// The request `req` as it leaves under the id `id`.
pub open spec fn spec_numbered(req: RequestModel, id: u64) -> RequestModel {
    RequestModel { id, ..req }
}

/// What the write loop does with a request that leaves under id `id`:
/// it writes the request's frame, unless the payload is too long for one.
pub open spec fn spec_write_action(req: RequestModel, id: u64) -> WriteActionModel {
    let payload = spec_request_wire(spec_numbered(req, id));
    if payload.len() <= MAX_PAYLOAD {
        WriteActionModel::Write(spec_frame(payload))
    } else {
        WriteActionModel::Abort(ProtocolError::Oversized)
    }
}

/// What becomes of the pending slots, and who gets what, when the response
/// `resp` arrives: the slot registered under its id leaves the table and is
/// paired with the result; a response for an id that is not pending changes
/// nothing.
pub open spec fn spec_route<S>(pending: Map<u64, S>, resp: PamResponse) -> (Map<u64, S>, Option<
    (S, AuthResult),
>) {
    if pending.contains_key(resp.id) {
        (pending.remove(resp.id), Some((pending[resp.id], resp.result)))
    } else {
        (pending, None)
    }
}

/// State shared by the two loops: the callers that wait for a response, each
/// under the id of its request.
pub struct PamAuthTaskBg {
    waiters: HashMap<u64, ReplySlot>,
}

impl View for PamAuthTaskBg {
    type V = Map<u64, ReplySlot>;

    closed spec fn view(&self) -> Map<u64, ReplySlot> {
        self.waiters@
    }
}

impl PamAuthTaskBg {
    /// A table in which nobody waits.
    pub fn new() -> (bg: PamAuthTaskBg)
        ensures
            bg@ == Map::<u64, ReplySlot>::empty(),
    {
        PamAuthTaskBg { waiters: HashMap::new() }
    }

    /// The number of callers that wait.
    pub fn pending(&self) -> (n: usize)
        ensures
            n == self@.len(),
            self@.dom().finite(),
    {
        broadcast use vstd::std_specs::hash::group_hash_axioms;

        self.waiters.len()
    }

    /// Whether a caller waits under `id`.
    pub fn is_pending(&self, id: u64) -> (b: bool)
        ensures
            b == self@.contains_key(id),
    {
        broadcast use vstd::std_specs::hash::group_hash_axioms;

        self.waiters.contains_key(&id)
    }

    /// Registers `slot` under `id`. A slot that was registered under the same
    /// id is dropped, so that its caller's wait fails.
    pub fn insert(&mut self, id: u64, slot: ReplySlot)
        ensures
            final(self)@ == old(self)@.insert(id, slot),
    {
        broadcast use vstd::std_specs::hash::group_hash_axioms;

        let _ = self.waiters.insert(id, slot);
    }

    /// Takes out the slot registered under `id`, if there is one.
    pub fn remove(&mut self, id: u64) -> (slot: Option<ReplySlot>)
        ensures
            final(self)@ == old(self)@.remove(id),
            slot == if old(self)@.contains_key(id) {
                Some(old(self)@[id])
            } else {
                None
            },
    {
        broadcast use vstd::std_specs::hash::group_hash_axioms;

        self.waiters.remove(&id)
    }

    /// Drops every slot that is still registered: each caller that still
    /// waits sees its wait fail.
    pub fn release(&mut self)
        ensures
            final(self)@ == Map::<u64, ReplySlot>::empty(),
    {
        self.waiters.clear();
    }
}

impl PamAuthTaskBg {
    /// One turn of the write loop. `next` is what the request queue gave:
    /// a request with its reply slot, or nothing once every handle is gone.
    ///
    /// With the queue closed the loop ends with the shutdown signal, and
    /// nothing else changes. A request gets the next id, its slot is
    /// registered under that id, and the action is to write the request's
    /// frame. A request too long for a frame is never cut short: the action
    /// is to abort.
    pub fn handle_request(&mut self, ids: &mut RequestIds, next: Option<PamRequest1>) -> (action:
        WriteAction)
        ensures
            match next {
                None => {
                    &&& action@ == WriteActionModel::Shutdown(spec_shutdown_frame())
                    &&& final(self)@ == old(self)@
                    &&& final(ids).spec_next() == old(ids).spec_next()
                },
                Some(r1) => {
                    let id = old(ids).spec_next();
                    &&& action@ == spec_write_action(r1.req@, id)
                    &&& final(self)@ == old(self)@.insert(id, r1.resp_chan)
                    &&& final(ids).spec_next() == spec_next_id(id)
                },
            },
    {
        match next {
            None => {
                let signal = shutdown_frame();
                let mut bytes: Vec<u8> = Vec::with_capacity(2);
                bytes.push(signal[0]);
                bytes.push(signal[1]);
                assert(bytes@ =~= spec_shutdown_frame());
                WriteAction::Shutdown(bytes)
            },
            Some(r1) => {
                let PamRequest1 { req, resp_chan } = r1;
                let mut req = req;
                let ghost before = req@;
                req.id = ids.assign();
                assert(req@ == spec_numbered(before, req.id));
                self.insert(req.id, resp_chan);
                match encode_request(&req) {
                    Ok(payload) => match try_frame(payload) {
                        Some(framed) => WriteAction::Write(framed),
                        None => WriteAction::Abort(ProtocolError::Oversized),
                    },
                    Err(e) => WriteAction::Abort(e),
                }
            },
        }
    }

    /// Takes the slot that waits for `resp` out of the table and pairs it
    /// with the result that `resp` carries. A response whose id nobody waits
    /// for yields nothing and changes nothing.
    pub fn claim(&mut self, resp: &PamResponse) -> (reply: Option<Reply>)
        ensures
            final(self)@ == spec_route(old(self)@, *resp).0,
            match (reply, spec_route(old(self)@, *resp).1) {
                (Some(r), Some(want)) => r.slot == want.0 && r.result == want.1,
                (None, None) => true,
                _ => false,
            },
    {
        match self.remove(resp.id) {
            Some(slot) => Some(Reply { slot, result: resp.result }),
            None => {
                assert(self@ =~= old(self)@);
                None
            },
        }
    }

    /// One turn of the read loop. `payload` is what a frame from the worker
    /// carried.
    ///
    /// A payload that is no response is reported and changes nothing.
    /// Otherwise the caller that waits under the response's id leaves the
    /// table and is handed the result; a response that nobody waits for is
    /// discarded.
    pub fn handle_response(&mut self, payload: &[u8]) -> (r: Result<Dispatch, ProtocolError>)
        ensures
            match spec_decode_response(payload@) {
                None => {
                    &&& r == Err::<Dispatch, ProtocolError>(ProtocolError::Malformed)
                    &&& final(self)@ == old(self)@
                },
                Some(resp) => {
                    &&& final(self)@ == spec_route(old(self)@, resp).0
                    &&& r matches Ok(d) && d.spec_id() == resp.id && (d is Unknown
                        <==> !old(self)@.contains_key(resp.id))
                },
            },
    {
        let resp = match decode_response(payload) {
            Ok(resp) => resp,
            Err(e) => {
                return Err(e);
            },
        };
        match self.claim(&resp) {
            Some(reply) => {
                match reply.deliver() {
                    Ok(_) => Ok(Dispatch::Delivered(resp.id)),
                    Err(_) => Ok(Dispatch::Abandoned(resp.id)),
                }
            },
            None => Ok(Dispatch::Unknown(resp.id)),
        }
    }
}

} // verus!

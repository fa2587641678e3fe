//! The caller's side of an authentication attempt: what is put on the request
//! queue, what the attempt comes to, and the guard that starts the pump on
//! first use.
use vstd::prelude::*;
use crate::error::{AuthResult, PamError, ERR_RECV_FROM_SERVER, ERR_SEND_TO_SERVER};
use crate::pump::PamRequest1;
use crate::reply::ReplyReceiver;
use crate::wire::{PamRequest, RequestModel};

verus! {

/// The request that an attempt starts from. Its id is a placeholder: the
/// write loop numbers the requests.
pub open spec fn spec_new_request(
    service: Seq<char>,
    username: Seq<char>,
    password: Seq<char>,
    remoteip: Option<Seq<char>>,
) -> RequestModel {
    RequestModel { id: 0, user: username, pass: password, service, remip: remoteip }
}

impl PamRequest {
    /// The request for one authentication attempt, not yet numbered.
    pub fn new(service: &str, username: &str, password: &str, remoteip: Option<&str>) -> (req:
        PamRequest)
        ensures
            req@ == spec_new_request(
                service@,
                username@,
                password@,
                match remoteip {
                    Some(ip) => Some(ip@),
                    None => None,
                },
            ),
    {
        PamRequest {
            id: 0,
            user: username.to_owned(),
            pass: password.to_owned(),
            service: service.to_owned(),
            remip: match remoteip {
                Some(ip) => Some(ip.to_owned()),
                None => None,
            },
        }
    }
}

impl PamRequest1 {
    /// What one authentication attempt puts on the request queue, together
    /// with the receiving half of its fresh reply slot, on which the caller
    /// then waits.
    pub fn new(service: &str, username: &str, password: &str, remoteip: Option<&str>) -> (r: (
        PamRequest1,
        ReplyReceiver,
    ))
        ensures
            r.0.req@ == spec_new_request(
                service@,
                username@,
                password@,
                match remoteip {
                    Some(ip) => Some(ip@),
                    None => None,
                },
            ),
    {
        let req = PamRequest::new(service, username, password, remoteip);
        let (tx, rx) = futures::channel::oneshot::channel::<AuthResult>();
        (PamRequest1 { req, resp_chan: tx }, rx)
    }
}

/// What the caller's wait on its reply slot came to: the worker's verdict as
/// it arrived, or, where the slot was dropped unfulfilled, the transport error
/// [`ERR_RECV_FROM_SERVER`].
pub fn recv_outcome(received: Result<AuthResult, futures::channel::oneshot::Canceled>) -> (r:
    AuthResult)
    ensures
        r == match received {
            Ok(verdict) => verdict,
            Err(_) => Err::<(), PamError>(PamError(ERR_RECV_FROM_SERVER)),
        },
{
    match received {
        Ok(verdict) => verdict,
        Err(_) => Err(PamError(ERR_RECV_FROM_SERVER)),
    }
}

/// What handing a request to the pump came to: nothing to report where the
/// pump took it, the transport error [`ERR_SEND_TO_SERVER`] where the pump's
/// receiving end is gone.
pub fn send_outcome(sent: Result<(), futures::channel::mpsc::SendError>) -> (r: AuthResult)
    ensures
        r == match sent {
            Ok(_) => Ok::<(), PamError>(()),
            Err(_) => Err::<(), PamError>(PamError(ERR_SEND_TO_SERVER)),
        },
{
    match sent {
        Ok(_) => Ok(()),
        Err(_) => Err(PamError(ERR_SEND_TO_SERVER)),
    }
}

/// The pump's unit of work, held until the first attempt starts it.
pub struct PamAuthTaskOnce<T> {
    task: Option<T>,
}

impl<T> View for PamAuthTaskOnce<T> {
    type V = Option<T>;

    closed spec fn view(&self) -> Option<T> {
        self.task
    }
}

impl<T> PamAuthTaskOnce<T> {
    /// Holds `task` for the first attempt.
    pub fn new(task: T) -> (once: PamAuthTaskOnce<T>)
        ensures
            once@ == Some(task),
    {
        PamAuthTaskOnce { task: Some(task) }
    }

    /// Whether the task has been handed out.
    pub fn started(&self) -> (b: bool)
        ensures
            b == (self@ is None),
    {
        self.task.is_none()
    }

    /// Hands out the task to whoever asks first. Everyone after that gets
    /// nothing, so the task is started at most once.
    pub fn start(&mut self) -> (task: Option<T>)
        ensures
            task == old(self)@,
            final(self)@ is None,
    {
        self.task.take()
    }
}

} // verus!

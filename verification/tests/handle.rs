use futures::channel::{mpsc, oneshot};
use pam_sandboxed::error::{PamError, ProtocolError, ERR_RECV_FROM_SERVER, ERR_SEND_TO_SERVER};
use pam_sandboxed::handle::{recv_outcome, send_outcome, PamAuthTaskOnce};
use pam_sandboxed::pump::PamRequest1;
use pam_sandboxed::wire::PamRequest;

#[test]
fn new_request_has_placeholder_id_and_given_fields() {
    let req = PamRequest::new("other", "alice", "secret", Some("10.0.0.1"));
    assert_eq!(
        req,
        PamRequest {
            id: 0,
            user: "alice".to_string(),
            pass: "secret".to_string(),
            service: "other".to_string(),
            remip: Some("10.0.0.1".to_string()),
        }
    );
    let req = PamRequest::new("login", "bob", "", None);
    assert_eq!(
        req,
        PamRequest {
            id: 0,
            user: "bob".to_string(),
            pass: String::new(),
            service: "login".to_string(),
            remip: None,
        }
    );
}

#[test]
fn queued_request_comes_with_a_connected_slot() {
    let (r1, mut rx) = PamRequest1::new("other", "alice", "secret", None);
    assert_eq!(r1.req, PamRequest::new("other", "alice", "secret", None));
    assert!(r1.resp_chan.is_connected_to(&rx));
    assert_eq!(rx.try_recv(), Ok(None));
    assert_eq!(r1.resp_chan.send(Err(PamError(9))), Ok(()));
    assert_eq!(rx.try_recv(), Ok(Some(Err(PamError(9)))));
}

#[test]
fn received_verdict_is_passed_through_unchanged() {
    assert_eq!(recv_outcome(Ok(Ok(()))), Ok(()));
    assert_eq!(recv_outcome(Ok(Err(PamError(7)))), Err(PamError(7)));
    assert_eq!(recv_outcome(Ok(Err(PamError(-1)))), Err(PamError(-1)));
}

#[test]
fn dropped_slot_is_a_receive_error() {
    assert_eq!(recv_outcome(Err(oneshot::Canceled)), Err(PamError(ERR_RECV_FROM_SERVER)));
    let (r1, rx) = PamRequest1::new("other", "alice", "secret", None);
    drop(r1);
    let waited = futures::executor::block_on(rx);
    assert_eq!(recv_outcome(waited), Err(PamError(ERR_RECV_FROM_SERVER)));
}

#[test]
fn closed_queue_is_a_send_error() {
    assert_eq!(send_outcome(Ok(())), Ok(()));
    let (mut tx, rx) = mpsc::channel::<u8>(0);
    drop(rx);
    let sent = tx.try_send(1).map_err(|e| e.into_send_error());
    assert!(sent.is_err());
    assert_eq!(send_outcome(sent), Err(PamError(ERR_SEND_TO_SERVER)));
}

#[test]
fn transport_codes_are_told_apart_from_worker_codes() {
    assert!(PamError(ERR_RECV_FROM_SERVER).is_transport());
    assert!(PamError(ERR_SEND_TO_SERVER).is_transport());
    assert!(!PamError(7).is_transport());
    assert!(!PamError(0).is_transport());
    assert_ne!(ERR_RECV_FROM_SERVER, ERR_SEND_TO_SERVER);
    assert_eq!(PamError(42).code(), 42);
    assert_ne!(ProtocolError::Oversized, ProtocolError::Malformed);
}

#[test]
fn task_is_handed_out_exactly_once() {
    let mut once = PamAuthTaskOnce::new("pump");
    assert!(!once.started());
    assert_eq!(once.start(), Some("pump"));
    assert!(once.started());
    assert_eq!(once.start(), None);
    assert_eq!(once.start(), None);
    assert!(once.started());
}

//! Payloads: how a request and a response are laid out in bytes.
//!
//! The layout is bincode's fixed-width little-endian one. Integers take their
//! full width, a string is its UTF-8 length as a `u64` followed by its bytes,
//! an optional value is one tag byte (0 or 1) followed by the value if there
//! is one, and an enum is its variant's index as a `u32` followed by the
//! variant's content. Fields follow one another with nothing in between.
use vstd::prelude::*;
use vstd::bytes::{spec_u32_to_le_bytes, spec_u64_to_le_bytes};
use vstd::utf8::encode_utf8;
use crate::error::{AuthResult, PamError, ProtocolError};
use crate::wire_laws::{lemma_decode_request_is, lemma_decode_response_is};

verus! {

/// Request to be sent to the worker.
#[derive(Debug, Clone, PartialEq, Eq)]
pub struct PamRequest {
    pub id: u64,
    pub user: String,
    pub pass: String,
    pub service: String,
    pub remip: Option<String>,
}

/// Answer of the worker to the request with the same `id`.
#[derive(Debug, Clone, Copy, PartialEq, Eq)]
pub struct PamResponse {
    pub id: u64,
    pub result: AuthResult,
}

/// A request as a mathematical value.
pub struct RequestModel {
    pub id: u64,
    pub user: Seq<char>,
    pub pass: Seq<char>,
    pub service: Seq<char>,
    pub remip: Option<Seq<char>>,
}

impl View for PamRequest {
    type V = RequestModel;

    open spec fn view(&self) -> RequestModel {
        RequestModel {
            id: self.id,
            user: self.user@,
            pass: self.pass@,
            service: self.service@,
            remip: match self.remip {
                Some(s) => Some(s@),
                None => None,
            },
        }
    }
}

impl RequestModel {
    /// Every string is short enough for its length to fit the 64-bit length
    /// field. This holds of every request that exists in memory.
    pub open spec fn wf(self) -> bool {
        &&& spec_str_fits(self.user)
        &&& spec_str_fits(self.pass)
        &&& spec_str_fits(self.service)
        &&& self.remip matches Some(ip) ==> spec_str_fits(ip)
    }
}

/// Whether the UTF-8 length of `s` fits the 64-bit length field.
pub open spec fn spec_str_fits(s: Seq<char>) -> bool {
    encode_utf8(s).len() <= u64::MAX
}

/// A string on the wire: the number of its UTF-8 bytes, then the bytes.
pub open spec fn spec_str_wire(s: Seq<char>) -> Seq<u8> {
    spec_u64_to_le_bytes(encode_utf8(s).len() as u64) + encode_utf8(s)
}

/// An optional string on the wire: a tag byte, then the string if present.
pub open spec fn spec_opt_str_wire(s: Option<Seq<char>>) -> Seq<u8> {
    match s {
        None => seq![0u8],
        Some(s) => seq![1u8] + spec_str_wire(s),
    }
}

/// The payload of a request.
pub open spec fn spec_request_wire(req: RequestModel) -> Seq<u8> {
    spec_u64_to_le_bytes(req.id) + spec_str_wire(req.user) + spec_str_wire(req.pass)
        + spec_str_wire(req.service) + spec_opt_str_wire(req.remip)
}

/// An authentication result on the wire: variant 0 for success, variant 1
/// with the error code for failure.
pub open spec fn spec_result_wire(result: AuthResult) -> Seq<u8> {
    match result {
        Ok(_) => spec_u32_to_le_bytes(0u32),
        Err(e) => spec_u32_to_le_bytes(1u32) + spec_u32_to_le_bytes(e.0 as u32),
    }
}

/// The payload of a response.
pub open spec fn spec_response_wire(resp: PamResponse) -> Seq<u8> {
    spec_u64_to_le_bytes(resp.id) + spec_result_wire(resp.result)
}

/// Whether `bytes` begin with the payload of `req`. Bytes after the payload
/// are not looked at.
pub open spec fn spec_reads_as_request(bytes: Seq<u8>, req: RequestModel) -> bool {
    req.wf() && spec_request_wire(req).is_prefix_of(bytes)
}

/// Whether `bytes` begin with the payload of `resp`.
pub open spec fn spec_reads_as_response(bytes: Seq<u8>, resp: PamResponse) -> bool {
    spec_response_wire(resp).is_prefix_of(bytes)
}

/// The request that `bytes` begin with, if they begin with one.
pub open spec fn spec_decode_request(bytes: Seq<u8>) -> Option<RequestModel> {
    if exists|req: RequestModel| spec_reads_as_request(bytes, req) {
        Some(choose|req: RequestModel| spec_reads_as_request(bytes, req))
    } else {
        None
    }
}

/// The response that `bytes` begin with, if they begin with one.
pub open spec fn spec_decode_response(bytes: Seq<u8>) -> Option<PamResponse> {
    if exists|resp: PamResponse| spec_reads_as_response(bytes, resp) {
        Some(choose|resp: PamResponse| spec_reads_as_response(bytes, resp))
    } else {
        None
    }
}

/// `bincode::ErrorKind`, the error of the encoder and of the decoder. It is
/// carried, never looked into.
#[verifier::external_type_specification]
#[verifier::external_body]
pub struct ExBincodeErrorKind(bincode::ErrorKind);

/// `bincode::serialize` applied to the fields of a request in their wire
/// order. With no size limit set and a `Vec` as the sink the call has no way
/// to fail for integers, strings and options, and what it writes is the
/// layout described at the top of this module.
#[verifier::external_body]
fn bincode_serialize_request(req: &PamRequest) -> (r: Result<Vec<u8>, Box<bincode::ErrorKind>>)
    ensures
        r is Ok,
        r matches Ok(bytes) ==> bytes@ == spec_request_wire(req@),
{
    bincode::serialize(&(req.id, &req.user, &req.pass, &req.service, &req.remip))
}

/// `bincode::serialize` applied to the two fields of a response in their wire
/// order, the error reduced to its code. As for a request, the call cannot
/// fail on these types and writes the layout described at the top of this
/// module.
#[verifier::external_body]
fn bincode_serialize_response(resp: &PamResponse) -> (r: Result<Vec<u8>, Box<bincode::ErrorKind>>)
    ensures
        r is Ok,
        r matches Ok(bytes) ==> bytes@ == spec_response_wire(*resp),
{
    bincode::serialize(&(resp.id, resp.result.map_err(|e| e.0)))
}

/// `bincode::deserialize` for the five fields of a request. The call reads
/// the fields from the front of `bytes` and ignores what follows them. It
/// succeeds exactly when `bytes` begin with the payload of some request, and
/// then returns that request; a short input, a tag byte other than 0 or 1 and
/// a string that is not UTF-8 are its errors.
#[verifier::external_body]
fn bincode_deserialize_request(bytes: &[u8]) -> (r: Result<PamRequest, Box<bincode::ErrorKind>>)
    ensures
        match r {
            Ok(req) => spec_request_wire(req@).is_prefix_of(bytes@),
            Err(_) => forall|m: RequestModel| !spec_reads_as_request(bytes@, m),
        },
{
    bincode::deserialize::<(u64, String, String, String, Option<String>)>(bytes).map(
        |(id, user, pass, service, remip)| PamRequest { id, user, pass, service, remip },
    )
}

/// `bincode::deserialize` for the two fields of a response. The call reads
/// them from the front of `bytes` and ignores what follows. It succeeds
/// exactly when `bytes` begin with the payload of some response, and then
/// returns that response; a short input and a variant index other than 0 or 1
/// are its errors.
#[verifier::external_body]
fn bincode_deserialize_response(bytes: &[u8]) -> (r: Result<PamResponse, Box<bincode::ErrorKind>>)
    ensures
        match r {
            Ok(resp) => spec_reads_as_response(bytes@, resp),
            Err(_) => forall|m: PamResponse| !spec_reads_as_response(bytes@, m),
        },
{
    bincode::deserialize::<(u64, Result<(), i32>)>(bytes).map(
        |(id, result)| PamResponse { id, result: result.map_err(PamError) },
    )
}

/// Turns the encoder's outcome into the library's: the bytes as they are, or
/// [`ProtocolError::EncodeFailed`].
pub fn payload_of(outcome: Result<Vec<u8>, Box<bincode::ErrorKind>>) -> (r: Result<
    Vec<u8>,
    ProtocolError,
>)
    ensures
        match outcome {
            Ok(bytes) => r == Ok::<Vec<u8>, ProtocolError>(bytes),
            Err(_) => r == Err::<Vec<u8>, ProtocolError>(ProtocolError::EncodeFailed),
        },
{
    match outcome {
        Ok(bytes) => Ok(bytes),
        Err(_) => Err(ProtocolError::EncodeFailed),
    }
}

/// Establishes that a string held in memory fits the length field.
fn note_str_fits(s: &String)
    ensures
        spec_str_fits(s@),
{
    let n: usize = s.as_str().as_bytes().len();
}

impl PamRequest {
    /// Establishes that a request held in memory is well formed.
    fn note_wf(&self)
        ensures
            self@.wf(),
    {
        note_str_fits(&self.user);
        note_str_fits(&self.pass);
        note_str_fits(&self.service);
        match &self.remip {
            Some(ip) => note_str_fits(ip),
            None => {},
        }
    }
}

/// The payload of `req`.
pub fn encode_request(req: &PamRequest) -> (r: Result<Vec<u8>, ProtocolError>)
    ensures
        r is Ok,
        r matches Ok(bytes) ==> bytes@ == spec_request_wire(req@),
{
    payload_of(bincode_serialize_request(req))
}

/// The payload of `resp`.
pub fn encode_response(resp: &PamResponse) -> (r: Result<Vec<u8>, ProtocolError>)
    ensures
        r is Ok,
        r matches Ok(bytes) ==> bytes@ == spec_response_wire(*resp),
{
    payload_of(bincode_serialize_response(resp))
}

/// Reads a request from the front of `payload`.
pub fn decode_request(payload: &[u8]) -> (r: Result<PamRequest, ProtocolError>)
    ensures
        match r {
            Ok(req) => spec_decode_request(payload@) == Some(req@),
            Err(e) => e == ProtocolError::Malformed && spec_decode_request(payload@) is None,
        },
{
    match bincode_deserialize_request(payload) {
        Ok(req) => {
            req.note_wf();
            proof {
                lemma_decode_request_is(payload@, req@);
            }
            Ok(req)
        },
        Err(_) => Err(ProtocolError::Malformed),
    }
}

/// Reads a response from the front of `payload`.
pub fn decode_response(payload: &[u8]) -> (r: Result<PamResponse, ProtocolError>)
    ensures
        match r {
            Ok(resp) => spec_decode_response(payload@) == Some(resp),
            Err(e) => e == ProtocolError::Malformed && spec_decode_response(payload@) is None,
        },
{
    match bincode_deserialize_response(payload) {
        Ok(resp) => {
            proof {
                lemma_decode_response_is(payload@, resp);
            }
            Ok(resp)
        },
        Err(_) => Err(ProtocolError::Malformed),
    }
}

} // verus!

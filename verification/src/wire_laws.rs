//! Laws of the payload layout: a payload determines the value it was written
//! from, so reading back what was written yields the same value.
use vstd::prelude::*;
use vstd::bytes::{
    lemma_auto_spec_u32_to_from_le_bytes, lemma_auto_spec_u64_to_from_le_bytes,
    spec_u32_from_le_bytes, spec_u32_to_le_bytes, spec_u64_from_le_bytes, spec_u64_to_le_bytes,
};
use vstd::utf8::{decode_utf8, encode_utf8, encode_utf8_decode_utf8};
use crate::error::{AuthResult, PamError};
use crate::wire::{
    spec_decode_request, spec_decode_response, spec_opt_str_wire, spec_reads_as_request,
    spec_reads_as_response, spec_request_wire, spec_response_wire, spec_result_wire,
    spec_str_fits, spec_str_wire, PamResponse, RequestModel,
};

verus! {

/// A concatenation starts `t` exactly when its first part starts `t` and its
/// second part starts what follows.
pub proof fn lemma_prefix_concat(p: Seq<u8>, q: Seq<u8>, t: Seq<u8>)
    ensures
        (p + q).is_prefix_of(t) <==> (p.is_prefix_of(t) && q.is_prefix_of(t.skip(p.len() as int))),
{
    if (p + q).is_prefix_of(t) {
        assert(p =~= (p + q).subrange(0, p.len() as int));
        assert(p =~= t.subrange(0, p.len() as int));
        assert(q =~= (p + q).subrange(p.len() as int, (p + q).len() as int));
        assert(q =~= t.skip(p.len() as int).subrange(0, q.len() as int));
    }
    if p.is_prefix_of(t) && q.is_prefix_of(t.skip(p.len() as int)) {
        assert((p + q) =~= t.subrange(0, (p + q).len() as int));
    }
}

/// Two 64-bit fields that start the same bytes hold the same number.
pub proof fn lemma_u64_field_unique(a: u64, b: u64, t: Seq<u8>)
    requires
        spec_u64_to_le_bytes(a).is_prefix_of(t),
        spec_u64_to_le_bytes(b).is_prefix_of(t),
    ensures
        a == b,
{
    lemma_auto_spec_u64_to_from_le_bytes();
    assert(spec_u64_to_le_bytes(a) =~= t.subrange(0, 8));
    assert(spec_u64_to_le_bytes(b) =~= t.subrange(0, 8));
    assert(spec_u64_from_le_bytes(spec_u64_to_le_bytes(a)) == a);
    assert(spec_u64_from_le_bytes(spec_u64_to_le_bytes(b)) == b);
}

/// Two 32-bit fields that start the same bytes hold the same number.
pub proof fn lemma_u32_field_unique(a: u32, b: u32, t: Seq<u8>)
    requires
        spec_u32_to_le_bytes(a).is_prefix_of(t),
        spec_u32_to_le_bytes(b).is_prefix_of(t),
    ensures
        a == b,
{
    lemma_auto_spec_u32_to_from_le_bytes();
    assert(spec_u32_to_le_bytes(a) =~= t.subrange(0, 4));
    assert(spec_u32_to_le_bytes(b) =~= t.subrange(0, 4));
    assert(spec_u32_from_le_bytes(spec_u32_to_le_bytes(a)) == a);
    assert(spec_u32_from_le_bytes(spec_u32_to_le_bytes(b)) == b);
}

/// Two strings whose wire forms start the same bytes are the same string.
pub proof fn lemma_str_field_unique(a: Seq<char>, b: Seq<char>, t: Seq<u8>)
    requires
        spec_str_fits(a),
        spec_str_fits(b),
        spec_str_wire(a).is_prefix_of(t),
        spec_str_wire(b).is_prefix_of(t),
    ensures
        a == b,
{
    let ea = encode_utf8(a);
    let eb = encode_utf8(b);
    let la = spec_u64_to_le_bytes(ea.len() as u64);
    let lb = spec_u64_to_le_bytes(eb.len() as u64);
    lemma_auto_spec_u64_to_from_le_bytes();
    lemma_prefix_concat(la, ea, t);
    lemma_prefix_concat(lb, eb, t);
    lemma_u64_field_unique(ea.len() as u64, eb.len() as u64, t);
    assert(ea.len() == eb.len());
    assert(ea =~= t.skip(8).subrange(0, ea.len() as int));
    assert(eb =~= t.skip(8).subrange(0, eb.len() as int));
    encode_utf8_decode_utf8(a);
    encode_utf8_decode_utf8(b);
}

/// The length of a string's wire form.
pub proof fn lemma_str_wire_len(a: Seq<char>)
    ensures
        spec_str_wire(a).len() == 8 + encode_utf8(a).len(),
{
    lemma_auto_spec_u64_to_from_le_bytes();
}

/// Two optional strings whose wire forms start the same bytes are equal.
pub proof fn lemma_opt_str_field_unique(a: Option<Seq<char>>, b: Option<Seq<char>>, t: Seq<u8>)
    requires
        a matches Some(s) ==> spec_str_fits(s),
        b matches Some(s) ==> spec_str_fits(s),
        spec_opt_str_wire(a).is_prefix_of(t),
        spec_opt_str_wire(b).is_prefix_of(t),
    ensures
        a == b,
{
    assert(spec_opt_str_wire(a)[0] == t[0]);
    assert(spec_opt_str_wire(b)[0] == t[0]);
    match (a, b) {
        (Some(x), Some(y)) => {
            lemma_prefix_concat(seq![1u8], spec_str_wire(x), t);
            lemma_prefix_concat(seq![1u8], spec_str_wire(y), t);
            lemma_str_field_unique(x, y, t.skip(1));
        },
        _ => {},
    }
}

/// Two results whose wire forms start the same bytes are equal.
pub proof fn lemma_result_field_unique(a: AuthResult, b: AuthResult, t: Seq<u8>)
    requires
        spec_result_wire(a).is_prefix_of(t),
        spec_result_wire(b).is_prefix_of(t),
    ensures
        a == b,
{
    lemma_auto_spec_u32_to_from_le_bytes();
    let ta: u32 = if a is Ok { 0 } else { 1 };
    let tb: u32 = if b is Ok { 0 } else { 1 };
    if let Err(e) = a {
        lemma_prefix_concat(spec_u32_to_le_bytes(1u32), spec_u32_to_le_bytes(e.0 as u32), t);
    }
    if let Err(e) = b {
        lemma_prefix_concat(spec_u32_to_le_bytes(1u32), spec_u32_to_le_bytes(e.0 as u32), t);
    }
    lemma_u32_field_unique(ta, tb, t);
    match (a, b) {
        (Err(x), Err(y)) => {
            lemma_u32_field_unique(x.0 as u32, y.0 as u32, t.skip(4));
            let i: i32 = x.0;
            let j: i32 = y.0;
            assert((i as u32) == (j as u32) ==> i == j) by (bit_vector);
            assert(x.0 == y.0);
            assert(x == y);
        },
        (Ok(x), Ok(y)) => {
            assert(x == y);
        },
        (Ok(_), Err(_)) => {
            assert(ta != tb);
        },
        (Err(_), Ok(_)) => {
            assert(ta != tb);
        },
    }
}

/// At most one response is read from given bytes.
pub proof fn lemma_response_unique(a: PamResponse, b: PamResponse, t: Seq<u8>)
    requires
        spec_reads_as_response(t, a),
        spec_reads_as_response(t, b),
    ensures
        a == b,
{
    lemma_auto_spec_u64_to_from_le_bytes();
    lemma_prefix_concat(spec_u64_to_le_bytes(a.id), spec_result_wire(a.result), t);
    lemma_prefix_concat(spec_u64_to_le_bytes(b.id), spec_result_wire(b.result), t);
    lemma_u64_field_unique(a.id, b.id, t);
    lemma_result_field_unique(a.result, b.result, t.skip(8));
}

/// At most one request is read from given bytes.
pub proof fn lemma_request_unique(a: RequestModel, b: RequestModel, t: Seq<u8>)
    requires
        spec_reads_as_request(t, a),
        spec_reads_as_request(t, b),
    ensures
        a == b,
{
    lemma_auto_spec_u64_to_from_le_bytes();
    let a1 = spec_u64_to_le_bytes(a.id);
    let a2 = a1 + spec_str_wire(a.user);
    let a3 = a2 + spec_str_wire(a.pass);
    let a4 = a3 + spec_str_wire(a.service);
    let b1 = spec_u64_to_le_bytes(b.id);
    let b2 = b1 + spec_str_wire(b.user);
    let b3 = b2 + spec_str_wire(b.pass);
    let b4 = b3 + spec_str_wire(b.service);
    lemma_prefix_concat(a4, spec_opt_str_wire(a.remip), t);
    lemma_prefix_concat(a3, spec_str_wire(a.service), t);
    lemma_prefix_concat(a2, spec_str_wire(a.pass), t);
    lemma_prefix_concat(a1, spec_str_wire(a.user), t);
    lemma_prefix_concat(b4, spec_opt_str_wire(b.remip), t);
    lemma_prefix_concat(b3, spec_str_wire(b.service), t);
    lemma_prefix_concat(b2, spec_str_wire(b.pass), t);
    lemma_prefix_concat(b1, spec_str_wire(b.user), t);
    lemma_u64_field_unique(a.id, b.id, t);
    lemma_str_field_unique(a.user, b.user, t.skip(a1.len() as int));
    lemma_str_field_unique(a.pass, b.pass, t.skip(a2.len() as int));
    lemma_str_field_unique(a.service, b.service, t.skip(a3.len() as int));
    lemma_opt_str_field_unique(a.remip, b.remip, t.skip(a4.len() as int));
}

/// Reading a request's payload yields that request, whatever bytes follow it.
pub proof fn lemma_request_round_trip(req: RequestModel, rest: Seq<u8>)
    requires
        req.wf(),
    ensures
        spec_decode_request(spec_request_wire(req) + rest) == Some(req),
{
    let t = spec_request_wire(req) + rest;
    assert(spec_request_wire(req) =~= t.subrange(0, spec_request_wire(req).len() as int));
    assert(spec_reads_as_request(t, req));
    let got = choose|m: RequestModel| spec_reads_as_request(t, m);
    lemma_request_unique(got, req, t);
}

/// Reading a response's payload yields that response, whatever bytes follow it.
pub proof fn lemma_response_round_trip(resp: PamResponse, rest: Seq<u8>)
    ensures
        spec_decode_response(spec_response_wire(resp) + rest) == Some(resp),
{
    let t = spec_response_wire(resp) + rest;
    assert(spec_response_wire(resp) =~= t.subrange(0, spec_response_wire(resp).len() as int));
    assert(spec_reads_as_response(t, resp));
    let got = choose|m: PamResponse| spec_reads_as_response(t, m);
    lemma_response_unique(got, resp, t);
}

/// Whatever is read from bytes is the only value whose payload starts them.
pub proof fn lemma_decode_request_is(bytes: Seq<u8>, req: RequestModel)
    requires
        spec_reads_as_request(bytes, req),
    ensures
        spec_decode_request(bytes) == Some(req),
{
    let got = choose|m: RequestModel| spec_reads_as_request(bytes, m);
    lemma_request_unique(got, req, bytes);
}

/// Whatever is read from bytes is the only value whose payload starts them.
pub proof fn lemma_decode_response_is(bytes: Seq<u8>, resp: PamResponse)
    requires
        spec_reads_as_response(bytes, resp),
    ensures
        spec_decode_response(bytes) == Some(resp),
{
    let got = choose|m: PamResponse| spec_reads_as_response(bytes, m);
    lemma_response_unique(got, resp, bytes);
}

/// The size of a request's payload: 33 bytes of fixed fields, the UTF-8
/// bytes of the three strings, and 8 more plus the address where one is given.
pub proof fn lemma_request_wire_len(req: RequestModel)
    ensures
        spec_request_wire(req).len() == 33 + encode_utf8(req.user).len() + encode_utf8(
            req.pass,
        ).len() + encode_utf8(req.service).len() + match req.remip {
            Some(ip) => 8 + encode_utf8(ip).len(),
            None => 0,
        },
{
    lemma_auto_spec_u64_to_from_le_bytes();
}

/// The size of a response's payload: 12 bytes for success, 16 for a failure.
pub proof fn lemma_response_wire_len(resp: PamResponse)
    ensures
        spec_response_wire(resp).len() == if resp.result is Ok { 12nat } else { 16nat },
{
    lemma_auto_spec_u64_to_from_le_bytes();
    lemma_auto_spec_u32_to_from_le_bytes();
}

} // verus!

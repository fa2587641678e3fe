//! Laws of the pump: requests in flight never share an id, every answer
//! reaches the caller whose request it answers, whatever the order in which
//! answers arrive, and the shutdown signal is written for no request.
use vstd::prelude::*;
use crate::error::AuthResult;
use crate::frame::{lemma_shutdown_is_empty_frame, spec_shutdown_frame};
use crate::pump::{
    spec_next_id, spec_numbered, spec_route, spec_write_action, WriteActionModel,
};
use crate::wire::{spec_request_wire, PamResponse, RequestModel};
use crate::wire_laws::lemma_request_wire_len;

verus! {

/// The id of the `k`-th request after the one numbered `start`.
pub open spec fn spec_nth_id(start: u64, k: nat) -> u64
    decreases k,
{
    if k == 0 {
        start
    } else {
        spec_next_id(spec_nth_id(start, (k - 1) as nat))
    }
}

/// The ids count up from `start` and wrap at the limit of 64 bits.
pub proof fn lemma_nth_id_counts(start: u64, k: nat)
    ensures
        spec_nth_id(start, k) == (start + k) % 0x1_0000_0000_0000_0000,
    decreases k,
{
    if k > 0 {
        lemma_nth_id_counts(start, (k - 1) as nat);
        let prev = spec_nth_id(start, (k - 1) as nat);
        let m = 0x1_0000_0000_0000_0000int;
        assert(prev == (start + k - 1) % m);
        assert((start + k) % m == if prev == m - 1 {
            0
        } else {
            prev + 1
        }) by (nonlinear_arith)
            requires
                prev == (start + k - 1) % m,
                m == 0x1_0000_0000_0000_0000int,
                0 <= start + k - 1,
        ;
    }
}

/// Ids are pairwise distinct among any 2^64 requests in a row: two requests
/// get the same id only if they are a multiple of 2^64 requests apart.
pub proof fn lemma_ids_distinct(start: u64, i: nat, j: nat)
    requires
        i < j,
        j - i < 0x1_0000_0000_0000_0000,
    ensures
        spec_nth_id(start, i) != spec_nth_id(start, j),
{
    lemma_nth_id_counts(start, i);
    lemma_nth_id_counts(start, j);
    let m = 0x1_0000_0000_0000_0000int;
    let a = start + i;
    let b = start + j;
    assert(a % m != b % m) by (nonlinear_arith)
        requires
            0 <= a < b,
            b - a < m,
            m == 0x1_0000_0000_0000_0000int,
    ;
}

/// Whether every pending id was handed out before `next`, with no wrap of
/// the counter in between.
pub open spec fn spec_fresh<S>(pending: Map<u64, S>, next: u64) -> bool {
    forall|id: u64| pending.contains_key(id) ==> id < next
}

/// While the counter has not wrapped, the id the next request gets is not
/// pending, so registering its slot displaces nobody, and this stays so.
pub proof fn lemma_next_id_is_free<S>(pending: Map<u64, S>, next: u64, slot: S)
    requires
        spec_fresh(pending, next),
    ensures
        !pending.contains_key(next),
        forall|id: u64|
            pending.contains_key(id) ==> pending.insert(next, slot).contains_key(id)
                && pending.insert(next, slot)[id] == pending[id],
        next < u64::MAX ==> spec_fresh(pending.insert(next, slot), spec_next_id(next)),
{
}

/// The table after the slots `slots` were registered one after another,
/// the first under the id `next`.
pub open spec fn spec_register_all<S>(pending: Map<u64, S>, next: u64, slots: Seq<S>) -> Map<
    u64,
    S,
>
    decreases slots.len(),
{
    if slots.len() == 0 {
        pending
    } else {
        spec_register_all(pending.insert(next, slots[0]), spec_next_id(next), slots.skip(1))
    }
}

/// While the counter does not wrap, a run of registrations gives the `k`-th
/// slot the id `next + k`, keeps every slot that was pending before, and
/// registers nothing else.
pub proof fn lemma_register_all<S>(pending: Map<u64, S>, next: u64, slots: Seq<S>)
    requires
        spec_fresh(pending, next),
        next + slots.len() <= 0x1_0000_0000_0000_0000,
    ensures
        forall|id: u64|
            next <= id < next + slots.len() ==> #[trigger] spec_register_all(
                pending,
                next,
                slots,
            ).contains_key(id) && spec_register_all(pending, next, slots)[id] == slots[id - next],
        forall|id: u64| #[trigger]
            pending.contains_key(id) ==> spec_register_all(pending, next, slots).contains_key(id)
                && spec_register_all(pending, next, slots)[id] == pending[id],
        forall|id: u64| #[trigger]
            spec_register_all(pending, next, slots).contains_key(id) ==> pending.contains_key(id)
                || next <= id < next + slots.len(),
    decreases slots.len(),
{
    if slots.len() > 0 {
        let grown = pending.insert(next, slots[0]);
        let rest = slots.skip(1);
        let after = spec_next_id(next);
        let all = spec_register_all(pending, next, slots);
        assert(all == spec_register_all(grown, after, rest));
        lemma_next_id_is_free(pending, next, slots[0]);
        if rest.len() > 0 {
            lemma_register_all(grown, after, rest);
        }
        assert forall|id: u64| next <= id < next + slots.len() implies #[trigger] all.contains_key(
            id,
        ) && all[id] == slots[id - next] by {
            if id == next {
                assert(grown.contains_key(id));
            } else {
                assert(rest[id - after] == slots[id - next]);
            }
        }
        assert forall|id: u64| #[trigger] pending.contains_key(id) implies all.contains_key(id)
            && all[id] == pending[id] by {
            assert(grown.contains_key(id));
        }
        assert forall|id: u64| #[trigger] all.contains_key(id) implies pending.contains_key(id)
            || next <= id < next + slots.len() by {
            if rest.len() > 0 {
                assert(grown.contains_key(id) || after <= id < after + rest.len());
            }
        }
    }
}

/// Whether no response before the `i`-th carries the id that the `i`-th
/// carries.
pub open spec fn spec_first_for(resps: Seq<PamResponse>, i: int) -> bool {
    forall|j: int| 0 <= j < i ==> (#[trigger] resps[j]).id != resps[i].id
}

/// What a run of responses comes to: the table that is left, and for each
/// response the slot and result handed over, if any.
pub open spec fn spec_route_all<S>(pending: Map<u64, S>, resps: Seq<PamResponse>) -> (
    Map<u64, S>,
    Seq<Option<(S, AuthResult)>>,
)
    decreases resps.len(),
{
    if resps.len() == 0 {
        (pending, Seq::empty())
    } else {
        let first = spec_route(pending, resps[0]);
        let then = spec_route_all(first.0, resps.skip(1));
        (then.0, seq![first.1] + then.1)
    }
}

/// Answers find their callers in whatever order they arrive. Each response
/// is handed, with its own result, to the slot that was pending under its id,
/// provided it is the first response with that id; any other response is
/// discarded. A slot stays pending exactly as long as no response carries its
/// id.
pub proof fn lemma_route_all<S>(pending: Map<u64, S>, resps: Seq<PamResponse>)
    ensures
        spec_route_all(pending, resps).1.len() == resps.len(),
        forall|i: int|
            0 <= i < resps.len() ==> #[trigger] spec_route_all(pending, resps).1[i] == if
                pending.contains_key(resps[i].id) && spec_first_for(resps, i) {
                Some((pending[resps[i].id], resps[i].result))
            } else {
                None
            },
        forall|id: u64| #[trigger]
            spec_route_all(pending, resps).0.contains_key(id) <==> pending.contains_key(id) && (
            forall|j: int| 0 <= j < resps.len() ==> (#[trigger] resps[j]).id != id),
        forall|id: u64| #[trigger]
            spec_route_all(pending, resps).0.contains_key(id) ==> spec_route_all(
                pending,
                resps,
            ).0[id] == pending[id],
    decreases resps.len(),
{
    if resps.len() > 0 {
        let first = spec_route(pending, resps[0]);
        let rest = resps.skip(1);
        let then = spec_route_all(first.0, rest);
        let all = spec_route_all(pending, resps);
        lemma_route_all(first.0, rest);
        assert forall|i: int| 0 <= i < resps.len() implies #[trigger] all.1[i] == if
            pending.contains_key(resps[i].id) && spec_first_for(resps, i) {
            Some((pending[resps[i].id], resps[i].result))
        } else {
            None
        } by {
            if i > 0 {
                assert(all.1[i] == then.1[i - 1]);
                assert(rest[i - 1] == resps[i]);
                if spec_first_for(resps, i) {
                    assert(resps[0].id != resps[i].id);
                    assert forall|j: int| 0 <= j < i - 1 implies (#[trigger] rest[j]).id != rest[i
                        - 1].id by {
                        assert(rest[j] == resps[j + 1]);
                    }
                    assert(spec_first_for(rest, i - 1));
                } else {
                    let j = choose|j: int| 0 <= j < i && (#[trigger] resps[j]).id == resps[i].id;
                    if j > 0 {
                        assert(rest[j - 1] == resps[j]);
                        assert(!spec_first_for(rest, i - 1));
                    }
                }
            }
        }
        assert forall|id: u64| #[trigger]
            all.0.contains_key(id) <==> pending.contains_key(id) && (forall|j: int|
                0 <= j < resps.len() ==> (#[trigger] resps[j]).id != id) by {
            if all.0.contains_key(id) {
                assert forall|j: int| 0 <= j < resps.len() implies (#[trigger] resps[j]).id
                    != id by {
                    if j > 0 {
                        assert(rest[j - 1] == resps[j]);
                    }
                }
            }
            if pending.contains_key(id) && (forall|j: int|
                0 <= j < resps.len() ==> (#[trigger] resps[j]).id != id) {
                assert(resps[0].id != id);
                assert forall|j: int| 0 <= j < rest.len() implies (#[trigger] rest[j]).id
                    != id by {
                    assert(rest[j] == resps[j + 1]);
                }
            }
        }
    }
}

/// Every caller gets the answer to its own request, once. After the slots
/// `slots` were registered one after another, starting at id `next`, any run
/// of responses hands the response that carries the id of the `k`-th request
/// to the `k`-th slot, with the result of that response. Neither the order of
/// the responses nor responses to other ids in between matter, and a second
/// response with the same id reaches nobody.
pub proof fn lemma_each_caller_gets_its_answer<S>(
    pending: Map<u64, S>,
    next: u64,
    slots: Seq<S>,
    resps: Seq<PamResponse>,
)
    requires
        spec_fresh(pending, next),
        next + slots.len() <= 0x1_0000_0000_0000_0000,
    ensures
        forall|i: int|
            0 <= i < resps.len() && next <= resps[i].id < next + slots.len()
                ==> #[trigger] spec_route_all(spec_register_all(pending, next, slots), resps).1[i]
                == if spec_first_for(resps, i) {
                Some((slots[resps[i].id - next], resps[i].result))
            } else {
                None
            },
{
    let table = spec_register_all(pending, next, slots);
    lemma_register_all(pending, next, slots);
    lemma_route_all(table, resps);
    assert forall|i: int|
        0 <= i < resps.len() && next <= resps[i].id < next + slots.len() implies #[trigger] spec_route_all(
        table,
        resps,
    ).1[i] == if spec_first_for(resps, i) {
        Some((slots[resps[i].id - next], resps[i].result))
    } else {
        None
    } by {
        assert(table.contains_key(resps[i].id));
    }
}

/// The write loop writes the shutdown signal for no request: what it does
/// with a request is to write a frame that differs from the signal, or to
/// abort.
pub proof fn lemma_no_request_shuts_down(req: RequestModel, id: u64)
    ensures
        !(spec_write_action(req, id) is Shutdown),
        spec_write_action(req, id) != WriteActionModel::Write(spec_shutdown_frame()),
{
    let payload = spec_request_wire(spec_numbered(req, id));
    lemma_request_wire_len(spec_numbered(req, id));
    if payload.len() <= crate::frame::MAX_PAYLOAD {
        lemma_shutdown_is_empty_frame(payload);
    }
}

} // verus!

//! What holds of the DNS stream framing whatever the input is.

use vstd::prelude::*;

use crate::dns::dns::{
    spec_frame, spec_probe_tcp, spec_with_handle, spec_with_handles, DNSEvent, StateView,
    DNS_MAX_BUFFERED, MAX_TRANSACTIONS,
};
use crate::dns::parser::{
    spec_header, spec_join_label, spec_name, spec_name_walk, spec_query, spec_request,
    spec_response, DNS_MAX_NAME_LEN, DNS_MAX_POINTER_DEPTH,
};

verus! {

/// `state` with `extra` behind what its request buffer holds.
pub open spec fn more_requests(state: StateView, extra: Seq<u8>) -> StateView {
    StateView { request_buffer: state.request_buffer + extra, ..state }
}

/// `state` with `extra` behind what its response buffer holds.
pub open spec fn more_responses(state: StateView, extra: Seq<u8>) -> StateView {
    StateView { response_buffer: state.response_buffer + extra, ..state }
}

/// Octets that arrive behind a buffer do not change what the messages
/// already whole in it do: draining, adding `extra` and draining again
/// gives what adding `extra` first and draining once gives.
pub proof fn lemma_drain_requests_extends(state: StateView, extra: Seq<u8>, count: nat)
    ensures
        more_requests(state.drain_requests(count).0, extra).drain_requests(
            state.drain_requests(count).1,
        ) == more_requests(state, extra).drain_requests(count),
    decreases state.request_buffer.len(),
{
    let buffer = state.request_buffer;
    match spec_frame(buffer) {
        Some(size) => {
            let longer = buffer + extra;
            assert(longer[0] == buffer[0] && longer[1] == buffer[1]);
            assert(spec_frame(longer) == Some(size));
            assert(longer.subrange(2, size + 2) =~= buffer.subrange(2, size + 2));
            assert(longer.skip(size + 2) =~= buffer.skip(size + 2) + extra);
            let msg = buffer.subrange(2, size + 2);
            let rest = StateView { request_buffer: buffer.skip(size + 2), ..state };
            let rest_longer = StateView { request_buffer: longer.skip(size + 2), ..state };
            let next = rest.after_request(msg);
            assert(rest_longer.after_request(msg) == more_requests(next, extra));
            assert(rest_longer.accepts_request(msg) == rest.accepts_request(msg));
            let counted = if rest.accepts_request(msg) {
                count + 1
            } else {
                count
            };
            lemma_drain_requests_extends(next, extra, counted);
        },
        None => {},
    }
}

/// The same for the stream towards the client.
pub proof fn lemma_drain_responses_extends(state: StateView, extra: Seq<u8>, count: nat)
    ensures
        more_responses(state.drain_responses(count).0, extra).drain_responses(
            state.drain_responses(count).1,
        ) == more_responses(state, extra).drain_responses(count),
    decreases state.response_buffer.len(),
{
    let buffer = state.response_buffer;
    match spec_frame(buffer) {
        Some(size) => {
            let longer = buffer + extra;
            assert(longer[0] == buffer[0] && longer[1] == buffer[1]);
            assert(spec_frame(longer) == Some(size));
            assert(longer.subrange(2, size + 2) =~= buffer.subrange(2, size + 2));
            assert(longer.skip(size + 2) =~= buffer.skip(size + 2) + extra);
            let msg = buffer.subrange(2, size + 2);
            let rest = StateView { response_buffer: buffer.skip(size + 2), ..state };
            let rest_longer = StateView { response_buffer: longer.skip(size + 2), ..state };
            let next = rest.after_response(msg);
            assert(rest_longer.after_response(msg) == more_responses(next, extra));
            assert(rest_longer.accepts_response(msg) == rest.accepts_response(msg));
            let counted = if rest.accepts_response(msg) {
                count + 1
            } else {
                count
            };
            lemma_drain_responses_extends(next, extra, counted);
        },
        None => {},
    }
}

/// Draining leaves the gap flag as it was.
pub proof fn lemma_drain_requests_keeps_gap(state: StateView, count: nat)
    ensures
        state.drain_requests(count).0.gap_ts == state.gap_ts,
    decreases state.request_buffer.len(),
{
    match spec_frame(state.request_buffer) {
        Some(size) => {
            let msg = state.request_buffer.subrange(2, size + 2);
            let rest = StateView {
                request_buffer: state.request_buffer.skip(size + 2),
                ..state
            };
            let counted = if rest.accepts_request(msg) {
                count + 1
            } else {
                count
            };
            lemma_drain_requests_keeps_gap(rest.after_request(msg), counted);
        },
        None => {},
    }
}

/// Draining leaves the gap flag as it was.
pub proof fn lemma_drain_responses_keeps_gap(state: StateView, count: nat)
    ensures
        state.drain_responses(count).0.gap_tc == state.gap_tc,
    decreases state.response_buffer.len(),
{
    match spec_frame(state.response_buffer) {
        Some(size) => {
            let msg = state.response_buffer.subrange(2, size + 2);
            let rest = StateView {
                response_buffer: state.response_buffer.skip(size + 2),
                ..state
            };
            let counted = if rest.accepts_response(msg) {
                count + 1
            } else {
                count
            };
            lemma_drain_responses_keeps_gap(rest.after_response(msg), counted);
        },
        None => {},
    }
}

/// The count that draining starts from is carried through unchanged.
pub proof fn lemma_drain_requests_counts_on(state: StateView, count: nat)
    ensures
        state.drain_requests(count).0 == state.drain_requests(0).0,
        state.drain_requests(count).1 == count + state.drain_requests(0).1,
    decreases state.request_buffer.len(),
{
    match spec_frame(state.request_buffer) {
        Some(size) => {
            let msg = state.request_buffer.subrange(2, size + 2);
            let rest = StateView {
                request_buffer: state.request_buffer.skip(size + 2),
                ..state
            };
            if rest.accepts_request(msg) {
                lemma_drain_requests_counts_on(rest.after_request(msg), count + 1);
                lemma_drain_requests_counts_on(rest.after_request(msg), 1);
            } else {
                lemma_drain_requests_counts_on(rest.after_request(msg), count);
            }
        },
        None => {},
    }
}

/// The count that draining starts from is carried through unchanged.
pub proof fn lemma_drain_responses_counts_on(state: StateView, count: nat)
    ensures
        state.drain_responses(count).0 == state.drain_responses(0).0,
        state.drain_responses(count).1 == count + state.drain_responses(0).1,
    decreases state.response_buffer.len(),
{
    match spec_frame(state.response_buffer) {
        Some(size) => {
            let msg = state.response_buffer.subrange(2, size + 2);
            let rest = StateView {
                response_buffer: state.response_buffer.skip(size + 2),
                ..state
            };
            if rest.accepts_response(msg) {
                lemma_drain_responses_counts_on(rest.after_response(msg), count + 1);
                lemma_drain_responses_counts_on(rest.after_response(msg), 1);
            } else {
                lemma_drain_responses_counts_on(rest.after_response(msg), count);
            }
        },
        None => {},
    }
}

/// A request stream may be cut anywhere: while no gap is pending, taking
/// `first` and then `second` leaves the state, and accepts as many requests,
/// as taking the two in one piece.
pub proof fn lemma_request_stream_split(state: StateView, first: Seq<u8>, second: Seq<u8>)
    requires
        !state.gap_ts,
    ensures
        state.after_request_stream(first).0.after_request_stream(second).0
            == state.after_request_stream(first + second).0,
        state.after_request_stream(first).1 + state.after_request_stream(first).0.after_request_stream(
            second,
        ).1 == state.after_request_stream(first + second).1,
{
    let begun = more_requests(state, first);
    assert(begun == (StateView {
        gap_ts: false,
        request_buffer: state.request_buffer + first,
        ..state
    }));
    let mid = begun.drain_requests(0);
    lemma_drain_requests_keeps_gap(begun, 0);
    lemma_drain_requests_extends(begun, second, 0);
    assert(more_requests(begun, second).request_buffer =~= state.request_buffer + (first
        + second));
    assert(more_requests(begun, second) == (StateView {
        gap_ts: false,
        request_buffer: state.request_buffer + (first + second),
        ..state
    }));
    assert(more_requests(mid.0, second) == (StateView {
        gap_ts: false,
        request_buffer: mid.0.request_buffer + second,
        ..mid.0
    }));
    lemma_drain_requests_counts_on(more_requests(mid.0, second), mid.1);
}

/// A response stream may be cut anywhere: while no gap is pending, taking
/// `first` and then `second` leaves the state, and accepts as many
/// responses, as taking the two in one piece.
pub proof fn lemma_response_stream_split(state: StateView, first: Seq<u8>, second: Seq<u8>)
    requires
        !state.gap_tc,
    ensures
        state.after_response_stream(first).0.after_response_stream(second).0
            == state.after_response_stream(first + second).0,
        state.after_response_stream(first).1 + state.after_response_stream(
            first,
        ).0.after_response_stream(second).1 == state.after_response_stream(first + second).1,
{
    let begun = more_responses(state, first);
    assert(begun == (StateView {
        gap_tc: false,
        response_buffer: state.response_buffer + first,
        ..state
    }));
    let mid = begun.drain_responses(0);
    lemma_drain_responses_keeps_gap(begun, 0);
    lemma_drain_responses_extends(begun, second, 0);
    assert(more_responses(begun, second).response_buffer =~= state.response_buffer + (first
        + second));
    assert(more_responses(begun, second) == (StateView {
        gap_tc: false,
        response_buffer: state.response_buffer + (first + second),
        ..state
    }));
    assert(more_responses(mid.0, second) == (StateView {
        gap_tc: false,
        response_buffer: mid.0.response_buffer + second,
        ..mid.0
    }));
    lemma_drain_responses_counts_on(more_responses(mid.0, second), mid.1);
}

/// Empty input changes nothing and accepts nothing, in either direction,
/// while the buffers hold no whole message (as the stream parsers leave
/// them).
pub proof fn lemma_empty_stream_input(state: StateView)
    requires
        spec_frame(state.request_buffer).is_none(),
        spec_frame(state.response_buffer).is_none(),
    ensures
        state.after_request_stream(Seq::empty()) == (state, 0nat),
        state.after_response_stream(Seq::empty()) == (state, 0nat),
{
    assert(state.request_buffer + Seq::<u8>::empty() =~= state.request_buffer);
    assert(state.response_buffer + Seq::<u8>::empty() =~= state.response_buffer);
    assert(!spec_probe_tcp(Seq::empty()).0);
}

/// An empty datagram is never accepted and adds no transaction.
pub proof fn lemma_empty_datagram(state: StateView)
    ensures
        !state.accepts_request(Seq::empty()),
        !state.accepts_response(Seq::empty()),
        state.after_request(Seq::empty()) == state.with_event(DNSEvent::MalformedData),
        state.after_response(Seq::empty()) == state.with_event(DNSEvent::MalformedData),
        state.transactions.len() == 0 ==> state.after_request(Seq::empty()) == state
            && state.after_response(Seq::empty()) == state,
{
    assert(spec_header(Seq::empty()).is_none());
}

/// Input that leaves the message at the front of the request buffer short of
/// the length it announces is kept, and nothing else happens.
pub proof fn lemma_incomplete_request_is_buffered(state: StateView, input: Seq<u8>)
    requires
        !state.gap_ts,
        spec_frame(state.request_buffer + input).is_none(),
    ensures
        state.after_request_stream(input) == (more_requests(state, input), 0nat),
{
}

/// Input that leaves the message at the front of the response buffer short
/// of the length it announces is kept, and nothing else happens.
pub proof fn lemma_incomplete_response_is_buffered(state: StateView, input: Seq<u8>)
    requires
        !state.gap_tc,
        spec_frame(state.response_buffer + input).is_none(),
    ensures
        state.after_response_stream(input) == (more_responses(state, input), 0nat),
{
}

/// A message whose length prefix announces less than a header is dropped
/// with its prefix, `MalformedData` is raised, and draining goes on behind
/// it.
pub proof fn lemma_short_request_is_dropped(state: StateView, count: nat)
    requires
        spec_frame(state.request_buffer).is_some(),
        spec_frame(state.request_buffer).unwrap() < 12,
    ensures
        state.drain_requests(count) == (StateView {
            request_buffer: state.request_buffer.skip(
                spec_frame(state.request_buffer).unwrap() + 2,
            ),
            ..state
        }).with_event(DNSEvent::MalformedData).drain_requests(count),
{
    let size = spec_frame(state.request_buffer).unwrap();
    let msg = state.request_buffer.subrange(2, size + 2);
    assert(spec_header(msg).is_none());
    assert(spec_request(msg).is_none());
}

/// The same for the stream towards the client.
pub proof fn lemma_short_response_is_dropped(state: StateView, count: nat)
    requires
        spec_frame(state.response_buffer).is_some(),
        spec_frame(state.response_buffer).unwrap() < 12,
    ensures
        state.drain_responses(count) == (StateView {
            response_buffer: state.response_buffer.skip(
                spec_frame(state.response_buffer).unwrap() + 2,
            ),
            ..state
        }).with_event(DNSEvent::MalformedData).drain_responses(count),
{
    let size = spec_frame(state.response_buffer).unwrap();
    let msg = state.response_buffer.subrange(2, size + 2);
    assert(spec_header(msg).is_none());
    assert(spec_response(msg).is_none());
}

/// The state after the octets of `input` arrived towards the server one at
/// a time.
pub open spec fn after_request_octets(state: StateView, input: Seq<u8>) -> StateView
    decreases input.len(),
{
    if input.len() == 0 {
        state
    } else {
        after_request_octets(state, input.drop_last()).after_request_stream(
            seq![input.last()],
        ).0
    }
}

/// The state after the octets of `input` arrived towards the client one at
/// a time.
pub open spec fn after_response_octets(state: StateView, input: Seq<u8>) -> StateView
    decreases input.len(),
{
    if input.len() == 0 {
        state
    } else {
        after_response_octets(state, input.drop_last()).after_response_stream(
            seq![input.last()],
        ).0
    }
}

/// A request stream may arrive one octet at a time: the state is then the
/// one that the whole input leaves when it arrives at once.
pub proof fn lemma_request_stream_octets(state: StateView, input: Seq<u8>)
    requires
        !state.gap_ts,
        spec_frame(state.request_buffer).is_none(),
        spec_frame(state.response_buffer).is_none(),
    ensures
        after_request_octets(state, input) == state.after_request_stream(input).0,
    decreases input.len(),
{
    if input.len() == 0 {
        assert(input =~= Seq::empty());
        lemma_empty_stream_input(state);
    } else {
        lemma_request_stream_octets(state, input.drop_last());
        lemma_request_stream_split(state, input.drop_last(), seq![input.last()]);
        assert(input.drop_last() + seq![input.last()] =~= input);
    }
}

/// A response stream may arrive one octet at a time: the state is then the
/// one that the whole input leaves when it arrives at once.
pub proof fn lemma_response_stream_octets(state: StateView, input: Seq<u8>)
    requires
        !state.gap_tc,
        spec_frame(state.request_buffer).is_none(),
        spec_frame(state.response_buffer).is_none(),
    ensures
        after_response_octets(state, input) == state.after_response_stream(input).0,
    decreases input.len(),
{
    if input.len() == 0 {
        assert(input =~= Seq::empty());
        lemma_empty_stream_input(state);
    } else {
        lemma_response_stream_octets(state, input.drop_last());
        lemma_response_stream_split(state, input.drop_last(), seq![input.last()]);
        assert(input.drop_last() + seq![input.last()] =~= input);
    }
}

/// The offset that decoding a name moves to from `pos`: behind the label
/// that starts there, or to the target of the pointer that stands there.
/// `None` at the end of a name and where the octets have no decoding.
pub open spec fn spec_name_step(msg: Seq<u8>, pos: int) -> Option<int> {
    if pos < 0 || pos >= msg.len() || msg[pos] == 0 {
        None
    } else if msg[pos] < 64 {
        if pos + 1 + msg[pos] > msg.len() {
            None
        } else {
            Some(pos + 1 + msg[pos])
        }
    } else if msg[pos] >= 192 {
        if pos + 2 > msg.len() || (msg[pos] - 192) * 256 + msg[pos + 1] >= msg.len() {
            None
        } else {
            Some((msg[pos] - 192) * 256 + msg[pos + 1])
        }
    } else {
        None
    }
}

/// The offset reached from `pos` by `count` steps of [`spec_name_step`].
pub open spec fn spec_name_steps(msg: Seq<u8>, pos: int, count: nat) -> Option<int>
    decreases count,
{
    if count == 0 {
        Some(pos)
    } else {
        match spec_name_step(msg, pos) {
            Some(next) => spec_name_steps(msg, next, (count - 1) as nat),
            None => None,
        }
    }
}

/// The labels gathered and the pointers followed once `count` steps were
/// made from `pos`.
pub open spec fn spec_gathered(msg: Seq<u8>, pos: int, name: Seq<u8>, jumps: nat, count: nat)
    -> (Seq<u8>, nat)
    decreases count,
{
    if count == 0 {
        (name, jumps)
    } else {
        match spec_name_step(msg, pos) {
            Some(next) => if msg[pos] < 64 {
                spec_gathered(
                    msg,
                    next,
                    spec_join_label(name, msg.subrange(pos + 1, next)),
                    jumps,
                    (count - 1) as nat,
                )
            } else {
                spec_gathered(msg, next, name, jumps + 1, (count - 1) as nat)
            },
            None => (name, jumps),
        }
    }
}

/// What is left of the two limits of a name: octets and pointers.
pub open spec fn spec_name_budget(name: Seq<u8>, jumps: nat) -> int {
    (DNS_MAX_NAME_LEN - name.len()) + (DNS_MAX_POINTER_DEPTH - jumps)
}

/// A name that decodes from `pos` also decodes from every offset that its
/// decoding passes, and each step on the way uses up some of the limits.
pub proof fn lemma_walk_passes(msg: Seq<u8>, pos: int, name: Seq<u8>, jumps: nat, count: nat)
    requires
        spec_name_walk(msg, pos, name, jumps).is_some(),
        spec_name_steps(msg, pos, count).is_some(),
    ensures
        spec_name_walk(
            msg,
            spec_name_steps(msg, pos, count).unwrap(),
            spec_gathered(msg, pos, name, jumps, count).0,
            spec_gathered(msg, pos, name, jumps, count).1,
        ).is_some(),
        spec_gathered(msg, pos, name, jumps, count).0.len() <= DNS_MAX_NAME_LEN,
        spec_gathered(msg, pos, name, jumps, count).1 <= DNS_MAX_POINTER_DEPTH,
        spec_name_budget(
            spec_gathered(msg, pos, name, jumps, count).0,
            spec_gathered(msg, pos, name, jumps, count).1,
        ) + count <= spec_name_budget(name, jumps),
    decreases count,
{
    if count > 0 {
        let next = spec_name_step(msg, pos).unwrap();
        if msg[pos] < 64 {
            let grown = spec_join_label(name, msg.subrange(pos + 1, next));
            lemma_walk_passes(msg, next, grown, jumps, (count - 1) as nat);
        } else {
            lemma_walk_passes(msg, next, name, jumps + 1, (count - 1) as nat);
        }
    }
}

/// A name whose decoding comes back to an offset it has passed, as it does
/// where a compression pointer points to itself or pointers form a cycle,
/// has no decoding, whatever was gathered before.
pub proof fn lemma_cycle_has_no_name(
    msg: Seq<u8>,
    pos: int,
    name: Seq<u8>,
    jumps: nat,
    count: nat,
)
    requires
        count >= 1,
        spec_name_steps(msg, pos, count) == Some(pos),
    ensures
        spec_name_walk(msg, pos, name, jumps).is_none(),
    decreases
        (if name.len() <= DNS_MAX_NAME_LEN && jumps <= DNS_MAX_POINTER_DEPTH {
            spec_name_budget(name, jumps)
        } else {
            0
        }),
{
    if spec_name_walk(msg, pos, name, jumps).is_some() {
        lemma_walk_passes(msg, pos, name, jumps, count);
        let after = spec_gathered(msg, pos, name, jumps, count);
        lemma_cycle_has_no_name(msg, pos, after.0, after.1, count);
    }
}

/// A name that lies on a cycle of compression pointers fails to parse, and
/// so does the question that holds it.
pub proof fn lemma_cyclic_name_fails(msg: Seq<u8>, pos: int, count: nat)
    requires
        count >= 1,
        spec_name_steps(msg, pos, count) == Some(pos),
    ensures
        spec_name(msg, pos).is_none(),
        spec_query(msg, pos).is_none(),
{
    lemma_cycle_has_no_name(msg, pos, Seq::empty(), 0, count);
}

/// A compression pointer that points to itself fails to parse.
pub proof fn lemma_self_pointer_fails(msg: Seq<u8>, pos: int)
    requires
        0 <= pos,
        pos + 2 <= msg.len(),
        msg[pos] >= 192,
        (msg[pos] - 192) * 256 + msg[pos + 1] == pos,
    ensures
        spec_name(msg, pos).is_none(),
{
    assert(spec_name_step(msg, pos) == Some(pos));
    assert(spec_name_steps(msg, pos, 0) == Some(pos));
    assert(spec_name_steps(msg, pos, 1) == Some(pos));
    lemma_cyclic_name_fails(msg, pos, 1);
}

/// Purging loses no handle to detection state: what the host gets back
/// when the flow ends is the same whether or not the queue was purged
/// before.
pub proof fn lemma_purge_keeps_handles(state: StateView, tx_id: u64)
    ensures
        spec_with_handles(state.purged(tx_id).released, state.purged(tx_id).transactions)
            == spec_with_handles(state.released, state.transactions),
    decreases state.transactions.len(),
{
    if state.transactions.len() > MAX_TRANSACTIONS && state.transactions[0].id != tx_id + 1 {
        let next = StateView {
            transactions: state.transactions.drop_first(),
            released: spec_with_handle(state.released, state.transactions[0]),
            ..state
        };
        lemma_purge_keeps_handles(next, tx_id);
    }
}

/// After a purge the queue is within its limit, unless the oldest
/// transaction is the one that the host is reading.
pub proof fn lemma_purge_keeps_the_limit(state: StateView, tx_id: u64)
    ensures
        state.purged(tx_id).transactions.len() <= MAX_TRANSACTIONS || state.purged(
            tx_id,
        ).transactions[0].id == tx_id + 1,
        state.purged(tx_id).transactions.len() <= state.transactions.len(),
    decreases state.transactions.len(),
{
    if state.transactions.len() > MAX_TRANSACTIONS && state.transactions[0].id != tx_id + 1 {
        let next = StateView {
            transactions: state.transactions.drop_first(),
            released: spec_with_handle(state.released, state.transactions[0]),
            ..state
        };
        lemma_purge_keeps_the_limit(next, tx_id);
    }
}

/// A message that is accepted makes a transaction that carries the
/// identifier of the message on the wire, in its request or in its
/// response.
pub proof fn lemma_wire_id_is_kept(state: StateView, msg: Seq<u8>)
    ensures
        state.accepts_request(msg) ==> state.after_request(msg).transactions.last().request.unwrap().header.tx_id
            == spec_header(msg).unwrap().tx_id,
        state.accepts_response(msg) ==> state.after_response(
            msg,
        ).transactions.last().response.unwrap().header.tx_id == spec_header(msg).unwrap().tx_id,
        state.accepts_request(msg) ==> state.after_request(msg).transactions.last().wire_id()
            == spec_header(msg).unwrap().tx_id,
        state.accepts_response(msg) ==> state.after_response(msg).transactions.last().wire_id()
            == spec_header(msg).unwrap().tx_id,
{
}

/// A buffer without a whole message at its front is no longer than
/// [`DNS_MAX_BUFFERED`].
pub proof fn lemma_drained_buffer_is_bounded(buffer: Seq<u8>)
    requires
        spec_frame(buffer).is_none(),
    ensures
        buffer.len() <= DNS_MAX_BUFFERED,
{
}

/// Draining leaves no whole message at the front of the buffer, so what
/// stays buffered between two calls is bounded.
pub proof fn lemma_drain_requests_empties(state: StateView, count: nat)
    ensures
        spec_frame(state.drain_requests(count).0.request_buffer).is_none(),
        state.drain_requests(count).0.request_buffer.len() <= DNS_MAX_BUFFERED,
        state.drain_requests(count).0.response_buffer == state.response_buffer,
    decreases state.request_buffer.len(),
{
    match spec_frame(state.request_buffer) {
        Some(size) => {
            let msg = state.request_buffer.subrange(2, size + 2);
            let rest = StateView {
                request_buffer: state.request_buffer.skip(size + 2),
                ..state
            };
            let counted = if rest.accepts_request(msg) {
                count + 1
            } else {
                count
            };
            lemma_drain_requests_empties(rest.after_request(msg), counted);
        },
        None => {},
    }
}

/// Draining leaves no whole message at the front of the buffer, so what
/// stays buffered between two calls is bounded.
pub proof fn lemma_drain_responses_empties(state: StateView, count: nat)
    ensures
        spec_frame(state.drain_responses(count).0.response_buffer).is_none(),
        state.drain_responses(count).0.response_buffer.len() <= DNS_MAX_BUFFERED,
        state.drain_responses(count).0.request_buffer == state.request_buffer,
    decreases state.response_buffer.len(),
{
    match spec_frame(state.response_buffer) {
        Some(size) => {
            let msg = state.response_buffer.subrange(2, size + 2);
            let rest = StateView {
                response_buffer: state.response_buffer.skip(size + 2),
                ..state
            };
            let counted = if rest.accepts_response(msg) {
                count + 1
            } else {
                count
            };
            lemma_drain_responses_empties(rest.after_response(msg), counted);
        },
        None => {},
    }
}

} // verus!

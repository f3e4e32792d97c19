//! Per-flow DNS state: transactions, framing of the stream transport and the
//! anomaly events raised while parsing.

use vstd::prelude::*;

use crate::stream::{STREAM_TOCLIENT, STREAM_TOSERVER};
use crate::dns::parser::{
    be_u16, dns_parse_request, dns_parse_response, spec_be_u16, spec_request, spec_response,
    DNSRequest, DNSResponse, RequestView, ResponseView,
};

verus! {

/// The number of transactions kept in the queue before the oldest ones are
/// purged.
pub const MAX_TRANSACTIONS: usize = 32;

/// The largest number of octets that a reassembly buffer holds between two
/// calls: a length prefix and a message one octet short of the longest.
pub const DNS_MAX_BUFFERED: usize = 0x1_0000;

/// Flag bit that marks a message as a response.
pub const DNS_FLAG_RESPONSE: u16 = 0x8000;

/// The reserved flag bit that must be zero.
pub const DNS_FLAG_Z: u16 = 0x0040;

/// Mask of the reply code within the header flags.
pub const DNS_RCODE_MASK: u16 = 0x000f;

/// Protocol anomalies that the parser reports against a transaction.
#[derive(Debug, Clone, Copy, PartialEq, Eq, Structural)]
pub enum DNSEvent {
    UnsolicitedResponse,
    MalformedData,
    NotRequest,
    NotResponse,
    ZFlagSet,
    Flooded,
    StateMemCapReached,
}

impl DNSEvent {
    /// The number under which the host knows the event.
    pub open spec fn spec_code(self) -> u8 {
        match self {
            DNSEvent::UnsolicitedResponse => 0,
            DNSEvent::MalformedData => 1,
            DNSEvent::NotRequest => 2,
            DNSEvent::NotResponse => 3,
            DNSEvent::ZFlagSet => 4,
            DNSEvent::Flooded => 5,
            DNSEvent::StateMemCapReached => 6,
        }
    }

    /// The number under which the host knows the event.
    pub fn code(self) -> (r: u8)
        ensures
            r == self.spec_code(),
    {
        match self {
            DNSEvent::UnsolicitedResponse => 0,
            DNSEvent::MalformedData => 1,
            DNSEvent::NotRequest => 2,
            DNSEvent::NotResponse => 3,
            DNSEvent::ZFlagSet => 4,
            DNSEvent::Flooded => 5,
            DNSEvent::StateMemCapReached => 6,
        }
    }
}

/// A request, a response, or both, as surfaced to the host.
///
/// `de_state` is the host's handle to its detection state for this
/// transaction; the parser stores it and hands it back, and never looks
/// inside.
#[derive(Debug)]
pub struct DNSTransaction {
    pub id: u64,
    pub request: Option<DNSRequest>,
    pub response: Option<DNSResponse>,
    pub detect_flags_ts: u64,
    pub detect_flags_tc: u64,
    pub logged: u32,
    pub de_state: Option<u64>,
    pub events: Vec<DNSEvent>,
}

/// Mathematical value of a [`DNSTransaction`].
pub struct TransactionView {
    pub id: u64,
    pub request: Option<RequestView>,
    pub response: Option<ResponseView>,
    pub detect_flags_ts: u64,
    pub detect_flags_tc: u64,
    pub logged: u32,
    pub de_state: Option<u64>,
    pub events: Seq<DNSEvent>,
}

impl View for DNSTransaction {
    type V = TransactionView;

    open spec fn view(&self) -> TransactionView {
        TransactionView {
            id: self.id,
            request: match self.request {
                Some(r) => Some(r@),
                None => None,
            },
            response: match self.response {
                Some(r) => Some(r@),
                None => None,
            },
            detect_flags_ts: self.detect_flags_ts,
            detect_flags_tc: self.detect_flags_tc,
            logged: self.logged,
            de_state: self.de_state,
            events: self.events@,
        }
    }
}

impl TransactionView {
    /// A transaction that holds nothing yet.
    pub open spec fn empty() -> TransactionView {
        TransactionView {
            id: 0,
            request: None,
            response: None,
            detect_flags_ts: 0,
            detect_flags_tc: 0,
            logged: 0,
            de_state: None,
            events: Seq::empty(),
        }
    }

    /// The identifier on the wire: the request's if there is a request, else
    /// the response's, else zero.
    pub open spec fn wire_id(self) -> u16 {
        match self.request {
            Some(request) => request.header.tx_id,
            None => match self.response {
                Some(response) => response.header.tx_id,
                None => 0,
            },
        }
    }

    /// The reply code of the response, zero where there is none.
    pub open spec fn rcode(self) -> u16 {
        match self.response {
            Some(response) => response.header.flags & DNS_RCODE_MASK,
            None => 0,
        }
    }

    /// The same transaction with `event` added behind its other events.
    pub open spec fn with_event(self, event: DNSEvent) -> TransactionView {
        TransactionView { events: self.events.push(event), ..self }
    }
}

impl DNSTransaction {
    /// A transaction that holds nothing yet.
    pub fn new() -> (tx: DNSTransaction)
        ensures
            tx@ == TransactionView::empty(),
    {
        DNSTransaction {
            id: 0,
            request: None,
            response: None,
            detect_flags_ts: 0,
            detect_flags_tc: 0,
            logged: 0,
            de_state: None,
            events: Vec::new(),
        }
    }

    /// Gives up what the transaction holds for the host: its events are
    /// dropped and the handle to the detection state is returned, so that the
    /// host can release it.
    pub fn free(&mut self) -> (released: Option<u64>)
        ensures
            released == old(self)@.de_state,
            final(self)@ == (TransactionView {
                de_state: None,
                events: Seq::empty(),
                ..old(self)@
            }),
    {
        self.events = Vec::new();
        let released = self.de_state;
        self.de_state = None;
        released
    }

    /// The identifier that the transaction carries on the wire (not the
    /// one under which the flow tracks it).
    pub fn tx_id(&self) -> (r: u16)
        ensures
            r == self@.wire_id(),
    {
        match &self.request {
            Some(request) => request.header.tx_id,
            None => match &self.response {
                Some(response) => response.header.tx_id,
                None => 0,
            },
        }
    }

    /// The reply code of the transaction, zero where there is no response.
    pub fn rcode(&self) -> (r: u16)
        ensures
            r == self@.rcode(),
    {
        match &self.response {
            Some(response) => response.header.flags & DNS_RCODE_MASK,
            None => 0,
        }
    }
}

/// The parser state of one flow.
///
/// `tx_id` is the identifier given to the newest transaction; the
/// transactions are kept in the order in which they were made. The two
/// buffers hold the octets of the stream transport that do not yet make up a
/// whole message; `gap_ts` and `gap_tc` tell that data of the stream towards
/// the server, or towards the client, was lost and parsing in that direction
/// waits for input that looks like DNS again. `released` holds the handles to
/// detection state of the transactions that left the queue, until the host
/// takes them to release what they stand for.
pub struct DNSState {
    pub tx_id: u64,
    pub transactions: Vec<DNSTransaction>,
    pub events: u16,
    pub request_buffer: Vec<u8>,
    pub response_buffer: Vec<u8>,
    pub gap_ts: bool,
    pub gap_tc: bool,
    pub released: Vec<u64>,
}

/// Mathematical value of a [`DNSState`].
pub struct StateView {
    pub tx_id: u64,
    pub transactions: Seq<TransactionView>,
    pub events: u16,
    pub request_buffer: Seq<u8>,
    pub response_buffer: Seq<u8>,
    pub gap_ts: bool,
    pub gap_tc: bool,
    pub released: Seq<u64>,
}

/// The values of a list of transactions, in order.
pub open spec fn transactions_view(list: Seq<DNSTransaction>) -> Seq<TransactionView> {
    list.map_values(|tx: DNSTransaction| tx@)
}

impl View for DNSState {
    type V = StateView;

    open spec fn view(&self) -> StateView {
        StateView {
            tx_id: self.tx_id,
            transactions: transactions_view(self.transactions@),
            events: self.events,
            request_buffer: self.request_buffer@,
            response_buffer: self.response_buffer@,
            gap_ts: self.gap_ts,
            gap_tc: self.gap_tc,
            released: self.released@,
        }
    }
}

/// The index of the first transaction in `list` that the host knows as
/// `tx_id`, which is the one whose identifier is `tx_id + 1`; the length of
/// `list` where there is none.
pub open spec fn spec_position(list: Seq<TransactionView>, tx_id: u64) -> int
    decreases list.len(),
{
    if list.len() == 0 {
        0
    } else if list[0].id == tx_id + 1 {
        0
    } else {
        1 + spec_position(list.drop_first(), tx_id)
    }
}

/// `handles` with the handle to the detection state of `tx` behind them, if
/// `tx` has one.
pub open spec fn spec_with_handle(handles: Seq<u64>, tx: TransactionView) -> Seq<u64> {
    match tx.de_state {
        Some(handle) => handles.push(handle),
        None => handles,
    }
}

/// `handles` with the handles of all of `list` behind them, in order.
pub open spec fn spec_with_handles(handles: Seq<u64>, list: Seq<TransactionView>) -> Seq<u64>
    decreases list.len(),
{
    if list.len() == 0 {
        handles
    } else {
        spec_with_handles(spec_with_handle(handles, list[0]), list.drop_first())
    }
}

/// `handles` with the handles behind them of the transactions that
/// [`spec_purged`] takes from `list`.
pub open spec fn spec_purged_handles(handles: Seq<u64>, list: Seq<TransactionView>, tx_id: u64)
    -> Seq<u64>
    decreases list.len(),
{
    if list.len() > MAX_TRANSACTIONS && list[0].id != tx_id + 1 {
        spec_purged_handles(spec_with_handle(handles, list[0]), list.drop_first(), tx_id)
    } else {
        handles
    }
}

/// `list` without the oldest transactions that are over the limit of
/// [`MAX_TRANSACTIONS`]; the purge stops at the transaction that the host
/// knows as `tx_id`.
pub open spec fn spec_purged(list: Seq<TransactionView>, tx_id: u64) -> Seq<TransactionView>
    decreases list.len(),
{
    if list.len() > MAX_TRANSACTIONS && list[0].id != tx_id + 1 {
        spec_purged(list.drop_first(), tx_id)
    } else {
        list
    }
}

impl StateView {
    /// The state of a flow on which nothing has been seen.
    pub open spec fn initial() -> StateView {
        StateView {
            tx_id: 0,
            transactions: Seq::empty(),
            events: 0,
            request_buffer: Seq::empty(),
            response_buffer: Seq::empty(),
            gap_ts: false,
            gap_tc: false,
            released: Seq::empty(),
        }
    }

    /// The state with the queue purged, see [`DNSState::purge`]: the
    /// transactions over the limit leave, and their handles to detection
    /// state wait for the host.
    pub open spec fn purged(self, tx_id: u64) -> StateView {
        StateView {
            transactions: spec_purged(self.transactions, tx_id),
            released: spec_purged_handles(self.released, self.transactions, tx_id),
            ..self
        }
    }

    /// The state without the transaction that the host knows as `tx_id`,
    /// see [`DNSState::free_tx`].
    pub open spec fn without(self, tx_id: u64) -> StateView {
        let at = spec_position(self.transactions, tx_id);
        if at < self.transactions.len() {
            StateView {
                transactions: self.transactions.remove(at),
                released: spec_with_handle(self.released, self.transactions[at]),
                ..self
            }
        } else {
            self
        }
    }

    /// The identifiers of the transactions rise strictly, in the order of the
    /// queue, and none is above the newest identifier given.
    pub open spec fn ordered(self) -> bool {
        &&& forall|i: int, j: int|
            0 <= i < j < self.transactions.len() ==> self.transactions[i].id
                < self.transactions[j].id
        &&& forall|i: int|
            0 <= i < self.transactions.len() ==> 1 <= #[trigger] self.transactions[i].id
                <= self.tx_id
    }

    /// `event` raised: it is added to the newest transaction and counted,
    /// the count stopping at its largest value. Without a transaction the
    /// event is lost.
    pub open spec fn with_event(self, event: DNSEvent) -> StateView {
        if self.transactions.len() == 0 {
            self
        } else {
            let last = self.transactions.len() - 1;
            StateView {
                transactions: self.transactions.update(
                    last,
                    self.transactions[last].with_event(event),
                ),
                events: if self.events < u16::MAX {
                    (self.events + 1) as u16
                } else {
                    self.events
                },
                ..self
            }
        }
    }

    /// A new transaction added under the next identifier.
    pub open spec fn with_transaction(
        self,
        request: Option<RequestView>,
        response: Option<ResponseView>,
    ) -> StateView {
        StateView {
            tx_id: (self.tx_id + 1) as u64,
            transactions: self.transactions.push(
                TransactionView {
                    id: (self.tx_id + 1) as u64,
                    request,
                    response,
                    ..TransactionView::empty()
                },
            ),
            ..self
        }
    }
}

/// Whether `msg` parses as a DNS message, and if so whether its header marks
/// it as a request.
pub open spec fn spec_probe(msg: Seq<u8>) -> (bool, bool) {
    match spec_request(msg) {
        Some(request) => (true, request.header.flags & DNS_FLAG_RESPONSE == 0),
        None => (false, false),
    }
}

/// [`spec_probe`] of what follows a two-octet length prefix.
pub open spec fn spec_probe_tcp(stream: Seq<u8>) -> (bool, bool) {
    if stream.len() >= 2 {
        spec_probe(stream.skip(2))
    } else {
        (false, false)
    }
}

/// The length of the message at the front of `buffer`, if the buffer holds
/// the two-octet big-endian length prefix and all the octets it announces.
pub open spec fn spec_frame(buffer: Seq<u8>) -> Option<int> {
    if buffer.len() >= 2 && buffer.len() >= spec_be_u16(buffer[0], buffer[1]) + 2 {
        Some(spec_be_u16(buffer[0], buffer[1]) as int)
    } else {
        None
    }
}

impl StateView {
    /// Whether `msg` is taken as a request: it parses, is not marked as a
    /// response, has the reserved flag clear, and an identifier is left for
    /// its transaction.
    pub open spec fn accepts_request(self, msg: Seq<u8>) -> bool {
        match spec_request(msg) {
            Some(request) => request.header.flags & DNS_FLAG_RESPONSE == 0 && request.header.flags
                & DNS_FLAG_Z == 0 && self.tx_id < u64::MAX,
            None => false,
        }
    }

    /// The state after `msg` was handed in as a request: a new transaction
    /// where it is accepted, else the event that tells why it was not.
    pub open spec fn after_request(self, msg: Seq<u8>) -> StateView {
        match spec_request(msg) {
            Some(request) => if request.header.flags & DNS_FLAG_RESPONSE != 0 {
                self.with_event(DNSEvent::NotRequest)
            } else if request.header.flags & DNS_FLAG_Z != 0 {
                self.with_event(DNSEvent::ZFlagSet)
            } else if self.tx_id == u64::MAX {
                self.with_event(DNSEvent::StateMemCapReached)
            } else {
                self.with_transaction(Some(request), None)
            },
            None => self.with_event(DNSEvent::MalformedData),
        }
    }

    /// Whether `msg` is taken as a response: it parses, has the reserved flag
    /// clear, and an identifier is left for its transaction. A message that
    /// is not marked as a response is still taken.
    pub open spec fn accepts_response(self, msg: Seq<u8>) -> bool {
        match spec_response(msg) {
            Some(response) => response.header.flags & DNS_FLAG_Z == 0 && self.tx_id < u64::MAX,
            None => false,
        }
    }

    /// The state after `msg` was handed in as a response. A message not
    /// marked as a response raises `NotResponse` on the transaction before
    /// it and is then treated like any other.
    pub open spec fn after_response(self, msg: Seq<u8>) -> StateView {
        match spec_response(msg) {
            Some(response) => {
                let noted = if response.header.flags & DNS_FLAG_RESPONSE == 0 {
                    self.with_event(DNSEvent::NotResponse)
                } else {
                    self
                };
                if response.header.flags & DNS_FLAG_Z != 0 {
                    noted.with_event(DNSEvent::ZFlagSet)
                } else if self.tx_id == u64::MAX {
                    noted.with_event(DNSEvent::StateMemCapReached)
                } else {
                    noted.with_transaction(None, Some(response))
                }
            },
            None => self.with_event(DNSEvent::MalformedData),
        }
    }

    /// Every whole message at the front of the request buffer handed in as a
    /// request, one after the other, and `count` raised by the number of
    /// those that were accepted.
    pub open spec fn drain_requests(self, count: nat) -> (StateView, nat)
        decreases self.request_buffer.len(),
    {
        match spec_frame(self.request_buffer) {
            Some(size) => {
                let msg = self.request_buffer.subrange(2, size + 2);
                let rest = StateView {
                    request_buffer: self.request_buffer.skip(size + 2),
                    ..self
                };
                rest.after_request(msg).drain_requests(
                    if rest.accepts_request(msg) {
                        count + 1
                    } else {
                        count
                    },
                )
            },
            None => (self, count),
        }
    }

    /// Every whole message at the front of the response buffer handed in as
    /// a response, one after the other, and `count` raised by the number of
    /// those that were accepted.
    pub open spec fn drain_responses(self, count: nat) -> (StateView, nat)
        decreases self.response_buffer.len(),
    {
        match spec_frame(self.response_buffer) {
            Some(size) => {
                let msg = self.response_buffer.subrange(2, size + 2);
                let rest = StateView {
                    response_buffer: self.response_buffer.skip(size + 2),
                    ..self
                };
                rest.after_response(msg).drain_responses(
                    if rest.accepts_response(msg) {
                        count + 1
                    } else {
                        count
                    },
                )
            },
            None => (self, count),
        }
    }

    /// The state after `input` arrived on the stream towards the server, and
    /// the number of requests accepted from it.
    ///
    /// After a gap the input is first probed: unless it starts like a DNS
    /// message behind a length prefix it is dropped and nothing changes.
    /// Otherwise the input goes behind what the buffer holds and every whole
    /// message is taken off the front.
    pub open spec fn after_request_stream(self, input: Seq<u8>) -> (StateView, nat) {
        if self.gap_ts && !spec_probe_tcp(input).0 {
            (self, 0)
        } else {
            (StateView {
                gap_ts: false,
                request_buffer: self.request_buffer + input,
                ..self
            }).drain_requests(0)
        }
    }

    /// The state after `input` arrived on the stream towards the client, and
    /// the number of responses accepted from it. See
    /// [`StateView::after_request_stream`].
    pub open spec fn after_response_stream(self, input: Seq<u8>) -> (StateView, nat) {
        if self.gap_tc && !spec_probe_tcp(input).0 {
            (self, 0)
        } else {
            (StateView {
                gap_tc: false,
                response_buffer: self.response_buffer + input,
                ..self
            }).drain_responses(0)
        }
    }

    /// The state after the host reported `gap` lost octets towards the
    /// server: what was buffered is of no use any more.
    pub open spec fn after_request_gap(self, gap: u32) -> StateView {
        if gap > 0 {
            StateView { request_buffer: Seq::empty(), gap_ts: true, ..self }
        } else {
            self
        }
    }

    /// The state after the host reported `gap` lost octets towards the
    /// client.
    pub open spec fn after_response_gap(self, gap: u32) -> StateView {
        if gap > 0 {
            StateView { response_buffer: Seq::empty(), gap_tc: true, ..self }
        } else {
            self
        }
    }
}

/// What the stream parsers report for `count` accepted messages: the count
/// itself, held at the largest value of the result type.
pub open spec fn spec_reported(count: nat) -> i8 {
    if count <= i8::MAX {
        count as i8
    } else {
        i8::MAX
    }
}

/// Raising an event keeps the identifiers in order.
pub proof fn lemma_event_keeps_order(state: StateView, event: DNSEvent)
    requires
        state.ordered(),
    ensures
        state.with_event(event).ordered(),
{
}

/// Adding a transaction keeps the identifiers in order.
pub proof fn lemma_transaction_keeps_order(
    state: StateView,
    request: Option<RequestView>,
    response: Option<ResponseView>,
)
    requires
        state.ordered(),
        state.tx_id < u64::MAX,
    ensures
        state.with_transaction(request, response).ordered(),
{
}

/// Appends `input` to `buffer`.
fn append_bytes(buffer: &mut Vec<u8>, input: &[u8])
    ensures
        final(buffer)@ == old(buffer)@ + input@,
{
    let len = input.len();
    let mut i: usize = 0;
    while i < len
        invariant
            i <= len,
            len == input@.len(),
            buffer@ == old(buffer)@ + input@.subrange(0, i as int),
        decreases len - i,
    {
        buffer.push(input[i]);
        i += 1;
    }
    assert(input@.subrange(0, len as int) =~= input@);
}

/// Probes `input` for a DNS message: tells whether it parses as one and, if
/// so, whether its header marks it as a request.
pub fn probe(input: &[u8]) -> (r: (bool, bool))
    ensures
        r == spec_probe(input@),
{
    match dns_parse_request(input) {
        Some(request) => (true, request.header.flags & DNS_FLAG_RESPONSE == 0),
        None => (false, false),
    }
}

/// Probes stream input: a two-octet length prefix and behind it a DNS
/// message as [`probe`] knows it.
pub fn probe_tcp(input: &[u8]) -> (r: (bool, bool))
    ensures
        r == spec_probe_tcp(input@),
{
    match be_u16(input) {
        Some(_) => {
            let rest = vstd::slice::slice_subrange(input, 2, input.len());
            assert(rest@ == input@.skip(2));
            probe(rest)
        },
        None => (false, false),
    }
}

impl DNSState {
    /// The state of a new flow over the datagram transport.
    pub fn new() -> (state: DNSState)
        ensures
            state@ == StateView::initial(),
    {
        let state = DNSState {
            tx_id: 0,
            transactions: Vec::new(),
            events: 0,
            request_buffer: Vec::new(),
            response_buffer: Vec::new(),
            gap_ts: false,
            gap_tc: false,
            released: Vec::new(),
        };
        assert(transactions_view(state.transactions@) =~= Seq::empty());
        state
    }

    /// The state of a new flow over the stream transport, with room set
    /// aside for the largest message in each buffer.
    pub fn new_tcp() -> (state: DNSState)
        ensures
            state@ == StateView::initial(),
    {
        let state = DNSState {
            tx_id: 0,
            transactions: Vec::new(),
            events: 0,
            request_buffer: Vec::with_capacity(0xffff),
            response_buffer: Vec::with_capacity(0xffff),
            gap_ts: false,
            gap_tc: false,
            released: Vec::new(),
        };
        assert(transactions_view(state.transactions@) =~= Seq::empty());
        state
    }

    /// Takes the next identifier and returns an empty transaction that
    /// carries it. The transaction is not yet in the queue.
    pub fn new_tx(&mut self) -> (tx: DNSTransaction)
        requires
            old(self).tx_id < u64::MAX,
        ensures
            final(self)@ == (StateView { tx_id: (old(self).tx_id + 1) as u64, ..old(self)@ }),
            tx@ == (TransactionView {
                id: (old(self).tx_id + 1) as u64,
                ..TransactionView::empty()
            }),
    {
        let mut tx = DNSTransaction::new();
        self.tx_id += 1;
        tx.id = self.tx_id;
        tx
    }

    /// Removes the transaction that the host knows as `tx_id`, if it is in
    /// the queue. Its handle to detection state, if it has one, is kept for
    /// the host to release.
    pub fn free_tx(&mut self, tx_id: u64)
        ensures
            final(self)@ == old(self)@.without(tx_id),
            old(self)@.ordered() ==> final(self)@.ordered(),
    {
        let index = self.position(tx_id);
        if index < self.transactions.len() {
            let ghost before = self.transactions@;
            let mut tx = self.transactions.remove(index);
            assert(transactions_view(self.transactions@) =~= transactions_view(before).remove(
                index as int,
            ));
            assert(tx@ == transactions_view(before)[index as int]);
            match tx.free() {
                Some(handle) => {
                    self.released.push(handle);
                },
                None => {},
            }
        }
    }

    /// Hands over the handles to detection state of the transactions that
    /// have left the queue since they were last taken.
    pub fn take_released(&mut self) -> (handles: Vec<u64>)
        ensures
            handles@ == old(self)@.released,
            final(self)@ == (StateView { released: Seq::empty(), ..old(self)@ }),
    {
        let mut handles: Vec<u64> = Vec::new();
        core::mem::swap(&mut handles, &mut self.released);
        handles
    }

    /// Drops the oldest transactions while the queue holds more than
    /// [`MAX_TRANSACTIONS`], but stops at the transaction that the host
    /// knows as `tx_id`: the one it is reading is never taken away.
    ///
    /// Afterwards the queue is within the limit unless its head is that
    /// transaction.
    pub fn purge(&mut self, tx_id: u64)
        ensures
            final(self)@ == old(self)@.purged(tx_id),
            final(self)@.transactions.len() <= MAX_TRANSACTIONS || final(self)@.transactions[0].id
                == tx_id + 1,
            old(self)@.ordered() ==> final(self)@.ordered(),
    {
        while self.transactions.len() > MAX_TRANSACTIONS
            invariant
                old(self)@.purged(tx_id) == self@.purged(tx_id),
                old(self)@.ordered() ==> self@.ordered(),
            decreases self.transactions.len(),
        {
            assert(self@.transactions[0] == self.transactions@[0]@);
            if tx_id < u64::MAX && self.transactions[0].id == tx_id + 1 {
                return ;
            }
            let ghost before = self.transactions@;
            let mut tx = self.transactions.remove(0);
            assert(transactions_view(self.transactions@) =~= transactions_view(
                before,
            ).drop_first());
            assert(tx@ == transactions_view(before)[0]);
            match tx.free() {
                Some(handle) => {
                    self.released.push(handle);
                },
                None => {},
            }
        }
    }

    /// Purges the queue as [`DNSState::purge`] does and then looks up the
    /// transaction that the host knows as `tx_id`.
    pub fn get_tx(&mut self, tx_id: u64) -> (found: Option<&DNSTransaction>)
        ensures
            final(self)@ == old(self)@.purged(tx_id),
            final(self)@.transactions.len() <= MAX_TRANSACTIONS || final(self)@.transactions[0].id
                == tx_id + 1,
            old(self)@.ordered() ==> final(self)@.ordered(),
            match found {
                Some(tx) => {
                    let at = spec_position(final(self)@.transactions, tx_id);
                    at < final(self)@.transactions.len() && tx@ == final(self)@.transactions[at]
                        && tx@.id == tx_id + 1
                },
                None => spec_position(final(self)@.transactions, tx_id) == final(self)@.transactions.len(),
            },
    {
        self.purge(tx_id);
        let index = self.position(tx_id);
        if index < self.transactions.len() {
            Some(&self.transactions[index])
        } else {
            None
        }
    }

    /// Raises `event` on the newest transaction. Without a transaction the
    /// event is lost.
    pub fn set_event(&mut self, event: DNSEvent)
        ensures
            final(self)@ == old(self)@.with_event(event),
            old(self)@.ordered() ==> final(self)@.ordered(),
    {
        let len = self.transactions.len();
        if len == 0 {
            return ;
        }
        let ghost before = self.transactions@;
        self.transactions[len - 1].events.push(event);
        assert(transactions_view(self.transactions@) =~= transactions_view(before).update(
            len - 1,
            transactions_view(before)[len - 1].with_event(event),
        ));
        if self.events < u16::MAX {
            self.events += 1;
        }
    }

    /// Adds `tx` behind the other transactions.
    fn push_tx(&mut self, tx: DNSTransaction)
        ensures
            final(self)@ == (StateView {
                transactions: old(self)@.transactions.push(tx@),
                ..old(self)@
            }),
    {
        let ghost before = self.transactions@;
        self.transactions.push(tx);
        assert(transactions_view(self.transactions@) =~= transactions_view(before).push(tx@));
    }

    /// Parses one whole message as a request.
    ///
    /// Where the message is accepted a transaction that holds it goes to the
    /// end of the queue, under the next identifier, and the result is `true`.
    /// Otherwise the result is `false` and the newest transaction, if there
    /// is one, gets the event: `MalformedData` for a message that does not
    /// parse, `NotRequest` for one marked as a response, `ZFlagSet` for one
    /// with the reserved flag, `StateMemCapReached` where the identifiers
    /// have run out.
    pub fn parse_request(&mut self, input: &[u8]) -> (accepted: bool)
        ensures
            final(self)@ == old(self)@.after_request(input@),
            accepted == old(self)@.accepts_request(input@),
            accepted ==> final(self)@.transactions.last().wire_id() == spec_be_u16(
                input@[0],
                input@[1],
            ),
            old(self)@.ordered() ==> final(self)@.ordered(),
    {
        proof {
            if old(self)@.ordered() {
                lemma_event_keeps_order(old(self)@, DNSEvent::MalformedData);
                lemma_event_keeps_order(old(self)@, DNSEvent::NotRequest);
                lemma_event_keeps_order(old(self)@, DNSEvent::ZFlagSet);
                lemma_event_keeps_order(old(self)@, DNSEvent::StateMemCapReached);
            }
        }
        match dns_parse_request(input) {
            Some(request) => {
                if request.header.flags & DNS_FLAG_RESPONSE != 0 {
                    self.set_event(DNSEvent::NotRequest);
                    return false;
                }
                if request.header.flags & DNS_FLAG_Z != 0 {
                    self.set_event(DNSEvent::ZFlagSet);
                    return false;
                }
                if self.tx_id == u64::MAX {
                    self.set_event(DNSEvent::StateMemCapReached);
                    return false;
                }
                proof {
                    if old(self)@.ordered() {
                        lemma_transaction_keeps_order(old(self)@, Some(request@), None);
                    }
                }
                let mut tx = self.new_tx();
                tx.request = Some(request);
                self.push_tx(tx);
                true
            },
            None => {
                self.set_event(DNSEvent::MalformedData);
                false
            },
        }
    }

    /// Parses one whole message as a response.
    ///
    /// A message that is not marked as a response raises `NotResponse` on
    /// the newest transaction and is parsed on. Where the message is then
    /// accepted a transaction that holds it goes to the end of the queue and
    /// the result is `true`. Otherwise the result is `false` and the newest
    /// transaction gets the event: `MalformedData`, `ZFlagSet` or
    /// `StateMemCapReached`, as for a request.
    pub fn parse_response(&mut self, input: &[u8]) -> (accepted: bool)
        ensures
            final(self)@ == old(self)@.after_response(input@),
            accepted == old(self)@.accepts_response(input@),
            accepted ==> final(self)@.transactions.last().wire_id() == spec_be_u16(
                input@[0],
                input@[1],
            ),
            old(self)@.ordered() ==> final(self)@.ordered(),
    {
        proof {
            if old(self)@.ordered() {
                lemma_event_keeps_order(old(self)@, DNSEvent::MalformedData);
                lemma_event_keeps_order(old(self)@, DNSEvent::NotResponse);
            }
        }
        match dns_parse_response(input) {
            Some(response) => {
                if response.header.flags & DNS_FLAG_RESPONSE == 0 {
                    self.set_event(DNSEvent::NotResponse);
                }
                let ghost noted = self@;
                proof {
                    if noted.ordered() {
                        lemma_event_keeps_order(noted, DNSEvent::ZFlagSet);
                        lemma_event_keeps_order(noted, DNSEvent::StateMemCapReached);
                    }
                }
                if response.header.flags & DNS_FLAG_Z != 0 {
                    self.set_event(DNSEvent::ZFlagSet);
                    return false;
                }
                if self.tx_id == u64::MAX {
                    self.set_event(DNSEvent::StateMemCapReached);
                    return false;
                }
                proof {
                    if noted.ordered() {
                        lemma_transaction_keeps_order(noted, None, Some(response@));
                    }
                }
                let mut tx = self.new_tx();
                tx.response = Some(response);
                self.push_tx(tx);
                true
            },
            None => {
                self.set_event(DNSEvent::MalformedData);
                false
            },
        }
    }

    /// Takes `input` from the stream towards the server: buffers it, then
    /// parses every whole length-prefixed message as a request.
    ///
    /// Returns the number of requests accepted, held at the largest value
    /// of the result type. Input that arrives after a gap and does not look
    /// like DNS is dropped. Empty input changes nothing while the buffer
    /// holds no whole message. What stays in the buffer is never more than
    /// [`DNS_MAX_BUFFERED`] octets.
    pub fn parse_request_tcp(&mut self, input: &[u8]) -> (count: i8)
        ensures
            final(self)@ == old(self)@.after_request_stream(input@).0,
            count == spec_reported(old(self)@.after_request_stream(input@).1),
            count >= 0,
            spec_frame(final(self)@.request_buffer).is_none() || (old(self)@.gap_ts
                && !spec_probe_tcp(input@).0),
            final(self)@.request_buffer.len() <= DNS_MAX_BUFFERED || (old(self)@.gap_ts
                && !spec_probe_tcp(input@).0),
            old(self)@.ordered() ==> final(self)@.ordered(),
    {
        if self.gap_ts {
            let (is_dns, _) = probe_tcp(input);
            if is_dns {
                self.gap_ts = false;
            } else {
                return 0;
            }
        }
        append_bytes(&mut self.request_buffer, input);
        let mut count: i8 = 0;
        let ghost mut taken: nat = 0;
        loop
            invariant
                old(self)@.after_request_stream(input@) == self@.drain_requests(taken),
                count == spec_reported(taken),
                old(self)@.ordered() ==> self@.ordered(),
            ensures
                self@ == old(self)@.after_request_stream(input@).0,
                taken == old(self)@.after_request_stream(input@).1,
                spec_frame(self@.request_buffer).is_none(),
            decreases self.request_buffer.len(),
        {
            let size = match be_u16(self.request_buffer.as_slice()) {
                Some(len) => len as usize,
                None => {
                    break ;
                },
            };
            if self.request_buffer.len() - 2 < size {
                break ;
            }
            let ghost whole = self.request_buffer@;
            let mut frame = self.request_buffer.split_off(size + 2);
            core::mem::swap(&mut self.request_buffer, &mut frame);
            assert(self.request_buffer@ == whole.skip(size + 2));
            let msg = vstd::slice::slice_subrange(frame.as_slice(), 2, size + 2);
            assert(msg@ == whole.subrange(2, size + 2));
            if self.parse_request(msg) {
                if count < i8::MAX {
                    count += 1;
                }
                proof {
                    taken = taken + 1;
                }
            }
        }
        count
    }

    /// Takes `input` from the stream towards the client: buffers it, then
    /// parses every whole length-prefixed message as a response.
    ///
    /// Returns the number of responses accepted, held at the largest value
    /// of the result type. Input that arrives after a gap and does not look
    /// like DNS is dropped. Empty input changes nothing while the buffer
    /// holds no whole message. What stays in the buffer is never more than
    /// [`DNS_MAX_BUFFERED`] octets.
    pub fn parse_response_tcp(&mut self, input: &[u8]) -> (count: i8)
        ensures
            final(self)@ == old(self)@.after_response_stream(input@).0,
            count == spec_reported(old(self)@.after_response_stream(input@).1),
            count >= 0,
            spec_frame(final(self)@.response_buffer).is_none() || (old(self)@.gap_tc
                && !spec_probe_tcp(input@).0),
            final(self)@.response_buffer.len() <= DNS_MAX_BUFFERED || (old(self)@.gap_tc
                && !spec_probe_tcp(input@).0),
            old(self)@.ordered() ==> final(self)@.ordered(),
    {
        if self.gap_tc {
            let (is_dns, _) = probe_tcp(input);
            if is_dns {
                self.gap_tc = false;
            } else {
                return 0;
            }
        }
        append_bytes(&mut self.response_buffer, input);
        let mut count: i8 = 0;
        let ghost mut taken: nat = 0;
        loop
            invariant
                old(self)@.after_response_stream(input@) == self@.drain_responses(taken),
                count == spec_reported(taken),
                old(self)@.ordered() ==> self@.ordered(),
            ensures
                self@ == old(self)@.after_response_stream(input@).0,
                taken == old(self)@.after_response_stream(input@).1,
                spec_frame(self@.response_buffer).is_none(),
            decreases self.response_buffer.len(),
        {
            let size = match be_u16(self.response_buffer.as_slice()) {
                Some(len) => len as usize,
                None => {
                    break ;
                },
            };
            if self.response_buffer.len() - 2 < size {
                break ;
            }
            let ghost whole = self.response_buffer@;
            let mut frame = self.response_buffer.split_off(size + 2);
            core::mem::swap(&mut self.response_buffer, &mut frame);
            assert(self.response_buffer@ == whole.skip(size + 2));
            let msg = vstd::slice::slice_subrange(frame.as_slice(), 2, size + 2);
            assert(msg@ == whole.subrange(2, size + 2));
            if self.parse_response(msg) {
                if count < i8::MAX {
                    count += 1;
                }
                proof {
                    taken = taken + 1;
                }
            }
        }
        count
    }

    /// The host reports `gap` octets lost towards the server: the buffered
    /// request octets are dropped and parsing waits for input that looks like
    /// DNS again.
    pub fn request_gap(&mut self, gap: u32)
        ensures
            final(self)@ == old(self)@.after_request_gap(gap),
            old(self)@.ordered() ==> final(self)@.ordered(),
    {
        if gap > 0 {
            self.request_buffer.clear();
            self.gap_ts = true;
        }
    }

    /// The host reports `gap` octets lost towards the client: the buffered
    /// response octets are dropped and parsing waits for input that looks
    /// like DNS again.
    pub fn response_gap(&mut self, gap: u32)
        ensures
            final(self)@ == old(self)@.after_response_gap(gap),
            old(self)@.ordered() ==> final(self)@.ordered(),
    {
        if gap > 0 {
            self.response_buffer.clear();
            self.gap_tc = true;
        }
    }

    /// The index in the queue of the transaction that the host knows as
    /// `tx_id`, or the length of the queue.
    fn position(&self, tx_id: u64) -> (index: usize)
        ensures
            index == spec_position(self@.transactions, tx_id),
            index <= self.transactions@.len(),
            index < self.transactions@.len() ==> self.transactions@[index as int].id == tx_id
                + 1,
    {
        let len = self.transactions.len();
        let mut i: usize = 0;
        assert(self@.transactions.skip(0) =~= self@.transactions);
        while i < len
            invariant
                i <= len,
                len == self.transactions@.len(),
                spec_position(self@.transactions, tx_id) == i + spec_position(
                    self@.transactions.skip(i as int),
                    tx_id,
                ),
            decreases len - i,
        {
            let ghost rest = self@.transactions.skip(i as int);
            assert(rest[0] == self.transactions@[i as int]@);
            assert(rest.drop_first() =~= self@.transactions.skip(i + 1));
            if tx_id < u64::MAX && self.transactions[i].id == tx_id + 1 {
                return i;
            }
            i += 1;
        }
        assert(self@.transactions.skip(len as int).len() == 0);
        len
    }
}

/// The state of a new flow over the datagram transport.
pub fn rs_dns_state_new() -> (state: DNSState)
    ensures
        state@ == StateView::initial(),
{
    DNSState::new()
}

/// The state of a new flow over the stream transport.
pub fn rs_dns_state_tcp_new() -> (state: DNSState)
    ensures
        state@ == StateView::initial(),
{
    DNSState::new_tcp()
}

/// Ends a flow. Everything the state holds goes with it; what it held for
/// the host is handed back: the handles that waited to be released and,
/// behind them, the handle of every transaction still in the queue.
pub fn rs_dns_state_free(state: DNSState) -> (released: Vec<u64>)
    ensures
        released@ == spec_with_handles(state@.released, state@.transactions),
{
    let ghost start = state@;
    let mut state = state;
    let mut released: Vec<u64> = Vec::new();
    core::mem::swap(&mut released, &mut state.released);
    let count = state.transactions.len();
    let mut i: usize = 0;
    assert(state@.transactions.skip(0) =~= state@.transactions);
    while i < count
        invariant
            i <= count,
            count == state.transactions@.len(),
            spec_with_handles(start.released, start.transactions) == spec_with_handles(
                released@,
                state@.transactions.skip(i as int),
            ),
        decreases count - i,
    {
        let ghost rest = state@.transactions.skip(i as int);
        assert(rest[0] == state.transactions@[i as int]@);
        assert(rest.drop_first() =~= state@.transactions.skip(i + 1));
        match state.transactions[i].de_state {
            Some(handle) => {
                released.push(handle);
            },
            None => {},
        }
        i += 1;
    }
    released
}

/// Removes the transaction that the host knows as `tx_id`.
pub fn rs_dns_state_tx_free(state: &mut DNSState, tx_id: u64)
    ensures
        final(state)@ == old(state)@.without(tx_id),
{
    state.free_tx(tx_id);
}

/// Parses a datagram as a request: one where it is accepted, minus one
/// where it is not.
pub fn rs_dns_parse_request(state: &mut DNSState, input: &[u8]) -> (r: i8)
    ensures
        final(state)@ == old(state)@.after_request(input@),
        r == (if old(state)@.accepts_request(input@) {
            1i8
        } else {
            -1i8
        }),
{
    if state.parse_request(input) {
        1
    } else {
        -1
    }
}

/// Parses a datagram as a response: one where it is accepted, minus one
/// where it is not.
pub fn rs_dns_parse_response(state: &mut DNSState, input: &[u8]) -> (r: i8)
    ensures
        final(state)@ == old(state)@.after_response(input@),
        r == (if old(state)@.accepts_response(input@) {
            1i8
        } else {
            -1i8
        }),
{
    if state.parse_response(input) {
        1
    } else {
        -1
    }
}

/// What the host reports for one direction of a stream: `input_len` octets
/// that are there, or that were lost where `input` is absent.
pub open spec fn spec_request_tcp(state: StateView, input: Option<Seq<u8>>, input_len: u32) -> (
    StateView,
    nat,
) {
    if input_len == 0 {
        (state, 0)
    } else {
        match input {
            Some(octets) => state.after_request_stream(octets),
            None => (state.after_request_gap(input_len), 0),
        }
    }
}

/// See [`spec_request_tcp`], for the direction towards the client.
pub open spec fn spec_response_tcp(state: StateView, input: Option<Seq<u8>>, input_len: u32) -> (
    StateView,
    nat,
) {
    if input_len == 0 {
        (state, 0)
    } else {
        match input {
            Some(octets) => state.after_response_stream(octets),
            None => (state.after_response_gap(input_len), 0),
        }
    }
}

/// The octets that the host handed in, if it handed any.
pub open spec fn spec_input_view(input: Option<&[u8]>) -> Option<Seq<u8>> {
    match input {
        Some(octets) => Some(octets@),
        None => None,
    }
}

/// Takes what the host reports for the stream towards the server: octets
/// to parse, or a gap of `input_len` octets where `input` is absent.
/// Nothing happens for a length of zero. Returns the number of requests
/// accepted.
pub fn rs_dns_parse_request_tcp(state: &mut DNSState, input: Option<&[u8]>, input_len: u32) -> (r:
    i8)
    ensures
        final(state)@ == spec_request_tcp(old(state)@, spec_input_view(input), input_len).0,
        r == spec_reported(spec_request_tcp(old(state)@, spec_input_view(input), input_len).1),
{
    if input_len > 0 {
        match input {
            Some(buf) => {
                return state.parse_request_tcp(buf);
            },
            None => {
                state.request_gap(input_len);
            },
        }
    }
    0
}

/// Takes what the host reports for the stream towards the client, as
/// [`rs_dns_parse_request_tcp`] does for the other direction.
pub fn rs_dns_parse_response_tcp(state: &mut DNSState, input: Option<&[u8]>, input_len: u32) -> (r:
    i8)
    ensures
        final(state)@ == spec_response_tcp(old(state)@, spec_input_view(input), input_len).0,
        r == spec_reported(spec_response_tcp(old(state)@, spec_input_view(input), input_len).1),
{
    if input_len > 0 {
        match input {
            Some(buf) => {
                return state.parse_response_tcp(buf);
            },
            None => {
                state.response_gap(input_len);
            },
        }
    }
    0
}

/// The progress at which a transaction is complete in `_direction`: one.
pub fn rs_dns_state_progress_completion_status(_direction: u8) -> (r: i32)
    ensures
        r == 1,
{
    1
}

/// The progress of a transaction in `_direction`: a DNS transaction is
/// complete in both directions as soon as it exists.
pub fn rs_dns_tx_get_alstate_progress(_tx: &DNSTransaction, _direction: u8) -> (r: u8)
    ensures
        r == 1,
{
    1
}

/// Stores the detection flags of the host for the direction `dir`.
pub fn rs_dns_tx_set_detect_flags(tx: &mut DNSTransaction, dir: u8, flags: u64)
    ensures
        final(tx)@ == (if dir & STREAM_TOSERVER != 0 {
            TransactionView { detect_flags_ts: flags, ..old(tx)@ }
        } else {
            TransactionView { detect_flags_tc: flags, ..old(tx)@ }
        }),
{
    if dir & STREAM_TOSERVER != 0 {
        tx.detect_flags_ts = flags;
    } else {
        tx.detect_flags_tc = flags;
    }
}

/// The detection flags of the host for the direction `dir`.
pub fn rs_dns_tx_get_detect_flags(tx: &DNSTransaction, dir: u8) -> (flags: u64)
    ensures
        flags == (if dir & STREAM_TOSERVER != 0 {
            tx@.detect_flags_ts
        } else {
            tx@.detect_flags_tc
        }),
{
    if dir & STREAM_TOSERVER != 0 {
        tx.detect_flags_ts
    } else {
        tx.detect_flags_tc
    }
}

/// Stores which loggers have seen the transaction.
pub fn rs_dns_tx_set_logged(tx: &mut DNSTransaction, logged: u32)
    ensures
        final(tx)@ == (TransactionView { logged, ..old(tx)@ }),
{
    tx.logged = logged;
}

/// Which loggers have seen the transaction.
pub fn rs_dns_tx_get_logged(tx: &DNSTransaction) -> (logged: u32)
    ensures
        logged == tx@.logged,
{
    tx.logged
}

/// The number of transactions made on the flow so far.
pub fn rs_dns_state_get_tx_count(state: &DNSState) -> (count: u64)
    ensures
        count == state@.tx_id,
{
    state.tx_id
}

/// The transaction that the host knows as `tx_id`, see
/// [`DNSState::get_tx`].
pub fn rs_dns_state_get_tx(state: &mut DNSState, tx_id: u64) -> (found: Option<&DNSTransaction>)
    ensures
        final(state)@ == old(state)@.purged(tx_id),
        match found {
            Some(tx) => {
                let at = spec_position(final(state)@.transactions, tx_id);
                at < final(state)@.transactions.len() && tx@ == final(state)@.transactions[at]
            },
            None => spec_position(final(state)@.transactions, tx_id) == final(state)@.transactions.len(),
        },
{
    state.get_tx(tx_id)
}

/// Stores the host's handle to its detection state for the transaction.
pub fn rs_dns_state_set_tx_detect_state(tx: &mut DNSTransaction, de_state: u64)
    ensures
        final(tx)@ == (TransactionView { de_state: Some(de_state), ..old(tx)@ }),
{
    tx.de_state = Some(de_state);
}

/// The host's handle to its detection state for the transaction.
pub fn rs_dns_state_get_tx_detect_state(tx: &DNSTransaction) -> (de_state: Option<u64>)
    ensures
        de_state == tx@.de_state,
{
    tx.de_state
}

/// The events raised on the transaction.
pub fn rs_dns_state_get_events(tx: &DNSTransaction) -> (events: &Vec<DNSEvent>)
    ensures
        events@ == tx@.events,
{
    &tx.events
}

/// The question `i` of the request of a transaction, where the request has
/// one and its name is not empty.
pub open spec fn spec_request_query(tx: TransactionView, i: u16) -> Option<
    crate::dns::parser::QueryView,
> {
    match tx.request {
        Some(request) => if i < request.queries.len() && request.queries[i as int].name.len()
            > 0 {
            Some(request.queries[i as int])
        } else {
            None
        },
        None => None,
    }
}

/// The name of the question `i` of the request, if [`spec_request_query`]
/// finds the question.
pub fn rs_dns_tx_get_query_name(tx: &DNSTransaction, i: u16) -> (name: Option<&[u8]>)
    ensures
        match spec_request_query(tx@, i) {
            Some(q) => name.is_some() && name.unwrap()@ == q.name,
            None => name.is_none(),
        },
{
    if let Some(request) = &tx.request {
        if (i as usize) < request.queries.len() {
            let query = &request.queries[i as usize];
            assert(request@.queries[i as int] == query@);
            if query.name.len() > 0 {
                return Some(query.name.as_slice());
            }
        }
    }
    None
}

/// The identifier that the transaction carries on the wire.
pub fn rs_dns_tx_get_tx_id(tx: &DNSTransaction) -> (id: u16)
    ensures
        id == tx@.wire_id(),
{
    tx.tx_id()
}

/// The reply code of the transaction.
pub fn rs_dns_tx_get_response_flags(tx: &DNSTransaction) -> (rcode: u16)
    ensures
        rcode == tx@.rcode(),
{
    tx.rcode()
}

/// The type of the question `i` of the request, if [`spec_request_query`]
/// finds the question.
pub fn rs_dns_tx_get_query_rrtype(tx: &DNSTransaction, i: u16) -> (rrtype: Option<u16>)
    ensures
        match spec_request_query(tx@, i) {
            Some(q) => rrtype == Some(q.rrtype),
            None => rrtype.is_none(),
        },
{
    if let Some(request) = &tx.request {
        if (i as usize) < request.queries.len() {
            let query = &request.queries[i as usize];
            assert(request@.queries[i as int] == query@);
            if query.name.len() > 0 {
                return Some(query.rrtype);
            }
        }
    }
    None
}

/// The direction in which a message travels that [`spec_probe`] reports
/// on.
pub open spec fn spec_probe_direction(probed: (bool, bool)) -> Option<u8> {
    if probed.0 {
        Some(
            if probed.1 {
                STREAM_TOSERVER
            } else {
                STREAM_TOCLIENT
            },
        )
    } else {
        None
    }
}

/// Probes a datagram: the direction in which it travels if it is DNS.
pub fn rs_dns_probe(input: &[u8]) -> (rdir: Option<u8>)
    ensures
        rdir == spec_probe_direction(spec_probe(input@)),
{
    let (is_dns, is_request) = probe(input);
    if is_dns {
        Some(
            if is_request {
                STREAM_TOSERVER
            } else {
                STREAM_TOCLIENT
            },
        )
    } else {
        None
    }
}

/// What probing stream input reports to a host that took the direction to
/// be `direction`: whether the input is DNS, and the direction in which it
/// travels where that is another than the host took it to be.
pub open spec fn spec_rs_probe_tcp(direction: u8, stream: Seq<u8>) -> (bool, Option<u8>) {
    match spec_probe_direction(spec_probe_tcp(stream)) {
        Some(dir) => (
            true,
            if direction & (STREAM_TOSERVER | STREAM_TOCLIENT) != dir {
                Some(dir)
            } else {
                None
            },
        ),
        None => (false, None),
    }
}

/// Probes stream input, see [`spec_rs_probe_tcp`].
pub fn rs_dns_probe_tcp(direction: u8, input: &[u8]) -> (r: (bool, Option<u8>))
    ensures
        r == spec_rs_probe_tcp(direction, input@),
{
    let (is_dns, is_request) = probe_tcp(input);
    if is_dns {
        let dir = if is_request {
            STREAM_TOSERVER
        } else {
            STREAM_TOCLIENT
        };
        if direction & (STREAM_TOSERVER | STREAM_TOCLIENT) != dir {
            return (true, Some(dir));
        }
        return (true, None);
    }
    (false, None)
}

} // verus!

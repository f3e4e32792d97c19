//! Wire format of DNS messages.

use vstd::prelude::*;

verus! {

/// Length of the fixed DNS header in octets.
pub const DNS_HEADER_LEN: usize = 12;

/// The fixed header that starts every DNS message.
#[derive(Debug, PartialEq, Eq, Clone, Copy, Structural)]
pub struct DNSHeader {
    pub tx_id: u16,
    pub flags: u16,
    pub questions: u16,
    pub answer_rr: u16,
    pub authority_rr: u16,
    pub additional_rr: u16,
}

/// The unsigned 16-bit value whose big-endian encoding is `hi`, `lo`.
pub open spec fn spec_be_u16(hi: u8, lo: u8) -> u16 {
    (hi as int * 256 + lo as int) as u16
}

/// Reads a big-endian unsigned 16-bit integer from the front of `input`
/// through `nom::be_u16`.
///
/// Trusted: the result is `None` exactly when fewer than two octets are
/// available, and otherwise the first octet times 256 plus the second.
#[verifier::external_body]
pub(crate) fn be_u16(input: &[u8]) -> (r: Option<u16>)
    ensures
        r == (if input@.len() < 2 {
            None
        } else {
            Some(spec_be_u16(input@[0], input@[1]))
        }),
{
    match nom::be_u16(input) {
        Ok((_, value)) => Some(value),
        Err(_) => None,
    }
}

/// The header encoded by the first twelve octets of `s`.
pub open spec fn spec_header(s: Seq<u8>) -> Option<DNSHeader> {
    if s.len() < 12 {
        None
    } else {
        Some(
            DNSHeader {
                tx_id: spec_be_u16(s[0], s[1]),
                flags: spec_be_u16(s[2], s[3]),
                questions: spec_be_u16(s[4], s[5]),
                answer_rr: spec_be_u16(s[6], s[7]),
                authority_rr: spec_be_u16(s[8], s[9]),
                additional_rr: spec_be_u16(s[10], s[11]),
            },
        )
    }
}

/// Reads the big-endian 16-bit field at `pos`.
fn field_u16(input: &[u8], pos: usize) -> (r: u16)
    requires
        pos + 2 <= input@.len(),
    ensures
        r == spec_be_u16(input@[pos as int], input@[pos + 1]),
{
    let len = input.len();
    assert(pos + 2 <= len);
    let tail = vstd::slice::slice_subrange(input, pos, pos + 2);
    match be_u16(tail) {
        Some(v) => v,
        None => 0,
    }
}

/// Decodes the fixed header at the start of a message.
pub fn dns_parse_header(input: &[u8]) -> (r: Option<DNSHeader>)
    ensures
        r == spec_header(input@),
{
    if input.len() < DNS_HEADER_LEN {
        return None;
    }
    Some(
        DNSHeader {
            tx_id: field_u16(input, 0),
            flags: field_u16(input, 2),
            questions: field_u16(input, 4),
            answer_rr: field_u16(input, 6),
            authority_rr: field_u16(input, 8),
            additional_rr: field_u16(input, 10),
        },
    )
}

/// Longest decoded name, in octets, separators included.
pub const DNS_MAX_NAME_LEN: usize = 255;

/// Largest number of compression pointers followed while decoding one name.
pub const DNS_MAX_POINTER_DEPTH: usize = 128;

/// A decoded name together with the offset at which parsing of the enclosing
/// record resumes.
pub struct NameAt {
    pub name: Seq<u8>,
    pub next: int,
}

/// `name` extended by `label`, with a dot between them unless `name` is empty.
pub open spec fn spec_join_label(name: Seq<u8>, label: Seq<u8>) -> Seq<u8> {
    if name.len() == 0 {
        label
    } else {
        name.push(0x2e) + label
    }
}

/// Decodes the name at offset `pos` of `msg`, given the labels `name` gathered
/// so far and the number `jumps` of pointers already followed.
///
/// A length octet below 64 starts a label of that many octets; zero ends the
/// name; an octet of 192 or more forms, with the octet after it, a pointer
/// to an earlier or later offset of the message. Anything else, a label or
/// pointer that leaves the message, a name longer than
/// [`DNS_MAX_NAME_LEN`] or a chain of more than [`DNS_MAX_POINTER_DEPTH`]
/// pointers has no decoding. The offset returned is the one behind the
/// terminating zero, or behind the first pointer if one was followed.
pub open spec fn spec_name_walk(msg: Seq<u8>, pos: int, name: Seq<u8>, jumps: nat) -> Option<
    NameAt,
>
    decreases (DNS_MAX_NAME_LEN - name.len()) + (DNS_MAX_POINTER_DEPTH - jumps),
{
    if pos < 0 || pos >= msg.len() || name.len() > DNS_MAX_NAME_LEN || jumps
        > DNS_MAX_POINTER_DEPTH {
        None
    } else if msg[pos] == 0 {
        Some(NameAt { name, next: pos + 1 })
    } else if msg[pos] < 64 {
        let end = pos + 1 + msg[pos];
        let grown = spec_join_label(name, msg.subrange(pos + 1, end));
        if end > msg.len() || grown.len() > DNS_MAX_NAME_LEN {
            None
        } else {
            spec_name_walk(msg, end, grown, jumps)
        }
    } else if msg[pos] >= 192 {
        if pos + 2 > msg.len() {
            None
        } else {
            let target = (msg[pos] - 192) * 256 + msg[pos + 1];
            if target >= msg.len() || jumps + 1 > DNS_MAX_POINTER_DEPTH {
                None
            } else {
                match spec_name_walk(msg, target, name, jumps + 1) {
                    Some(found) => Some(NameAt { name: found.name, next: pos + 2 }),
                    None => None,
                }
            }
        }
    } else {
        None
    }
}

/// The name that starts at offset `start` of `msg`.
pub open spec fn spec_name(msg: Seq<u8>, start: int) -> Option<NameAt> {
    spec_name_walk(msg, start, Seq::empty(), 0)
}

/// What a walk yields to the caller once the offset behind the first pointer,
/// if there was one, replaces the walk's own.
pub open spec fn spec_resume_at(walk: Option<NameAt>, first_pointer_end: Option<usize>) -> Option<
    NameAt,
> {
    match walk {
        Some(found) => Some(
            NameAt {
                name: found.name,
                next: match first_pointer_end {
                    Some(p) => p as int,
                    None => found.next,
                },
            },
        ),
        None => None,
    }
}

/// Decodes the name at offset `start` of `message`, following compression
/// pointers anywhere into the message.
///
/// Returns the name with dots between its labels and the offset behind the
/// name as it is written at `start`, or `None` where the name has no decoding.
pub fn dns_parse_name(message: &[u8], start: usize) -> (r: Option<(Vec<u8>, usize)>)
    ensures
        match spec_name(message@, start as int) {
            Some(found) => r.is_some() && r.unwrap().0@ == found.name && r.unwrap().1
                == found.next,
            None => r.is_none(),
        },
        r.is_some() ==> r.unwrap().0@.len() <= DNS_MAX_NAME_LEN && start < r.unwrap().1
            <= message@.len(),
{
    let len = message.len();
    let mut pos: usize = start;
    let mut name: Vec<u8> = Vec::new();
    let mut jumps: usize = 0;
    let mut resume: Option<usize> = None;
    loop
        invariant
            len == message@.len(),
            name@.len() <= DNS_MAX_NAME_LEN,
            jumps <= DNS_MAX_POINTER_DEPTH,
            spec_name(message@, start as int) == spec_resume_at(
                spec_name_walk(message@, pos as int, name@, jumps as nat),
                resume,
            ),
            match resume {
                Some(p) => start < p <= len,
                None => start <= pos,
            },
        decreases (DNS_MAX_NAME_LEN - name@.len()) + (DNS_MAX_POINTER_DEPTH - jumps),
    {
        if pos >= len {
            return None;
        }
        let lead = message[pos];
        if lead == 0 {
            let next = match resume {
                Some(p) => p,
                None => pos + 1,
            };
            return Some((name, next));
        } else if lead < 64 {
            if len - pos - 1 < lead as usize {
                return None;
            }
            let end = pos + 1 + lead as usize;
            let ghost before = name@;
            let added = if name.len() == 0 {
                lead as usize
            } else {
                lead as usize + 1
            };
            if name.len() + added > DNS_MAX_NAME_LEN {
                return None;
            }
            if name.len() > 0 {
                name.push(0x2e);
            }
            let mut i: usize = pos + 1;
            while i < end
                invariant
                    pos + 1 <= i <= end <= len,
                    len == message@.len(),
                    name@ == (if before.len() == 0 {
                        before
                    } else {
                        before.push(0x2e)
                    }) + message@.subrange(pos + 1, i as int),
                decreases end - i,
            {
                name.push(message[i]);
                i += 1;
            }
            assert(name@ == spec_join_label(before, message@.subrange(pos + 1, end as int)));
            pos = end;
        } else if lead >= 192 {
            if len - pos < 2 {
                return None;
            }
            let target = (lead - 192) as usize * 256 + message[pos + 1] as usize;
            if target >= len || jumps + 1 > DNS_MAX_POINTER_DEPTH {
                return None;
            }
            if resume.is_none() {
                resume = Some(pos + 2);
            }
            jumps += 1;
            pos = target;
        } else {
            return None;
        }
    }
}

/// One entry of the question section.
#[derive(Debug)]
pub struct DNSQueryEntry {
    pub name: Vec<u8>,
    pub rrtype: u16,
    pub rrclass: u16,
}

/// One resource record; `data` holds the record's RDATA as it is on the wire.
#[derive(Debug)]
pub struct DNSAnswerEntry {
    pub name: Vec<u8>,
    pub rrtype: u16,
    pub rrclass: u16,
    pub ttl: u32,
    pub data: Vec<u8>,
}

/// A message sent to a server: header and questions.
#[derive(Debug)]
pub struct DNSRequest {
    pub header: DNSHeader,
    pub queries: Vec<DNSQueryEntry>,
}

/// A message sent by a server: header, questions, answers and authorities.
#[derive(Debug)]
pub struct DNSResponse {
    pub header: DNSHeader,
    pub queries: Vec<DNSQueryEntry>,
    pub answers: Vec<DNSAnswerEntry>,
    pub authorities: Vec<DNSAnswerEntry>,
}

/// Mathematical value of a [`DNSQueryEntry`].
pub struct QueryView {
    pub name: Seq<u8>,
    pub rrtype: u16,
    pub rrclass: u16,
}

/// Mathematical value of a [`DNSAnswerEntry`].
pub struct AnswerView {
    pub name: Seq<u8>,
    pub rrtype: u16,
    pub rrclass: u16,
    pub ttl: u32,
    pub data: Seq<u8>,
}

/// Mathematical value of a [`DNSRequest`].
pub struct RequestView {
    pub header: DNSHeader,
    pub queries: Seq<QueryView>,
}

/// Mathematical value of a [`DNSResponse`].
pub struct ResponseView {
    pub header: DNSHeader,
    pub queries: Seq<QueryView>,
    pub answers: Seq<AnswerView>,
    pub authorities: Seq<AnswerView>,
}

impl View for DNSQueryEntry {
    type V = QueryView;

    open spec fn view(&self) -> QueryView {
        QueryView { name: self.name@, rrtype: self.rrtype, rrclass: self.rrclass }
    }
}

impl View for DNSAnswerEntry {
    type V = AnswerView;

    open spec fn view(&self) -> AnswerView {
        AnswerView {
            name: self.name@,
            rrtype: self.rrtype,
            rrclass: self.rrclass,
            ttl: self.ttl,
            data: self.data@,
        }
    }
}

/// The values of a list of questions, in order.
pub open spec fn queries_view(list: Seq<DNSQueryEntry>) -> Seq<QueryView> {
    list.map_values(|q: DNSQueryEntry| q@)
}

/// The values of a list of resource records, in order.
pub open spec fn answers_view(list: Seq<DNSAnswerEntry>) -> Seq<AnswerView> {
    list.map_values(|a: DNSAnswerEntry| a@)
}

impl View for DNSRequest {
    type V = RequestView;

    open spec fn view(&self) -> RequestView {
        RequestView { header: self.header, queries: queries_view(self.queries@) }
    }
}

impl View for DNSResponse {
    type V = ResponseView;

    open spec fn view(&self) -> ResponseView {
        ResponseView {
            header: self.header,
            queries: queries_view(self.queries@),
            answers: answers_view(self.answers@),
            authorities: answers_view(self.authorities@),
        }
    }
}

/// The unsigned 32-bit value whose big-endian encoding is the four octets.
pub open spec fn spec_be_u32(b0: u8, b1: u8, b2: u8, b3: u8) -> u32 {
    (b0 as int * 16777216 + b1 as int * 65536 + b2 as int * 256 + b3 as int) as u32
}

/// The question at offset `pos` and the offset behind it: a name, then type
/// and class as big-endian 16-bit integers.
pub open spec fn spec_query(msg: Seq<u8>, pos: int) -> Option<(QueryView, int)> {
    match spec_name(msg, pos) {
        Some(found) => if found.next + 4 <= msg.len() {
            Some(
                (
                    QueryView {
                        name: found.name,
                        rrtype: spec_be_u16(msg[found.next], msg[found.next + 1]),
                        rrclass: spec_be_u16(msg[found.next + 2], msg[found.next + 3]),
                    },
                    found.next + 4,
                ),
            )
        } else {
            None
        },
        None => None,
    }
}

/// The resource record at offset `pos` and the offset behind it: a name,
/// type, class, a 32-bit time to live, a 16-bit length and that many octets
/// of data.
pub open spec fn spec_answer(msg: Seq<u8>, pos: int) -> Option<(AnswerView, int)> {
    match spec_name(msg, pos) {
        Some(found) => {
            let at = found.next;
            if at + 10 <= msg.len() {
                let data_len = spec_be_u16(msg[at + 8], msg[at + 9]);
                if at + 10 + data_len <= msg.len() {
                    Some(
                        (
                            AnswerView {
                                name: found.name,
                                rrtype: spec_be_u16(msg[at], msg[at + 1]),
                                rrclass: spec_be_u16(msg[at + 2], msg[at + 3]),
                                ttl: spec_be_u32(
                                    msg[at + 4],
                                    msg[at + 5],
                                    msg[at + 6],
                                    msg[at + 7],
                                ),
                                data: msg.subrange(at + 10, at + 10 + data_len),
                            },
                            at + 10 + data_len,
                        ),
                    )
                } else {
                    None
                }
            } else {
                None
            }
        },
        None => None,
    }
}

/// `count` further questions read from offset `pos`, behind those in `done`.
pub open spec fn spec_queries_from(msg: Seq<u8>, pos: int, count: nat, done: Seq<QueryView>)
    -> Option<(Seq<QueryView>, int)>
    decreases count,
{
    if count == 0 {
        Some((done, pos))
    } else {
        match spec_query(msg, pos) {
            Some((q, next)) => spec_queries_from(msg, next, (count - 1) as nat, done.push(q)),
            None => None,
        }
    }
}

/// `count` further records read from offset `pos`, behind those in `done`.
pub open spec fn spec_answers_from(msg: Seq<u8>, pos: int, count: nat, done: Seq<AnswerView>)
    -> Option<(Seq<AnswerView>, int)>
    decreases count,
{
    if count == 0 {
        Some((done, pos))
    } else {
        match spec_answer(msg, pos) {
            Some((a, next)) => spec_answers_from(msg, next, (count - 1) as nat, done.push(a)),
            None => None,
        }
    }
}

/// The request that `msg` encodes: the header and as many questions as the
/// header announces. Octets behind the last question are not looked at.
pub open spec fn spec_request(msg: Seq<u8>) -> Option<RequestView> {
    match spec_header(msg) {
        Some(header) => match spec_queries_from(
            msg,
            12,
            header.questions as nat,
            Seq::empty(),
        ) {
            Some((queries, _)) => Some(RequestView { header, queries }),
            None => None,
        },
        None => None,
    }
}

/// The response that `msg` encodes: the header, then the questions, answers
/// and authority records in the numbers that the header announces.
pub open spec fn spec_response(msg: Seq<u8>) -> Option<ResponseView> {
    match spec_header(msg) {
        Some(header) => match spec_queries_from(
            msg,
            12,
            header.questions as nat,
            Seq::empty(),
        ) {
            Some((queries, at_answers)) => match spec_answers_from(
                msg,
                at_answers,
                header.answer_rr as nat,
                Seq::empty(),
            ) {
                Some((answers, at_authorities)) => match spec_answers_from(
                    msg,
                    at_authorities,
                    header.authority_rr as nat,
                    Seq::empty(),
                ) {
                    Some((authorities, _)) => Some(
                        ResponseView { header, queries, answers, authorities },
                    ),
                    None => None,
                },
                None => None,
            },
            None => None,
        },
        None => None,
    }
}

/// Copies `message[from..to]` into a new vector.
fn copy_range(message: &[u8], from: usize, to: usize) -> (r: Vec<u8>)
    requires
        from <= to <= message@.len(),
    ensures
        r@ == message@.subrange(from as int, to as int),
{
    let mut out: Vec<u8> = Vec::new();
    let mut i: usize = from;
    while i < to
        invariant
            from <= i <= to <= message@.len(),
            out@ == message@.subrange(from as int, i as int),
        decreases to - i,
    {
        out.push(message[i]);
        i += 1;
    }
    out
}

/// Parses the question at offset `pos`.
pub fn dns_parse_query(message: &[u8], pos: usize) -> (r: Option<(DNSQueryEntry, usize)>)
    ensures
        match spec_query(message@, pos as int) {
            Some((q, next)) => r.is_some() && r.unwrap().0@ == q && r.unwrap().1 == next,
            None => r.is_none(),
        },
        r.is_some() ==> pos < r.unwrap().1 <= message@.len(),
{
    let len = message.len();
    match dns_parse_name(message, pos) {
        Some((name, at)) => {
            if len - at < 4 {
                return None;
            }
            let rrtype = field_u16(message, at);
            let rrclass = field_u16(message, at + 2);
            Some((DNSQueryEntry { name, rrtype, rrclass }, at + 4))
        },
        None => None,
    }
}

/// Parses the resource record at offset `pos`.
pub fn dns_parse_answer(message: &[u8], pos: usize) -> (r: Option<(DNSAnswerEntry, usize)>)
    ensures
        match spec_answer(message@, pos as int) {
            Some((a, next)) => r.is_some() && r.unwrap().0@ == a && r.unwrap().1 == next,
            None => r.is_none(),
        },
        r.is_some() ==> pos < r.unwrap().1 <= message@.len(),
{
    let len = message.len();
    match dns_parse_name(message, pos) {
        Some((name, at)) => {
            if len - at < 10 {
                return None;
            }
            let rrtype = field_u16(message, at);
            let rrclass = field_u16(message, at + 2);
            let ttl_hi = field_u16(message, at + 4);
            let ttl_lo = field_u16(message, at + 6);
            let ttl: u32 = ttl_hi as u32 * 65536 + ttl_lo as u32;
            let data_len = field_u16(message, at + 8) as usize;
            if len - at - 10 < data_len {
                return None;
            }
            let data = copy_range(message, at + 10, at + 10 + data_len);
            Some((DNSAnswerEntry { name, rrtype, rrclass, ttl, data }, at + 10 + data_len))
        },
        None => None,
    }
}

/// Parses `count` questions that start at offset `pos`.
fn parse_queries(message: &[u8], pos: usize, count: u16) -> (r: Option<
    (Vec<DNSQueryEntry>, usize),
>)
    ensures
        match spec_queries_from(message@, pos as int, count as nat, Seq::empty()) {
            Some((list, next)) => r.is_some() && queries_view(r.unwrap().0@) == list
                && r.unwrap().1 == next,
            None => r.is_none(),
        },
{
    let mut out: Vec<DNSQueryEntry> = Vec::new();
    let mut at: usize = pos;
    let mut i: u16 = 0;
    assert(queries_view(out@) =~= Seq::empty());
    while i < count
        invariant
            i <= count,
            spec_queries_from(message@, pos as int, count as nat, Seq::empty())
                == spec_queries_from(
                message@,
                at as int,
                (count - i) as nat,
                queries_view(out@),
            ),
        decreases count - i,
    {
        match dns_parse_query(message, at) {
            Some((q, next)) => {
                assert(queries_view(out@.push(q)) == queries_view(out@).push(q@));
                out.push(q);
                at = next;
            },
            None => {
                return None;
            },
        }
        i += 1;
    }
    Some((out, at))
}

/// Parses `count` resource records that start at offset `pos`.
fn parse_answers(message: &[u8], pos: usize, count: u16) -> (r: Option<
    (Vec<DNSAnswerEntry>, usize),
>)
    ensures
        match spec_answers_from(message@, pos as int, count as nat, Seq::empty()) {
            Some((list, next)) => r.is_some() && answers_view(r.unwrap().0@) == list
                && r.unwrap().1 == next,
            None => r.is_none(),
        },
{
    let mut out: Vec<DNSAnswerEntry> = Vec::new();
    let mut at: usize = pos;
    let mut i: u16 = 0;
    assert(answers_view(out@) =~= Seq::empty());
    while i < count
        invariant
            i <= count,
            spec_answers_from(message@, pos as int, count as nat, Seq::empty())
                == spec_answers_from(
                message@,
                at as int,
                (count - i) as nat,
                answers_view(out@),
            ),
        decreases count - i,
    {
        match dns_parse_answer(message, at) {
            Some((a, next)) => {
                assert(answers_view(out@.push(a)) == answers_view(out@).push(a@));
                out.push(a);
                at = next;
            },
            None => {
                return None;
            },
        }
        i += 1;
    }
    Some((out, at))
}

/// Parses a whole message as a request.
pub fn dns_parse_request(message: &[u8]) -> (r: Option<DNSRequest>)
    ensures
        match spec_request(message@) {
            Some(req) => r.is_some() && r.unwrap()@ == req,
            None => r.is_none(),
        },
{
    let header = match dns_parse_header(message) {
        Some(h) => h,
        None => {
            return None;
        },
    };
    match parse_queries(message, DNS_HEADER_LEN, header.questions) {
        Some((queries, _)) => Some(DNSRequest { header, queries }),
        None => None,
    }
}

/// Parses a whole message as a response.
pub fn dns_parse_response(message: &[u8]) -> (r: Option<DNSResponse>)
    ensures
        match spec_response(message@) {
            Some(resp) => r.is_some() && r.unwrap()@ == resp,
            None => r.is_none(),
        },
{
    let header = match dns_parse_header(message) {
        Some(h) => h,
        None => {
            return None;
        },
    };
    let (queries, at_answers) = match parse_queries(message, DNS_HEADER_LEN, header.questions) {
        Some(found) => found,
        None => {
            return None;
        },
    };
    let (answers, at_authorities) = match parse_answers(message, at_answers, header.answer_rr) {
        Some(found) => found,
        None => {
            return None;
        },
    };
    match parse_answers(message, at_authorities, header.authority_rr) {
        Some((authorities, _)) => Some(DNSResponse { header, queries, answers, authorities }),
        None => None,
    }
}

} // verus!

//! What a script may read from a DNS transaction, as rows ready to be
//! handed to the script host.

use vstd::prelude::*;

use crate::dns::dns::{DNSTransaction, TransactionView};
use crate::dns::log::{
    dns_print_addr, dns_rrtype_string, spec_print_addr, spec_rrtype_string, DNS_RECORD_TYPE_A,
    DNS_RECORD_TYPE_AAAA,
};
use crate::dns::parser::{
    answers_view, queries_view, AnswerView, DNSAnswerEntry, DNSQueryEntry, QueryView,
};
use crate::bytes::to_vec;

verus! {

/// A row of the table of questions.
#[derive(Debug, PartialEq, Eq)]
pub struct LuaQuery {
    pub rrtype: Vec<u8>,
    pub rrname: Vec<u8>,
}

/// A row of the table of answers or of authorities. `addr` is what the
/// record holds: an address in its text form for the address records, else
/// the data as it is; none where the record holds nothing or the table does
/// not show it.
#[derive(Debug, PartialEq, Eq)]
pub struct LuaAnswer {
    pub rrtype: Vec<u8>,
    pub ttl: i64,
    pub rrname: Vec<u8>,
    pub addr: Option<Vec<u8>>,
}

/// Mathematical value of a [`LuaQuery`].
pub struct LuaQueryView {
    pub rrtype: Seq<u8>,
    pub rrname: Seq<u8>,
}

/// Mathematical value of a [`LuaAnswer`].
pub struct LuaAnswerView {
    pub rrtype: Seq<u8>,
    pub ttl: i64,
    pub rrname: Seq<u8>,
    pub addr: Option<Seq<u8>>,
}

impl View for LuaQuery {
    type V = LuaQueryView;

    open spec fn view(&self) -> LuaQueryView {
        LuaQueryView { rrtype: self.rrtype@, rrname: self.rrname@ }
    }
}

impl View for LuaAnswer {
    type V = LuaAnswerView;

    open spec fn view(&self) -> LuaAnswerView {
        LuaAnswerView {
            rrtype: self.rrtype@,
            ttl: self.ttl,
            rrname: self.rrname@,
            addr: match self.addr {
                Some(addr) => Some(addr@),
                None => None,
            },
        }
    }
}

/// The values of a list of question rows, in order.
pub open spec fn query_rows_view(rows: Seq<LuaQuery>) -> Seq<LuaQueryView> {
    rows.map_values(|r: LuaQuery| r@)
}

/// The values of a list of answer rows, in order.
pub open spec fn answer_rows_view(rows: Seq<LuaAnswer>) -> Seq<LuaAnswerView> {
    rows.map_values(|r: LuaAnswer| r@)
}

/// The questions that a script sees: those of the request, or those of the
/// response where there is no request.
pub open spec fn spec_shown_queries(tx: TransactionView) -> Seq<QueryView> {
    match tx.request {
        Some(request) => request.queries,
        None => match tx.response {
            Some(response) => response.queries,
            None => Seq::empty(),
        },
    }
}

/// The row of a question.
pub open spec fn spec_query_row(q: QueryView) -> LuaQueryView {
    LuaQueryView { rrtype: spec_rrtype_string(q.rrtype), rrname: q.name }
}

/// What an answer row shows of the record's data.
pub open spec fn spec_answer_addr(a: AnswerView) -> Option<Seq<u8>> {
    if a.data.len() == 0 {
        None
    } else if a.rrtype == DNS_RECORD_TYPE_A || a.rrtype == DNS_RECORD_TYPE_AAAA {
        Some(spec_print_addr(a.data))
    } else {
        Some(a.data)
    }
}

/// The row of an answer.
pub open spec fn spec_answer_row(a: AnswerView) -> LuaAnswerView {
    LuaAnswerView {
        rrtype: spec_rrtype_string(a.rrtype),
        ttl: a.ttl as i64,
        rrname: a.name,
        addr: spec_answer_addr(a),
    }
}

/// The row of an authority record, which shows no data.
pub open spec fn spec_authority_row(a: AnswerView) -> LuaAnswerView {
    LuaAnswerView {
        rrtype: spec_rrtype_string(a.rrtype),
        ttl: a.ttl as i64,
        rrname: a.name,
        addr: None,
    }
}

/// The identifier that the transaction carries on the wire.
pub fn rs_dns_lua_get_tx_id(tx: &DNSTransaction) -> (id: i64)
    ensures
        id == tx@.wire_id(),
{
    tx.tx_id() as i64
}

/// The questions that a script sees of `tx`.
fn shown_queries(tx: &DNSTransaction) -> (queries: Option<&Vec<DNSQueryEntry>>)
    ensures
        match queries {
            Some(list) => queries_view(list@) == spec_shown_queries(tx@),
            None => spec_shown_queries(tx@) == Seq::<QueryView>::empty(),
        },
{
    match &tx.request {
        Some(request) => Some(&request.queries),
        None => match &tx.response {
            Some(response) => Some(&response.queries),
            None => None,
        },
    }
}

/// The name of the first question that a script sees, if there is one.
pub fn rs_dns_lua_get_rrname(tx: &DNSTransaction) -> (name: Option<Vec<u8>>)
    ensures
        match name {
            Some(name) => spec_shown_queries(tx@).len() > 0 && name@
                == spec_shown_queries(tx@)[0].name,
            None => spec_shown_queries(tx@).len() == 0,
        },
{
    match shown_queries(tx) {
        Some(queries) => {
            if queries.len() > 0 {
                assert(queries_view(queries@)[0] == queries@[0]@);
                Some(to_vec(queries[0].name.as_slice()))
            } else {
                assert(queries_view(queries@).len() == 0);
                None
            }
        },
        None => None,
    }
}

/// The table of questions: one row for each question that a script sees,
/// with the type and the name.
pub fn rs_dns_lua_get_query_table(tx: &DNSTransaction) -> (rows: Vec<LuaQuery>)
    ensures
        query_rows_view(rows@) == spec_shown_queries(tx@).map_values(
            |q: QueryView| spec_query_row(q),
        ),
{
    let mut rows: Vec<LuaQuery> = Vec::new();
    match shown_queries(tx) {
        Some(queries) => {
            let count = queries.len();
            let mut i: usize = 0;
            while i < count
                invariant
                    i <= count,
                    count == queries@.len(),
                    rows@.len() == i,
                    forall|j: int|
                        0 <= j < i ==> (#[trigger] rows@[j])@ == spec_query_row(queries@[j]@),
                decreases count - i,
            {
                let q = &queries[i];
                rows.push(
                    LuaQuery {
                        rrtype: dns_rrtype_string(q.rrtype),
                        rrname: to_vec(q.name.as_slice()),
                    },
                );
                i += 1;
            }
            assert(query_rows_view(rows@) =~= queries_view(queries@).map_values(
                |q: QueryView| spec_query_row(q),
            ));
        },
        None => {
            assert(query_rows_view(rows@) =~= Seq::<QueryView>::empty().map_values(
                |q: QueryView| spec_query_row(q),
            ));
        },
    }
    rows
}

/// The records of the answer section of the response, none where there is
/// no response.
pub open spec fn spec_shown_answers(tx: TransactionView) -> Seq<AnswerView> {
    match tx.response {
        Some(response) => response.answers,
        None => Seq::empty(),
    }
}

/// The records of the authority section of the response, none where there
/// is no response.
pub open spec fn spec_shown_authorities(tx: TransactionView) -> Seq<AnswerView> {
    match tx.response {
        Some(response) => response.authorities,
        None => Seq::empty(),
    }
}

/// The rows of the records `records`, with their data shown if
/// `with_data`.
fn answer_rows(records: &Vec<DNSAnswerEntry>, with_data: bool) -> (rows: Vec<LuaAnswer>)
    ensures
        rows@.len() == records@.len(),
        forall|j: int|
            0 <= j < rows@.len() ==> (#[trigger] rows@[j])@ == (if with_data {
                spec_answer_row(records@[j]@)
            } else {
                spec_authority_row(records@[j]@)
            }),
{
    let mut rows: Vec<LuaAnswer> = Vec::new();
    let count = records.len();
    let mut i: usize = 0;
    while i < count
        invariant
            i <= count,
            count == records@.len(),
            rows@.len() == i,
            forall|j: int|
                0 <= j < i ==> (#[trigger] rows@[j])@ == (if with_data {
                    spec_answer_row(records@[j]@)
                } else {
                    spec_authority_row(records@[j]@)
                }),
        decreases count - i,
    {
        let answer = &records[i];
        let addr = if !with_data || answer.data.len() == 0 {
            None
        } else if answer.rrtype == DNS_RECORD_TYPE_A || answer.rrtype == DNS_RECORD_TYPE_AAAA {
            Some(dns_print_addr(answer.data.as_slice()))
        } else {
            Some(to_vec(answer.data.as_slice()))
        };
        rows.push(
            LuaAnswer {
                rrtype: dns_rrtype_string(answer.rrtype),
                ttl: answer.ttl as i64,
                rrname: to_vec(answer.name.as_slice()),
                addr,
            },
        );
        i += 1;
    }
    rows
}

/// The table of answers: one row for each record of the answer section,
/// with type, time to live, name and what the record holds.
pub fn rs_dns_lua_get_answer_table(tx: &DNSTransaction) -> (rows: Vec<LuaAnswer>)
    ensures
        answer_rows_view(rows@) == spec_shown_answers(tx@).map_values(
            |a: AnswerView| spec_answer_row(a),
        ),
{
    match &tx.response {
        Some(response) => {
            let rows = answer_rows(&response.answers, true);
            assert(answer_rows_view(rows@) =~= answers_view(response.answers@).map_values(
                |a: AnswerView| spec_answer_row(a),
            ));
            rows
        },
        None => {
            let rows: Vec<LuaAnswer> = Vec::new();
            assert(answer_rows_view(rows@) =~= Seq::<AnswerView>::empty().map_values(
                |a: AnswerView| spec_answer_row(a),
            ));
            rows
        },
    }
}

/// The table of authorities: one row for each record of the authority
/// section, with type, time to live and name.
pub fn rs_dns_lua_get_authority_table(tx: &DNSTransaction) -> (rows: Vec<LuaAnswer>)
    ensures
        answer_rows_view(rows@) == spec_shown_authorities(tx@).map_values(
            |a: AnswerView| spec_authority_row(a),
        ),
{
    match &tx.response {
        Some(response) => {
            let rows = answer_rows(&response.authorities, false);
            assert(answer_rows_view(rows@) =~= answers_view(response.authorities@).map_values(
                |a: AnswerView| spec_authority_row(a),
            ));
            rows
        },
        None => {
            let rows: Vec<LuaAnswer> = Vec::new();
            assert(answer_rows_view(rows@) =~= Seq::<AnswerView>::empty().map_values(
                |a: AnswerView| spec_authority_row(a),
            ));
            rows
        },
    }
}

} // verus!

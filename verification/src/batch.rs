//! Batch building and response correlation: correlation ids are assigned
//! 0, 1, ... in submission order, and responses are matched back to the
//! pending-request table by id, in ascending id order, whatever order the
//! transport delivered them in.

use vstd::prelude::*;
use vstd::slice::slice_to_vec;
use crate::envelope::state_query_encoded;
use crate::utils::{
    abci_query_method, config_request_post, create_config_request, create_json_rpc_request,
    get_request_params, json_rpc_version, smart_contract_state_path, RequestValueAndHandler,
    StateQueryRequest,
};
use crate::{
    dispatch_post, supports_config_request, HandleResponseTypes, QueryError, QueryResponseHandler,
};

verus! {

/// One query to submit: the contract address it targets, the serialized query
/// payload (opaque to this module), and the tag selecting the decoder for the
/// eventual response.
#[derive(Debug)]
pub struct QueryDescriptor {
    pub target: String,
    pub payload: Vec<u8>,
    pub handler: QueryResponseHandler,
}

/// The pending-request table of one batch: entry `i` is the request that was
/// assigned correlation id `i`, with the handler for its response. Built once
/// per batch, read-only during correlation, discarded after the batch.
#[derive(Debug)]
pub struct PendingRequestTable {
    pub entries: Vec<RequestValueAndHandler>,
}

impl PendingRequestTable {
    /// The decoder tag pending under each correlation id.
    pub open spec fn tags(self) -> Seq<QueryResponseHandler> {
        self.entries@.map_values(|e: RequestValueAndHandler| e.handler)
    }

    /// An id is pending iff this batch assigned it: the assigned ids are
    /// exactly 0 to n-1 for a batch of n requests.
    pub open spec fn contains_id(self, id: u32) -> bool {
        (id as int) < self.entries@.len()
    }

    /// The number of pending requests.
    pub fn len(&self) -> (n: usize)
        ensures
            n == self.entries@.len(),
    {
        self.entries.len()
    }
}

/// One raw response arriving from the transport: the correlation id it
/// answers and the binary payload it carries.
#[derive(Debug)]
pub struct RawResponse {
    pub id: u32,
    pub value: Vec<u8>,
}

/// A response matched back to its pending request: the correlation id, the
/// decoder tag that the table pends under that id, and the raw payload.
#[derive(Debug)]
pub struct CorrelatedResponse {
    pub id: u32,
    pub handler: QueryResponseHandler,
    pub value: Vec<u8>,
}

/// The raw responses as plain (id, payload) pairs.
pub open spec fn response_views(rs: Seq<RawResponse>) -> Seq<(u32, Seq<u8>)> {
    rs.map_values(|r: RawResponse| (r.id, r.value@))
}

/// The correlated entries as plain (id, tag, payload) triples.
pub open spec fn correlated_views(cs: Seq<CorrelatedResponse>) -> Seq<
    (u32, QueryResponseHandler, Seq<u8>),
> {
    cs.map_values(|c: CorrelatedResponse| (c.id, c.handler, c.value@))
}

/// The payload of the first response carrying the given id, if any.
pub open spec fn first_with_id(rs: Seq<(u32, Seq<u8>)>, id: u32) -> Option<Seq<u8>>
    decreases rs.len(),
{
    if rs.len() == 0 {
        None
    } else if rs[0].0 == id {
        Some(rs[0].1)
    } else {
        first_with_id(rs.drop_first(), id)
    }
}

/// The correlated output for the ids below `n`, in ascending id order: one
/// (id, tag, payload) triple for each id that both is pending and received a
/// response. Responses under ids that nothing pends are dropped.
pub open spec fn correlate_model(
    tags: Seq<QueryResponseHandler>,
    rs: Seq<(u32, Seq<u8>)>,
    n: int,
) -> Seq<(u32, QueryResponseHandler, Seq<u8>)>
    decreases n,
{
    if n <= 0 {
        Seq::empty()
    } else {
        let prefix = correlate_model(tags, rs, n - 1);
        match first_with_id(rs, (n - 1) as u32) {
            Some(v) => prefix.push(((n - 1) as u32, tags[n - 1], v)),
            None => prefix,
        }
    }
}

/// No two responses carry the same id.
pub open spec fn distinct_ids(rs: Seq<(u32, Seq<u8>)>) -> bool {
    forall|k: int, l: int| 0 <= k < l < rs.len() ==> rs[k].0 != rs[l].0
}

/// Wrap one descriptor as the JSON-RPC request entry under the given
/// correlation id.
fn make_request_entry(json_rpc_id: u32, descriptor: &QueryDescriptor) -> (r: RequestValueAndHandler)
    ensures
        r.handler == descriptor.handler,
        r.val.id == json_rpc_id,
        r.val.jsonrpc@ == json_rpc_version(),
        r.val.method@ == abci_query_method(),
        r.val.params.path@ == smart_contract_state_path(),
        r.val.params.data@ == state_query_encoded(descriptor.target@, descriptor.payload@),
        r.val.params.height is None,
        !r.val.params.prove,
{
    let query_msg = StateQueryRequest {
        address: descriptor.target.clone(),
        query_data: slice_to_vec(descriptor.payload.as_slice()),
    };
    let params = get_request_params(query_msg);
    let val = create_json_rpc_request(json_rpc_id, String::from_str("abci_query"), params);
    RequestValueAndHandler { val, handler: descriptor.handler }
}

/// Assign correlation ids 0 to n-1 in submission order and wrap each
/// descriptor into its JSON-RPC request, accumulating the pending-request
/// table. Entry `i` carries id `i`, so within the batch the ids are exactly
/// {0, ..., n-1}, each assigned once. Building performs no I/O and cannot
/// fail: the envelope encoder accepts every payload.
pub fn build(descriptors: &Vec<QueryDescriptor>) -> (r: PendingRequestTable)
    requires
        descriptors@.len() <= 0xffff_ffff,
    ensures
        r.entries@.len() == descriptors@.len(),
        forall|i: int|
            0 <= i < descriptors@.len() ==> {
                let e = #[trigger] r.entries@[i];
                &&& e.val.id == i as u32
                &&& e.handler == descriptors@[i].handler
                &&& e.val.jsonrpc@ == json_rpc_version()
                &&& e.val.method@ == abci_query_method()
                &&& e.val.params.path@ == smart_contract_state_path()
                &&& e.val.params.data@ == state_query_encoded(
                    descriptors@[i].target@,
                    descriptors@[i].payload@,
                )
                &&& e.val.params.height is None
                &&& !e.val.params.prove
            },
{
    let n = descriptors.len();
    let mut entries: Vec<RequestValueAndHandler> = Vec::new();
    let mut i: usize = 0;
    while i < n
        invariant
            i <= n,
            n == descriptors@.len(),
            n <= 0xffff_ffff,
            entries@.len() == i,
            forall|j: int|
                0 <= j < i ==> {
                    let e = #[trigger] entries@[j];
                    &&& e.val.id == j as u32
                    &&& e.handler == descriptors@[j].handler
                    &&& e.val.jsonrpc@ == json_rpc_version()
                    &&& e.val.method@ == abci_query_method()
                    &&& e.val.params.path@ == smart_contract_state_path()
                    &&& e.val.params.data@ == state_query_encoded(
                        descriptors@[j].target@,
                        descriptors@[j].payload@,
                    )
                    &&& e.val.params.height is None
                    &&& !e.val.params.prove
                },
        decreases n - i,
    {
        let entry = make_request_entry(i as u32, &descriptors[i]);
        entries.push(entry);
        i += 1;
    }
    PendingRequestTable { entries }
}

/// Build the pending-request table for a set of config queries, given the
/// decoder tag and contract address of each. Correlation ids are assigned
/// 0, 1, ... in submission order. A tag whose method has no request encoder
/// aborts the whole batch before anything is sent: a malformed batch must
/// not be partially submitted.
pub fn build_config_requests(requests: &Vec<(QueryResponseHandler, String)>) -> (r: Result<
    PendingRequestTable,
    QueryError,
>)
    requires
        requests@.len() <= 0xffff_ffff,
    ensures
        r is Ok <==> (forall|i: int|
            0 <= i < requests@.len() ==> supports_config_request((#[trigger] requests@[i]).0)),
        r is Err ==> r->Err_0 == QueryError::UnsupportedMethod,
        r is Ok ==> {
            let t = r->Ok_0;
            &&& t.entries@.len() == requests@.len()
            &&& forall|i: int|
                0 <= i < requests@.len() ==> config_request_post(
                    #[trigger] t.entries@[i],
                    i as u32,
                    requests@[i].0,
                    requests@[i].1@,
                )
        },
{
    let n = requests.len();
    let mut entries: Vec<RequestValueAndHandler> = Vec::new();
    let mut i: usize = 0;
    while i < n
        invariant
            i <= n,
            n == requests@.len(),
            n <= 0xffff_ffff,
            entries@.len() == i,
            forall|j: int| 0 <= j < i ==> supports_config_request((#[trigger] requests@[j]).0),
            forall|j: int|
                0 <= j < i ==> config_request_post(
                    #[trigger] entries@[j],
                    j as u32,
                    requests@[j].0,
                    requests@[j].1@,
                ),
        decreases n - i,
    {
        let pair = &requests[i];
        match create_config_request(i as u32, &pair.0, pair.1.as_str()) {
            Ok(entry) => entries.push(entry),
            Err(e) => {
                assert(!supports_config_request(requests@[i as int].0));
                return Err(e);
            },
        }
        i += 1;
    }
    Ok(PendingRequestTable { entries })
}

/// Law: within one batch no two entries share a correlation id.
pub proof fn lemma_build_ids_unique(table: PendingRequestTable)
    requires
        table.entries@.len() <= 0x1_0000_0000,
        forall|i: int|
            0 <= i < table.entries@.len() ==> (#[trigger] table.entries@[i]).val.id == i as u32,
    ensures
        forall|i: int, j: int|
            0 <= i < j < table.entries@.len() ==> table.entries@[i].val.id
                != table.entries@[j].val.id,
{
}

/// Find the index of the first response carrying the given id.
fn find_first_with_id(responses: &Vec<RawResponse>, id: u32) -> (r: Option<usize>)
    ensures
        match r {
            Some(j) => {
                &&& (j as int) < responses@.len()
                &&& responses@[j as int].id == id
                &&& forall|k: int| 0 <= k < j as int ==> responses@[k].id != id
            },
            None => forall|k: int| 0 <= k < responses@.len() ==> responses@[k].id != id,
        },
{
    let n = responses.len();
    let mut j: usize = 0;
    while j < n
        invariant
            j <= n,
            n == responses@.len(),
            forall|k: int| 0 <= k < j as int ==> responses@[k].id != id,
        decreases n - j,
    {
        if responses[j].id == id {
            return Some(j);
        }
        j += 1;
    }
    None
}

/// If index `j` is the first position carrying `id`, the model's first match
/// is the payload there.
proof fn lemma_first_with_id_index(rs: Seq<(u32, Seq<u8>)>, id: u32, j: int)
    requires
        0 <= j < rs.len(),
        rs[j].0 == id,
        forall|k: int| 0 <= k < j ==> rs[k].0 != id,
    ensures
        first_with_id(rs, id) == Some(rs[j].1),
    decreases j,
{
    if j > 0 {
        assert(forall|k: int| 0 <= k < j - 1 ==> rs.drop_first()[k] == rs[k + 1]);
        lemma_first_with_id_index(rs.drop_first(), id, j - 1);
    }
}

/// If no response carries `id`, the model finds none.
proof fn lemma_first_with_id_none(rs: Seq<(u32, Seq<u8>)>, id: u32)
    requires
        forall|k: int| 0 <= k < rs.len() ==> rs[k].0 != id,
    ensures
        first_with_id(rs, id) is None,
    decreases rs.len(),
{
    if rs.len() > 0 {
        lemma_first_with_id_none(rs.drop_first(), id);
    }
}

/// A found first match is a response that is really in the sequence.
proof fn lemma_first_with_id_contains(rs: Seq<(u32, Seq<u8>)>, id: u32)
    requires
        first_with_id(rs, id) is Some,
    ensures
        rs.contains((id, first_with_id(rs, id)->0)),
    decreases rs.len(),
{
    if rs.len() > 0 && rs[0].0 != id {
        lemma_first_with_id_contains(rs.drop_first(), id);
        let p = (id, first_with_id(rs, id)->0);
        let k = choose|k: int| 0 <= k < rs.drop_first().len() && rs.drop_first()[k] == p;
        assert(rs[k + 1] == p);
    }
}

/// When no id arrives twice, the first match under an id is the one response
/// carrying it, wherever it stands.
proof fn lemma_first_with_id_of_contains(rs: Seq<(u32, Seq<u8>)>, id: u32, v: Seq<u8>)
    requires
        distinct_ids(rs),
        rs.contains((id, v)),
    ensures
        first_with_id(rs, id) == Some(v),
    decreases rs.len(),
{
    let k = choose|k: int| 0 <= k < rs.len() && rs[k] == (id, v);
    if rs[0].0 == id {
        assert(k == 0);
        assert(rs[0] == (id, v));
    } else {
        assert(rs.drop_first()[k - 1] == rs[k]);
        assert(forall|a: int, b: int|
            0 <= a < b < rs.drop_first().len() ==> rs.drop_first()[a].0 != rs.drop_first()[b].0);
        lemma_first_with_id_of_contains(rs.drop_first(), id, v);
    }
}

/// Two arrival orders of one response set agree on the first match under
/// every id, provided no id arrives twice.
proof fn lemma_first_with_id_permutation(
    rs1: Seq<(u32, Seq<u8>)>,
    rs2: Seq<(u32, Seq<u8>)>,
    id: u32,
)
    requires
        rs1.to_multiset() == rs2.to_multiset(),
        distinct_ids(rs1),
        distinct_ids(rs2),
    ensures
        first_with_id(rs1, id) == first_with_id(rs2, id),
{
    broadcast use vstd::seq_lib::group_to_multiset_ensures;

    match first_with_id(rs1, id) {
        Some(v) => {
            lemma_first_with_id_contains(rs1, id);
            assert(rs1.to_multiset().count((id, v)) > 0);
            assert(rs2.contains((id, v)));
            lemma_first_with_id_of_contains(rs2, id, v);
        },
        None => {
            if first_with_id(rs2, id) is Some {
                lemma_first_with_id_contains(rs2, id);
                let v = first_with_id(rs2, id)->0;
                assert(rs2.to_multiset().count((id, v)) > 0);
                assert(rs1.to_multiset().count((id, v)) > 0);
                assert(rs1.contains((id, v)));
                let k = choose|k: int| 0 <= k < rs1.len() && rs1[k] == (id, v);
                assert forall|a: int| 0 <= a < k implies rs1[a].0 != id by {
                    assert(rs1[k].0 == id);
                }
                lemma_first_with_id_index(rs1, id, k);
                assert(false);
            }
        },
    }
}

/// Law: correlation is order-invariant. Two arrival orders of one response
/// set — equal as multisets, no id arriving twice — correlate to the same
/// ascending-id output, whatever the table's tags are.
pub proof fn lemma_correlate_order_invariant(
    tags: Seq<QueryResponseHandler>,
    rs1: Seq<(u32, Seq<u8>)>,
    rs2: Seq<(u32, Seq<u8>)>,
    n: int,
)
    requires
        rs1.to_multiset() == rs2.to_multiset(),
        distinct_ids(rs1),
        distinct_ids(rs2),
    ensures
        correlate_model(tags, rs1, n) == correlate_model(tags, rs2, n),
    decreases n,
{
    if n > 0 {
        lemma_correlate_order_invariant(tags, rs1, rs2, n - 1);
        lemma_first_with_id_permutation(rs1, rs2, (n - 1) as u32);
    }
}

/// Appending an entry appends its plain view.
proof fn lemma_correlated_views_push(cs: Seq<CorrelatedResponse>, c: CorrelatedResponse)
    ensures
        correlated_views(cs.push(c)) == correlated_views(cs).push((c.id, c.handler, c.value@)),
{
    assert(correlated_views(cs.push(c)) =~= correlated_views(cs).push((c.id, c.handler, c.value@)));
}

/// One unfolding of the model when id `n` received a response.
proof fn lemma_correlate_model_step_some(
    tags: Seq<QueryResponseHandler>,
    rs: Seq<(u32, Seq<u8>)>,
    n: int,
    v: Seq<u8>,
)
    requires
        0 <= n <= 0xffff_ffff,
        first_with_id(rs, n as u32) == Some(v),
    ensures
        correlate_model(tags, rs, n + 1) == correlate_model(tags, rs, n).push(
            (n as u32, tags[n], v),
        ),
{
}

/// One unfolding of the model when id `n` received no response.
proof fn lemma_correlate_model_step_none(
    tags: Seq<QueryResponseHandler>,
    rs: Seq<(u32, Seq<u8>)>,
    n: int,
)
    requires
        0 <= n <= 0xffff_ffff,
        first_with_id(rs, n as u32) is None,
    ensures
        correlate_model(tags, rs, n + 1) == correlate_model(tags, rs, n),
{
}

/// Match each response to its pending request. The output is in ascending id
/// order, holds one entry per pending id that received a response, and drops
/// every response whose id nothing pends — such a stray answer is an anomaly
/// of the endpoint, not an error of this batch. Pending ids that never
/// received a response are simply absent here; the caller can discover them
/// by diffing the output against the table. An empty response set yields an
/// empty output.
#[verifier::rlimit(100)]
pub fn correlate(table: &PendingRequestTable, responses: &Vec<RawResponse>) -> (r: Vec<
    CorrelatedResponse,
>)
    requires
        table.entries@.len() <= 0xffff_ffff,
    ensures
        correlated_views(r@) == correlate_model(
            table.tags(),
            response_views(responses@),
            table.entries@.len() as int,
        ),
        forall|k: int| 0 <= k < r@.len() ==> table.contains_id((#[trigger] r@[k]).id),
        forall|k: int|
            0 <= k < r@.len() ==> exists|j: int|
                0 <= j < responses@.len() && responses@[j].id == (#[trigger] r@[k]).id
                    && responses@[j].value@ == r@[k].value@,
        forall|k: int| 0 <= k < r@.len() - 1 ==> (#[trigger] r@[k]).id < r@[k + 1].id,
{
    let n = table.len();
    let mut out: Vec<CorrelatedResponse> = Vec::new();
    let mut i: usize = 0;
    while i < n
        invariant
            i <= n,
            n == table.entries@.len(),
            n <= 0xffff_ffff,
            correlated_views(out@) == correlate_model(
                table.tags(),
                response_views(responses@),
                i as int,
            ),
            forall|k: int| 0 <= k < out@.len() ==> ((#[trigger] out@[k]).id as int) < i as int,
            forall|k: int|
                0 <= k < out@.len() ==> exists|j: int|
                    0 <= j < responses@.len() && responses@[j].id == (#[trigger] out@[k]).id
                        && responses@[j].value@ == out@[k].value@,
            forall|k: int| 0 <= k < out@.len() - 1 ==> (#[trigger] out@[k]).id < out@[k + 1].id,
        decreases n - i,
    {
        let ghost tags = table.tags();
        let ghost rvs = response_views(responses@);
        let ghost old_out = out@;
        match find_first_with_id(responses, i as u32) {
            Some(j) => {
                let value = slice_to_vec(responses[j].value.as_slice());
                let handler = table.entries[i].handler;
                let entry = CorrelatedResponse { id: i as u32, handler, value };
                proof {
                    lemma_first_with_id_index(rvs, i as u32, j as int);
                    assert(rvs[j as int] == (responses@[j as int].id, responses@[j as int].value@));
                    assert(first_with_id(rvs, i as u32) == Some(responses@[j as int].value@));
                    lemma_correlated_views_push(out@, entry);
                    lemma_correlate_model_step_some(tags, rvs, i as int, responses@[j as int].value@);
                    assert(tags[i as int] == table.entries@[i as int].handler);
                }
                out.push(entry);
                proof {
                    assert(responses@[j as int].id == out@[out@.len() - 1].id);
                }
            },
            None => {
                proof {
                    lemma_first_with_id_none(rvs, i as u32);
                    lemma_correlate_model_step_none(tags, rvs, i as int);
                }
            },
        }
        i += 1;
    }
    out
}

/// Decode every correlated entry with the decoder its tag selects. Each
/// entry's outcome depends on that entry alone: a payload that fails to
/// decode yields an error in its own slot, and every other entry's result is
/// still produced.
pub fn dispatch_all(entries: &Vec<CorrelatedResponse>) -> (r: Vec<
    Result<Option<HandleResponseTypes>, QueryError>,
>)
    ensures
        r@.len() == entries@.len(),
        forall|i: int|
            0 <= i < entries@.len() ==> dispatch_post(
                entries@[i].handler,
                entries@[i].value@,
                #[trigger] r@[i],
            ),
{
    let n = entries.len();
    let mut out: Vec<Result<Option<HandleResponseTypes>, QueryError>> = Vec::new();
    let mut i: usize = 0;
    while i < n
        invariant
            i <= n,
            n == entries@.len(),
            out@.len() == i,
            forall|k: int|
                0 <= k < i ==> dispatch_post(
                    entries@[k].handler,
                    entries@[k].value@,
                    #[trigger] out@[k],
                ),
        decreases n - i,
    {
        let entry = &entries[i];
        let result = entry.handler.dispatch(&entry.value);
        out.push(result);
        i += 1;
    }
    out
}

} // verus!

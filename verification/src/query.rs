use vstd::prelude::*;
use vstd::string::StringExecFns;

use crate::errors::ConnectError;
use crate::payloads::QueryKind;

verus! {

/// A query as the caller poses it; the last case stands for a request whose
/// query field is missing or unrecognised.
#[derive(Debug, Clone, Copy, PartialEq, Eq)]
pub enum QueryRequest {
    Status,
    Contracts,
    Products,
    Unknown,
}

/// Maps a caller's query to the gateway's query kind; an unrecognised query
/// is a protocol defect and is never forwarded.
pub fn determine_query_type(q: &QueryRequest) -> (r: Result<QueryKind, ConnectError>)
    ensures
        match q {
            QueryRequest::Status => r matches Ok(k) && k is Status,
            QueryRequest::Contracts => r matches Ok(k) && k is Contracts,
            QueryRequest::Products => r matches Ok(k) && k is AllProducts,
            QueryRequest::Unknown => r matches Err(e) && e is Protocol,
        },
{
    match q {
        QueryRequest::Status => Ok(QueryKind::Status),
        QueryRequest::Contracts => Ok(QueryKind::Contracts),
        QueryRequest::Products => Ok(QueryKind::AllProducts),
        QueryRequest::Unknown => Err(
            ConnectError::Protocol(String::from_str("unsupported query type")),
        ),
    }
}

/// The typed result of a status query.
#[derive(Debug, PartialEq, Eq)]
pub struct StatusResponse {
    pub status: String,
}

/// The index of the first quote character at or after `i`, or -1 when there
/// is none.
pub open spec fn first_quote(s: Seq<char>, i: int) -> int
    decreases s.len() - i when 0 <= i <= s.len()
{
    if i >= s.len() {
        -1
    } else if s[i] == '"' {
        i
    } else {
        first_quote(s, i + 1)
    }
}

/// Whether a frame opens with a quoted "status" field whose value ends with
/// a closing quote.
pub open spec fn valid_status_frame(s: Seq<char>) -> bool {
    &&& s.len() >= 11
    &&& s.take(11) == "{\"status\":\""@
    &&& first_quote(s, 11) >= 0
}

/// The value of the leading "status" field.
pub open spec fn status_value(s: Seq<char>) -> Seq<char>
    recommends
        valid_status_frame(s),
{
    s.subrange(11, first_quote(s, 11))
}

proof fn lemma_first_quote_found(s: Seq<char>, i: int, j: int)
    requires
        0 <= i <= j < s.len(),
        forall|k: int| i <= k < j ==> s[k] != '"',
        s[j] == '"',
    ensures
        first_quote(s, i) == j,
    decreases j - i,
{
    if i < j {
        lemma_first_quote_found(s, i + 1, j);
    }
}

proof fn lemma_first_quote_missing(s: Seq<char>, i: int)
    requires
        0 <= i <= s.len(),
        forall|k: int| i <= k < s.len() ==> s[k] != '"',
    ensures
        first_quote(s, i) == -1,
    decreases s.len() - i,
{
    if i < s.len() {
        lemma_first_quote_missing(s, i + 1);
    }
}

/// Decodes a gateway status frame into its typed record: the frame must open
/// with the "status" field, whose value is returned unchanged.  This is a
/// deliberate narrowing of the accepted shapes: the gateway writes the
/// status field first, and a frame carrying it elsewhere is rejected.  Any
/// other shape is a decode error; the raw text stays with the caller for
/// diagnostics.
pub fn parse_status_response(s: &str) -> (r: Result<StatusResponse, ConnectError>)
    ensures
        r is Ok <==> valid_status_frame(s@),
        r matches Ok(resp) ==> resp.status@ == status_value(s@),
        r matches Err(e) ==> e is Decode,
{
    let n = s.unicode_len();
    let prefix = "{\"status\":\"";
    proof {
        reveal_strlit("{\"status\":\"");
    }
    if n < 11 {
        return Err(ConnectError::Decode(String::from_str("response is too short")));
    }
    let mut i: usize = 0;
    while i < 11
        invariant
            n == s@.len(),
            n >= 11,
            0 <= i <= 11,
            prefix@ == "{\"status\":\""@,
            prefix@.len() == 11,
            forall|k: int| 0 <= k < i ==> s@[k] == prefix@[k],
        decreases 11 - i,
    {
        if s.get_char(i) != prefix.get_char(i) {
            proof {
                assert(s@.take(11)[i as int] != "{\"status\":\""@[i as int]);
            }
            return Err(ConnectError::Decode(String::from_str("response has no status field")));
        }
        i = i + 1;
    }
    proof {
        assert(s@.take(11) =~= "{\"status\":\""@);
    }
    let mut j: usize = 11;
    while j < n
        invariant
            n == s@.len(),
            11 <= j <= n,
            s@.take(11) == "{\"status\":\""@,
            forall|k: int| 11 <= k < j ==> s@[k] != '"',
        decreases n - j,
    {
        if s.get_char(j) == '"' {
            proof {
                lemma_first_quote_found(s@, 11, j as int);
            }
            let value = s.substring_char(11, j);
            let status = String::from_str(value);
            proof {
                assert(status@ =~= status_value(s@));
            }
            return Ok(StatusResponse { status });
        }
        j = j + 1;
    }
    proof {
        lemma_first_quote_missing(s@, 11);
    }
    Err(ConnectError::Decode(String::from_str("status value is not closed")))
}

/// Picks the book contract address for a product from the list the gateway
/// returned; a product id beyond the list is a protocol defect, never a
/// default address.
pub fn select_book_address(book_addrs: &Vec<String>, product_id: u32) -> (r: Result<
    String,
    ConnectError,
>)
    ensures
        r is Ok <==> (product_id as int) < book_addrs@.len(),
        r matches Ok(a) ==> a@ == book_addrs@[product_id as int]@,
        r matches Err(e) ==> e is Protocol,
{
    let idx = product_id as usize;
    if idx < book_addrs.len() {
        Ok(book_addrs[idx].clone())
    } else {
        Err(ConnectError::Protocol(String::from_str("no book address for this product")))
    }
}

} // verus!

//! The endpoint: where a request goes, how its query is written, and how
//! the status code of a response decides what its body is read as.
use vstd::prelude::*;

use vstd::slice::slice_to_vec;

use crate::error::ConversionError;
use crate::json::json_of;
use crate::json::lookup;
use crate::json::member;
use crate::json::parse_document;
use crate::json::read_str;
use crate::json::read_u64;
use crate::json::str_member;
use crate::json::u64_member;
use crate::json::JsonView;
use crate::quote::body_decodes;
use crate::quote::body_records;
use crate::quote::distinct_symbols;
use crate::quote::quotes_match;
use crate::quote::Quote;
use crate::request::query_pairs;
use crate::request::LastQuoteReq;

verus! {

/// The `application/x-www-form-urlencoded` text of a list of key/value
/// pairs, in their order.
pub uninterp spec fn url_encoded(pairs: Seq<(Seq<char>, Seq<char>)>) -> Seq<char>;

/// A character that form encoding writes as it is.
pub open spec fn unchanged_char(c: char) -> bool {
    c == '*' || c == '-' || c == '.' || c == '_' || ('0' <= c && c <= '9') || ('A' <= c && c <= 'Z') || ('a'
        <= c && c <= 'z')
}

/// Every key and value is made of such characters only.
pub open spec fn plain_pairs(pairs: Seq<(Seq<char>, Seq<char>)>) -> bool {
    forall|i: int, j: int|
        0 <= i < pairs.len() ==> (0 <= j < pairs[i].0.len() ==> unchanged_char(#[trigger] pairs[i].0[j])) && (
        0 <= j < pairs[i].1.len() ==> unchanged_char(#[trigger] pairs[i].1[j]))
}

/// The pairs written as `key=value` items joined by `&`, with no encoding.
pub open spec fn joined_pairs(pairs: Seq<(Seq<char>, Seq<char>)>) -> Seq<char>
    decreases pairs.len(),
{
    if pairs.len() == 0 {
        Seq::empty()
    } else if pairs.len() == 1 {
        pairs[0].0 + seq!['='] + pairs[0].1
    } else {
        joined_pairs(pairs.drop_last()) + seq!['&'] + pairs.last().0 + seq!['='] + pairs.last().1
    }
}

/// Relies on `serde_urlencoded::to_string`: a list of string pairs is
/// written as `key=value` items joined by `&`, each part form-encoded by
/// `form_urlencoded`, which keeps ASCII letters, digits and `*-._` as they
/// are. A pair of strings always serializes, so the call never fails here.
#[verifier::external_body]
fn encode_pairs(pairs: &Vec<(String, String)>) -> (r: Result<String, serde_urlencoded::ser::Error>)
    ensures
        r is Ok,
        r is Ok ==> r->Ok_0@ == url_encoded(pairs@.map_values(|p: (String, String)| (p.0@, p.1@))),
        r is Ok && plain_pairs(pairs@.map_values(|p: (String, String)| (p.0@, p.1@))) ==> r->Ok_0@
            == joined_pairs(pairs@.map_values(|p: (String, String)| (p.0@, p.1@))),
{
    serde_urlencoded::to_string(pairs)
}

/// The error that the server sends with a failure status.
#[derive(Clone, Debug, PartialEq, Eq)]
pub struct ApiError {
    /// The server's code for the failure.
    pub code: u64,
    /// A description of the failure.
    pub message: String,
}

/// The code and message of a document that is the server's error: an
/// object with an unsigned-integer `code` and a string `message`.
pub open spec fn api_error_of(doc: JsonView) -> Option<(u64, Seq<char>)> {
    let code = u64_member(lookup(doc, "code"@));
    let message = str_member(lookup(doc, "message"@));
    if code is Some && message is Some {
        Some((code->0, message->0))
    } else {
        None
    }
}

/// The server's error that a body holds, if it holds one.
pub open spec fn body_api_error(body: Seq<u8>) -> Option<(u64, Seq<char>)> {
    match json_of(body) {
        Some(doc) => api_error_of(doc),
        None => None,
    }
}

/// What the routing table makes of a status code.
#[derive(Clone, Copy, Debug, PartialEq, Eq, Structural)]
pub enum Route {
    /// The body holds the output.
    Success,
    /// The symbol was invalid or unknown, or the feed is not supported.
    InvalidInput,
}

/// The routing table: 200 is success, 422 is invalid input, and no other
/// status code is registered.
pub open spec fn route_of(status: u16) -> Option<Route> {
    if status == 200 {
        Some(Route::Success)
    } else if status == 422 {
        Some(Route::InvalidInput)
    } else {
        None
    }
}

/// A failed call of the endpoint.
#[derive(Debug)]
pub enum GetError {
    /// Status 422: the symbol was invalid or unknown, or the data feed is
    /// not supported. Holds the server's error, or the raw body where that
    /// could not be read.
    InvalidInput(Result<ApiError, Vec<u8>>),
    /// A status code that the endpoint does not know, with the body as sent.
    UnexpectedStatus(u16, Vec<u8>),
    /// The body of a successful response could not be read.
    Conversion(ConversionError),
}

/// The market-data API's base URL.
pub open spec fn data_base_url() -> Seq<char> {
    seq!['h', 't', 't', 'p', 's', ':', '/', '/', 'd', 'a', 't', 'a', '.', 'a', 'l', 'p', 'a', 'c', 'a', '.', 'm', 'a', 'r', 'k', 'e', 't', 's']
}

/// The endpoint's path.
pub open spec fn latest_quotes_path() -> Seq<char> {
    seq!['/', 'v', '2', '/', 's', 't', 'o', 'c', 'k', 's', '/', 'q', 'u', 'o', 't', 'e', 's', '/', 'l', 'a', 't', 'e', 's', 't']
}

/// A GET of the latest quotes of a list of symbols.
pub struct Get;

impl Get {
    /// The URL that the path is relative to.
    pub fn base_url() -> (r: String)
        ensures
            r@ == data_base_url(),
    {
        proof {
            reveal_strlit("https://data.alpaca.markets");
            assert("https://data.alpaca.markets"@ =~= data_base_url());
        }
        "https://data.alpaca.markets".to_owned()
    }

    /// The path of the endpoint, the same for every input.
    pub fn path(_input: &LastQuoteReq) -> (r: String)
        ensures
            r@ == latest_quotes_path(),
    {
        proof {
            reveal_strlit("/v2/stocks/quotes/latest");
            assert("/v2/stocks/quotes/latest"@ =~= latest_quotes_path());
        }
        "/v2/stocks/quotes/latest".to_owned()
    }

    /// The query string: the symbols, then the feed only where one is set.
    pub fn query(input: &LastQuoteReq) -> (r: Result<Option<String>, ConversionError>)
        ensures
            r matches Ok(Some(q)) && q@ == url_encoded(query_pairs(input.symbols@, input.feed)),
            plain_pairs(query_pairs(input.symbols@, input.feed)) ==> (r matches Ok(Some(q)) && q@ == joined_pairs(
                query_pairs(input.symbols@, input.feed),
            )),
    {
        let pairs = input.query_pairs();
        match encode_pairs(&pairs) {
            Ok(q) => Ok(Some(q)),
            Err(e) => Err(ConversionError::UrlEncode(e)),
        }
    }

    /// The routing table: what a status code means for this endpoint.
    pub fn route(status: u16) -> (r: Option<Route>)
        ensures
            r == route_of(status),
    {
        if status == 200 {
            Some(Route::Success)
        } else if status == 422 {
            Some(Route::InvalidInput)
        } else {
            None
        }
    }

    /// Reads the body of a successful response, as `Quote::parse` does.
    pub fn parse(body: &[u8]) -> (r: Result<Vec<Quote>, ConversionError>)
        ensures
            r is Ok <==> body_decodes(body@),
            json_of(body@) is None ==> (r is Err && r->Err_0 is Json),
            r matches Ok(quotes) ==> distinct_symbols(quotes@) && quotes_match(quotes@, body_records(body@)->0),
    {
        Quote::parse(body)
    }

    /// Reads the body of a failure response as the server's error, an
    /// object with a numeric `code` and a string `message` (other members
    /// are ignored); where that fails, hands back the body as it was.
    pub fn parse_err(body: &[u8]) -> (r: Result<ApiError, Vec<u8>>)
        ensures
            r is Ok <==> body_api_error(body@) is Some,
            r matches Ok(e) ==> e.code == (body_api_error(body@)->0).0 && e.message@ == (body_api_error(body@)->0).1,
            r matches Err(raw) ==> raw@ == body@,
    {
        let doc = match parse_document(body) {
            Ok(d) => d,
            Err(_) => return Err(slice_to_vec(body)),
        };
        let code_key = "code".to_owned();
        let message_key = "message".to_owned();
        let code = match read_u64(member(&doc, &code_key)) {
            Some(n) => n,
            None => return Err(slice_to_vec(body)),
        };
        let message = match read_str(member(&doc, &message_key)) {
            Some(text) => text,
            None => return Err(slice_to_vec(body)),
        };
        Ok(ApiError { code, message })
    }

    /// The outcome of a response with the given status code and body.
    /// A success status has the body read as quotes; 422 always gives the
    /// invalid-input error, whatever the body; any other status gives the
    /// unexpected-status error with that code and the body unchanged.
    pub fn evaluate(status: u16, body: &[u8]) -> (r: Result<Vec<Quote>, GetError>)
        ensures
            route_of(status) == Some(Route::Success) ==> {
                &&& r is Ok <==> body_decodes(body@)
                &&& r matches Err(e) ==> e is Conversion
                &&& json_of(body@) is None ==> (r matches Err(GetError::Conversion(c)) && c is Json)
                &&& r matches Ok(quotes) ==> distinct_symbols(quotes@) && quotes_match(quotes@, body_records(body@)->0)
            },
            route_of(status) == Some(Route::InvalidInput) ==> {
                &&& r matches Err(GetError::InvalidInput(inner))
                &&& r matches Err(GetError::InvalidInput(inner)) ==> (inner is Ok <==> body_api_error(body@) is Some)
                &&& r matches Err(GetError::InvalidInput(Ok(e))) ==> e.code == (body_api_error(body@)->0).0
                    && e.message@ == (body_api_error(body@)->0).1
                &&& r matches Err(GetError::InvalidInput(Err(raw))) ==> raw@ == body@
            },
            route_of(status) is None ==> (r matches Err(GetError::UnexpectedStatus(code, raw)) && code == status
                && raw@ == body@),
    {
        match Get::route(status) {
            Some(Route::Success) => match Get::parse(body) {
                Ok(quotes) => Ok(quotes),
                Err(e) => Err(GetError::Conversion(e)),
            },
            Some(Route::InvalidInput) => Err(GetError::InvalidInput(Get::parse_err(body))),
            None => Err(GetError::UnexpectedStatus(status, slice_to_vec(body))),
        }
    }
}

} // verus!

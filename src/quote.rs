//! The response side: raw records, quotes, and the decoding of a body.
use vstd::prelude::*;

use num_decimal::Num;

use crate::error::ConversionError;
use crate::json::decimal_member;
use crate::json::json_of;
use crate::json::keys_distinct;
use crate::json::lookup;
use crate::json::member;
use crate::json::parse_document;
use crate::json::parse_timestamp;
use crate::json::read_decimal;
use crate::json::read_str;
use crate::json::read_u64;
use crate::json::str_member;
use crate::json::timestamp_of;
use crate::json::u64_member;
use crate::json::JsonView;

verus! {

/// A point in time: whole seconds since the Unix epoch and the nanoseconds
/// past them. Ordered by seconds, then nanoseconds, as time runs.
#[derive(Clone, Copy, Debug, PartialEq, Eq, PartialOrd, Ord, Hash, Structural)]
pub struct Timestamp {
    pub secs: i64,
    pub nanos: u32,
}

/// One symbol's record as the server sends it (without its symbol).
#[derive(Debug)]
pub struct QuoteDataPoint {
    pub time: Timestamp,
    pub ask_price: Num,
    pub ask_size: u64,
    pub bid_price: Num,
    pub bid_size: u64,
}

/// The latest quote of one symbol.
#[derive(Debug, PartialEq, Eq)]
pub struct Quote {
    /// The time stamp of this quote.
    pub time: Timestamp,
    /// The ask price.
    pub ask_price: Num,
    /// The ask size.
    pub ask_size: u64,
    /// The bid price.
    pub bid_price: Num,
    /// The bid size.
    pub bid_size: u64,
    /// The symbol that this quote is for.
    pub symbol: String,
}

/// The records of a response, each with the symbol it was keyed by.
#[derive(Debug)]
pub struct LastQuoteResponse {
    pub quotes: Vec<(String, QuoteDataPoint)>,
}

/// `q` is the quote that record `p`, keyed by `symbol`, stands for.
pub open spec fn is_quote_of(q: Quote, symbol: Seq<char>, p: QuoteDataPoint) -> bool {
    &&& q.time == p.time
    &&& q.ask_price == p.ask_price
    &&& q.ask_size == p.ask_size
    &&& q.bid_price == p.bid_price
    &&& q.bid_size == p.bid_size
    &&& q.symbol@ == symbol
}

/// No two entries share a symbol.
pub open spec fn distinct_keys(entries: Seq<(String, QuoteDataPoint)>) -> bool {
    forall|i: int, j: int|
        0 <= i < entries.len() && 0 <= j < entries.len() && i != j ==> entries[i].0@ != entries[j].0@
}

/// No two quotes share a symbol.
pub open spec fn distinct_symbols(quotes: Seq<Quote>) -> bool {
    forall|i: int, j: int|
        0 <= i < quotes.len() && 0 <= j < quotes.len() && i != j ==> quotes[i].symbol@ != quotes[j].symbol@
}

impl LastQuoteResponse {
    /// A response keys each record by a symbol of its own.
    pub open spec fn wf(&self) -> bool {
        distinct_keys(self.quotes@)
    }

    /// The quotes that the records stand for, one for each record and in
    /// the records' order. A symbol without a record gets no quote, and no
    /// records give no quotes.
    pub fn into_quotes(self) -> (r: Vec<Quote>)
        ensures
            r@.len() == self.quotes@.len(),
            forall|i: int|
                0 <= i < r@.len() ==> #[trigger] is_quote_of(r@[i], self.quotes@[i].0@, self.quotes@[i].1),
            self.wf() ==> distinct_symbols(r@),
    {
        let ghost entries = self.quotes@;
        let mut rest = self.quotes;
        let mut out: Vec<Quote> = Vec::new();
        while rest.len() > 0
            invariant
                rest@.len() + out@.len() == entries.len(),
                forall|i: int| 0 <= i < rest@.len() ==> rest@[i] == entries[i],
                forall|k: int|
                    0 <= k < out@.len() ==> is_quote_of(
                        #[trigger] out@[k],
                        entries[rest@.len() + k].0@,
                        entries[rest@.len() + k].1,
                    ),
            decreases rest@.len(),
        {
            match rest.pop() {
                Some(entry) => {
                    let (symbol, point) = entry;
                    let q = Quote::from(symbol.as_str(), point);
                    out.insert(0, q);
                },
                None => {},
            }
        }
        proof {
            if distinct_keys(entries) {
                assert forall|i: int, j: int|
                    0 <= i < out@.len() && 0 <= j < out@.len() && i != j implies out@[i].symbol@
                        != out@[j].symbol@ by {
                    assert(is_quote_of(out@[i], entries[i].0@, entries[i].1));
                    assert(is_quote_of(out@[j], entries[j].0@, entries[j].1));
                }
            }
        }
        out
    }
}

/// The record that a JSON value stands for: an object with an RFC 3339
/// string `t`, decimals `ap` and `bp` (numbers, or strings naming one) and
/// unsigned integers `as` and `bs`. Other members play no part.
pub open spec fn point_of(rec: JsonView) -> Option<QuoteDataPoint> {
    let t = str_member(lookup(rec, "t"@));
    let ap = decimal_member(lookup(rec, "ap"@));
    let az = u64_member(lookup(rec, "as"@));
    let bp = decimal_member(lookup(rec, "bp"@));
    let bz = u64_member(lookup(rec, "bs"@));
    if t is Some && timestamp_of(t->0) is Some && ap is Some && az is Some && bp is Some && bz is Some {
        let stamp = timestamp_of(t->0)->0;
        Some(
            QuoteDataPoint {
                time: Timestamp { secs: stamp.0, nanos: stamp.1 },
                ask_price: ap->0,
                ask_size: az->0,
                bid_price: bp->0,
                bid_size: bz->0,
            },
        )
    } else {
        None
    }
}

/// The members of a document's `quotes` object.
pub open spec fn records_of(doc: JsonView) -> Option<Seq<(String, JsonView)>> {
    match lookup(doc, "quotes"@) {
        Some(JsonView::Object(ms)) => Some(ms@),
        _ => None,
    }
}

/// The members of the `quotes` object of the document a body holds.
pub open spec fn body_records(body: Seq<u8>) -> Option<Seq<(String, JsonView)>> {
    match json_of(body) {
        Some(doc) => records_of(doc),
        None => None,
    }
}

/// Every member stands for a record.
pub open spec fn all_points(ms: Seq<(String, JsonView)>) -> bool {
    forall|i: int| 0 <= i < ms.len() ==> (#[trigger] point_of(ms[i].1)) is Some
}

/// A body is a document whose `quotes` object holds records only.
pub open spec fn body_decodes(body: Seq<u8>) -> bool {
    body_records(body) matches Some(ms) && all_points(ms)
}

/// The entries are the members, each record read.
pub open spec fn entries_match(entries: Seq<(String, QuoteDataPoint)>, ms: Seq<(String, JsonView)>) -> bool {
    &&& entries.len() == ms.len()
    &&& forall|i: int|
        0 <= i < ms.len() ==> #[trigger] entries[i].0@ == ms[i].0@ && entries[i].1 == point_of(ms[i].1)->0
}

/// The quotes are those of the members, one each, in the members' order.
pub open spec fn quotes_match(quotes: Seq<Quote>, ms: Seq<(String, JsonView)>) -> bool {
    &&& quotes.len() == ms.len()
    &&& forall|i: int|
        0 <= i < ms.len() ==> #[trigger] is_quote_of(quotes[i], ms[i].0@, point_of(ms[i].1)->0)
}

/// A record reads the same whatever other members it has: two values
/// that agree on `t`, `ap`, `as`, `bp` and `bs` stand for the same record.
pub proof fn lemma_extra_members_ignored(a: JsonView, b: JsonView)
    requires
        lookup(a, "t"@) == lookup(b, "t"@),
        lookup(a, "ap"@) == lookup(b, "ap"@),
        lookup(a, "as"@) == lookup(b, "as"@),
        lookup(a, "bp"@) == lookup(b, "bp"@),
        lookup(a, "bs"@) == lookup(b, "bs"@),
    ensures
        point_of(a) == point_of(b),
{
}

/// The member `name` of a record, or the error for its absence.
fn field<'a>(v: &'a JsonView, name: &str) -> (r: Result<&'a JsonView, ConversionError>)
    ensures
        r is Ok <==> lookup(*v, name@) is Some,
        r is Ok ==> *r->Ok_0 == lookup(*v, name@)->0,
{
    let key = name.to_owned();
    match member(v, &key) {
        Some(x) => Ok(x),
        None => Err(ConversionError::MissingField(key)),
    }
}

/// Reads one record, as `point_of` says.
pub fn decode_point(v: &JsonView) -> (r: Result<QuoteDataPoint, ConversionError>)
    ensures
        r is Ok <==> point_of(*v) is Some,
        r is Ok ==> r->Ok_0 == point_of(*v)->0,
{
    let tv = match field(v, "t") {
        Ok(x) => x,
        Err(e) => return Err(e),
    };
    let time = match read_str(Some(tv)) {
        None => return Err(ConversionError::InvalidField("t".to_owned())),
        Some(text) => match parse_timestamp(text.as_str()) {
            Some(parts) => Timestamp { secs: parts.0, nanos: parts.1 },
            None => return Err(ConversionError::InvalidField("t".to_owned())),
        },
    };
    let ask_price = match field(v, "ap") {
        Err(e) => return Err(e),
        Ok(x) => match read_decimal(Some(x)) {
            Some(n) => n,
            None => return Err(ConversionError::InvalidField("ap".to_owned())),
        },
    };
    let ask_size = match field(v, "as") {
        Err(e) => return Err(e),
        Ok(x) => match read_u64(Some(x)) {
            Some(n) => n,
            None => return Err(ConversionError::InvalidField("as".to_owned())),
        },
    };
    let bid_price = match field(v, "bp") {
        Err(e) => return Err(e),
        Ok(x) => match read_decimal(Some(x)) {
            Some(n) => n,
            None => return Err(ConversionError::InvalidField("bp".to_owned())),
        },
    };
    let bid_size = match field(v, "bs") {
        Err(e) => return Err(e),
        Ok(x) => match read_u64(Some(x)) {
            Some(n) => n,
            None => return Err(ConversionError::InvalidField("bs".to_owned())),
        },
    };
    Ok(QuoteDataPoint { time, ask_price, ask_size, bid_price, bid_size })
}

impl LastQuoteResponse {
    /// Reads a response body: a JSON object whose member `quotes` is an
    /// object of records keyed by symbol. Members other than `quotes` are
    /// ignored; a record that cannot be read fails the whole body.
    pub fn decode(body: &[u8]) -> (r: Result<LastQuoteResponse, ConversionError>)
        ensures
            r is Ok <==> body_decodes(body@),
            json_of(body@) is None ==> (r is Err && r->Err_0 is Json),
            r matches Ok(resp) ==> resp.wf() && entries_match(resp.quotes@, body_records(body@)->0),
    {
        let doc = match parse_document(body) {
            Ok(d) => d,
            Err(e) => return Err(ConversionError::Json(e)),
        };
        let quotes = match field(&doc, "quotes") {
            Err(e) => return Err(e),
            Ok(q) => q,
        };
        let entries = match quotes {
            JsonView::Object(ms) => ms,
            _ => return Err(ConversionError::InvalidField("quotes".to_owned())),
        };
        proof {
            reveal_strlit("quotes");
            assert(lookup(doc, "quotes"@) matches Some(JsonView::Object(ms)) && keys_distinct(ms@));
        }
        let ghost ms = entries@;
        let mut out: Vec<(String, QuoteDataPoint)> = Vec::new();
        let mut i: usize = 0;
        while i < entries.len()
            invariant
                i <= ms.len(),
                ms == entries@,
                json_of(body@) == Some(doc),
                body_records(body@) == Some(ms),
                keys_distinct(ms),
                out@.len() == i,
                forall|k: int| 0 <= k < i ==> point_of(#[trigger] ms[k].1) is Some,
                forall|k: int|
                    0 <= k < i ==> #[trigger] out@[k].0@ == ms[k].0@ && out@[k].1 == point_of(ms[k].1)->0,
            decreases ms.len() - i,
        {
            let point = match decode_point(&entries[i].1) {
                Ok(p) => p,
                Err(e) => return Err(e),
            };
            out.push((entries[i].0.clone(), point));
            i = i + 1;
        }
        proof {
            assert forall|a: int, b: int|
                0 <= a < out@.len() && 0 <= b < out@.len() && a != b implies out@[a].0@ != out@[b].0@ by {
                assert(out@[a].0@ == ms[a].0@);
                assert(out@[b].0@ == ms[b].0@);
            }
        }
        Ok(LastQuoteResponse { quotes: out })
    }
}

impl Quote {
    /// The quote that a record keyed by `symbol` stands for.
    pub fn from(symbol: &str, point: QuoteDataPoint) -> (r: Self)
        ensures
            is_quote_of(r, symbol@, point),
    {
        Quote {
            time: point.time,
            ask_price: point.ask_price,
            ask_size: point.ask_size,
            bid_price: point.bid_price,
            bid_size: point.bid_size,
            symbol: symbol.to_owned(),
        }
    }

    /// The quotes of a response body, one for each member of its `quotes`
    /// object, with the symbol taken from the member's key. The order is
    /// that of the object's members, which callers should not rely on.
    pub fn parse(body: &[u8]) -> (r: Result<Vec<Quote>, ConversionError>)
        ensures
            r is Ok <==> body_decodes(body@),
            json_of(body@) is None ==> (r is Err && r->Err_0 is Json),
            r matches Ok(quotes) ==> distinct_symbols(quotes@) && quotes_match(quotes@, body_records(body@)->0),
    {
        match LastQuoteResponse::decode(body) {
            Ok(resp) => {
                let ghost entries = resp.quotes@;
                let quotes = resp.into_quotes();
                proof {
                    let ms = body_records(body@)->0;
                    assert forall|i: int| 0 <= i < ms.len() implies #[trigger] is_quote_of(
                        quotes@[i],
                        ms[i].0@,
                        point_of(ms[i].1)->0,
                    ) by {
                        assert(is_quote_of(quotes@[i], entries[i].0@, entries[i].1));
                        assert(entries[i].0@ == ms[i].0@);
                    }
                }
                Ok(quotes)
            },
            Err(e) => Err(e),
        }
    }
}

} // verus!

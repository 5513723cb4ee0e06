use apca_quote::endpoint::ApiError;
use apca_quote::endpoint::Get;
use apca_quote::endpoint::GetError;
use apca_quote::endpoint::Route;
use apca_quote::error::ConversionError;
use apca_quote::quote::Quote;
use apca_quote::quote::Timestamp;
use apca_quote::request::Feed;
use apca_quote::request::LastQuoteReq;

use chrono::DateTime;
use num_decimal::Num;

const REFERENCE: &[u8] = br#"{
    "quotes": {
        "TSLA": {
            "t": "2022-04-12T17:26:45.009288296Z",
            "ax": "V",
            "ap": 1020,
            "as": 3,
            "bx": "V",
            "bp": 990,
            "bs": 5,
            "c": ["R"],
            "z": "C"
        },
        "AAPL": {
            "t": "2022-04-12T17:26:44.962998616Z",
            "ax": "V",
            "ap": 170,
            "as": 1,
            "bx": "V",
            "bp": 168.03,
            "bs": 1,
            "c": ["R"],
            "z": "C"
        }
    }
}"#;

fn stamp(text: &str) -> Timestamp {
    let t = DateTime::parse_from_rfc3339(text).unwrap();
    Timestamp { secs: t.timestamp(), nanos: t.timestamp_subsec_nanos() }
}

fn symbols(list: &[&str]) -> Vec<String> {
    list.iter().map(|s| s.to_string()).collect()
}

fn spy_body(extra: &str) -> Vec<u8> {
    format!(
        r#"{{"quotes": {{"SPY": {{"t": "2024-01-02T15:00:00.5Z", "ap": 470.5, "as": 2, "bp": 470.25, "bs": 4{}}}}}}}"#,
        extra
    )
    .into_bytes()
}

#[test]
fn parse_reference_quote() {
    let mut result = Quote::parse(REFERENCE).unwrap();
    result.sort_by_key(|t| t.time);
    assert_eq!(result.len(), 2);
    assert_eq!(result[1].ask_price, Num::new(1020, 1));
    assert_eq!(result[1].ask_size, 3);
    assert_eq!(result[1].bid_price, Num::new(990, 1));
    assert_eq!(result[1].bid_size, 5);
    assert_eq!(result[1].symbol, "TSLA".to_string());
    assert_eq!(result[1].time, stamp("2022-04-12T17:26:45.009288296Z"));
}

#[test]
fn parse_reference_quote_second_record() {
    let mut result = Quote::parse(REFERENCE).unwrap();
    result.sort_by_key(|t| t.time);
    assert_eq!(result[0].symbol, "AAPL".to_string());
    assert_eq!(result[0].ask_price, Num::new(170, 1));
    assert_eq!(result[0].ask_size, 1);
    assert_eq!(result[0].bid_price, Num::new(16803, 100));
    assert_eq!(result[0].bid_size, 1);
    assert_eq!(result[0].time, stamp("2022-04-12T17:26:44.962998616Z"));
    assert_eq!(result[0].time, Timestamp { secs: 1649784404, nanos: 962998616 });
}

#[test]
fn request_last_quote() {
    // A one-symbol request against a canned success response.
    let req = LastQuoteReq::new(symbols(&["SPY"]));
    assert_eq!(Get::query(&req).unwrap(), Some("symbols=SPY".to_string()));
    let quotes = Get::evaluate(200, &spy_body("")).unwrap();
    assert_eq!(quotes.len(), 1);
    assert_eq!(quotes[0].symbol, "SPY");
    assert_eq!(quotes[0].time, stamp("2024-01-02T15:00:00.5Z"));
}

#[test]
fn request_last_quotes_multi() {
    let req = LastQuoteReq::new(symbols(&["SPY", "QQQ", "MSFT"]));
    assert_eq!(req.symbols, "SPY,QQQ,MSFT");
    let body = br#"{"quotes": {
        "SPY": {"t": "2024-01-02T15:00:00Z", "ap": 1, "as": 1, "bp": 1, "bs": 1},
        "QQQ": {"t": "2024-01-02T15:00:01Z", "ap": 2, "as": 2, "bp": 2, "bs": 2},
        "MSFT": {"t": "2024-01-02T15:00:02Z", "ap": 3, "as": 3, "bp": 3, "bs": 3}
    }}"#;
    let mut quotes = Get::evaluate(200, body).unwrap();
    assert_eq!(quotes.len(), 3);
    quotes.sort_by_key(|q| q.time);
    assert_eq!(quotes[0].symbol, "SPY");
    assert_eq!(quotes[2].symbol, "MSFT");
    assert_eq!(quotes[2].ask_size, 3);
}

#[test]
fn sip_feed() {
    let req = LastQuoteReq::new(symbols(&["SPY"])).with_feed(Feed::SIP);
    assert_eq!(req.feed, Some(Feed::SIP));
    assert_eq!(Get::query(&req).unwrap(), Some("symbols=SPY&feed=sip".to_string()));
    // Either outcome of the server is one that the endpoint names.
    match Get::evaluate(200, &spy_body("")) {
        Ok(_) => (),
        err => panic!("Received unexpected error: {:?}", err),
    }
    match Get::evaluate(422, br#"{"code": 42210000, "message": "feed not allowed"}"#) {
        Err(GetError::InvalidInput(_)) => (),
        err => panic!("Received unexpected error: {:?}", err),
    }
}

#[test]
fn nonexistent_symbol() {
    let req = LastQuoteReq::new(symbols(&["SPY", "NOSUCHSYMBOL"]));
    assert_eq!(req.symbols, "SPY,NOSUCHSYMBOL");
    let quotes = Get::evaluate(200, &spy_body("")).unwrap();
    assert_eq!(quotes.len(), 1);
}

#[test]
fn bad_symbol() {
    let req = LastQuoteReq::new(symbols(&["ABC123"]));
    assert_eq!(Get::query(&req).unwrap(), Some("symbols=ABC123".to_string()));
    let body = br#"{"code": 42210000, "message": "invalid symbol: ABC123"}"#;
    let err = Get::evaluate(422, body).unwrap_err();
    match err {
        GetError::InvalidInput(Ok(ref api)) => {
            assert_eq!(api.code, 42210000);
            assert_eq!(api.message, "invalid symbol: ABC123");
        },
        _ => panic!("Received unexpected error: {:?}", err),
    };
}

#[test]
fn new_joins_symbols_in_order() {
    let req = LastQuoteReq::new(symbols(&["QQQ", "SPY", "QQQ"]));
    assert_eq!(req.symbols, "QQQ,SPY,QQQ");
    assert_eq!(req.feed, None);
}

#[test]
fn new_with_no_symbols() {
    let req = LastQuoteReq::new(Vec::new());
    assert_eq!(req.symbols, "");
    assert_eq!(Get::query(&req).unwrap(), Some("symbols=".to_string()));
}

#[test]
fn query_without_feed_has_no_feed_parameter() {
    let req = LastQuoteReq::new(symbols(&["SPY"]));
    let q = Get::query(&req).unwrap().unwrap();
    assert_eq!(q, "symbols=SPY");
    assert!(!q.contains("feed"));
}

#[test]
fn query_encodes_comma_and_feed() {
    let req = LastQuoteReq::new(symbols(&["SPY", "QQQ"])).with_feed(Feed::SIP);
    let q = Get::query(&req).unwrap().unwrap();
    assert_eq!(q, "symbols=SPY%2CQQQ&feed=sip");
    let iex = LastQuoteReq::new(symbols(&["SPY"])).with_feed(Feed::IEX);
    assert_eq!(Get::query(&iex).unwrap().unwrap(), "symbols=SPY&feed=iex");
}

#[test]
fn feed_names() {
    assert_eq!(Feed::IEX.as_str(), "iex");
    assert_eq!(Feed::SIP.as_str(), "sip");
}

#[test]
fn query_pairs_in_order() {
    let req = LastQuoteReq::new(symbols(&["A", "B"])).with_feed(Feed::IEX);
    assert_eq!(
        req.query_pairs(),
        vec![("symbols".to_string(), "A,B".to_string()), ("feed".to_string(), "iex".to_string())]
    );
}

#[test]
fn base_url_and_path() {
    let req = LastQuoteReq::new(symbols(&["SPY"]));
    assert_eq!(Get::base_url(), "https://data.alpaca.markets");
    assert_eq!(Get::path(&req), "/v2/stocks/quotes/latest");
}

#[test]
fn routing_table() {
    assert_eq!(Get::route(200), Some(Route::Success));
    assert_eq!(Get::route(422), Some(Route::InvalidInput));
    assert_eq!(Get::route(404), None);
    assert_eq!(Get::route(201), None);
}

#[test]
fn extra_fields_are_ignored() {
    let plain = Get::evaluate(200, &spy_body("")).unwrap();
    let extra = Get::evaluate(200, &spy_body(r#", "ax": "V", "c": ["R"], "z": "C", "bx": {"n": 1}"#)).unwrap();
    assert_eq!(plain, extra);
    assert_eq!(extra[0].ask_price, Num::new(941, 2));
    assert_eq!(extra[0].bid_price, Num::new(1881, 4));
    assert_eq!(extra[0].ask_size, 2);
    assert_eq!(extra[0].bid_size, 4);
}

#[test]
fn empty_response_gives_no_quotes() {
    let quotes = Get::evaluate(200, br#"{"quotes": {}}"#).unwrap();
    assert!(quotes.is_empty());
}

#[test]
fn other_top_level_members_are_ignored() {
    let quotes = Quote::parse(br#"{"next_page_token": null, "quotes": {}}"#).unwrap();
    assert!(quotes.is_empty());
}

#[test]
fn invalid_input_status_never_decodes_quotes() {
    let err = Get::evaluate(422, REFERENCE).unwrap_err();
    match err {
        GetError::InvalidInput(Err(raw)) => assert_eq!(raw, REFERENCE.to_vec()),
        other => panic!("unexpected outcome: {:?}", other),
    }
}

#[test]
fn invalid_input_with_unreadable_body_keeps_bytes() {
    let body = b"not json at all";
    match Get::evaluate(422, body) {
        Err(GetError::InvalidInput(Err(raw))) => assert_eq!(raw, body.to_vec()),
        other => panic!("unexpected outcome: {:?}", other),
    }
}

#[test]
fn parse_err_reads_api_error() {
    let api = Get::parse_err(br#"{"code": 40010001, "message": "bad", "extra": true}"#).unwrap();
    assert_eq!(api, ApiError { code: 40010001, message: "bad".to_string() });
    assert_eq!(Get::parse_err(br#"{"code": "x", "message": "bad"}"#), Err(br#"{"code": "x", "message": "bad"}"#.to_vec()));
    assert_eq!(Get::parse_err(br#"{"code": 1}"#), Err(br#"{"code": 1}"#.to_vec()));
}

#[test]
fn unknown_status_keeps_code_and_body() {
    let body = b"<html>gateway timeout</html>";
    match Get::evaluate(504, body) {
        Err(GetError::UnexpectedStatus(code, raw)) => {
            assert_eq!(code, 504);
            assert_eq!(raw, body.to_vec());
        },
        other => panic!("unexpected outcome: {:?}", other),
    }
    match Get::evaluate(404, REFERENCE) {
        Err(GetError::UnexpectedStatus(404, raw)) => assert_eq!(raw, REFERENCE.to_vec()),
        other => panic!("unexpected outcome: {:?}", other),
    }
}

#[test]
fn success_with_invalid_json_is_conversion_error() {
    match Get::evaluate(200, b"{\"quotes\": ") {
        Err(GetError::Conversion(ConversionError::Json(_))) => (),
        other => panic!("unexpected outcome: {:?}", other),
    }
}

#[test]
fn missing_quotes_member() {
    match Quote::parse(b"{}") {
        Err(ConversionError::MissingField(name)) => assert_eq!(name, "quotes"),
        other => panic!("unexpected outcome: {:?}", other),
    }
    match Quote::parse(br#"{"quotes": 5}"#) {
        Err(ConversionError::InvalidField(name)) => assert_eq!(name, "quotes"),
        other => panic!("unexpected outcome: {:?}", other),
    }
}

#[test]
fn record_missing_a_size() {
    let body = br#"{"quotes": {"SPY": {"t": "2024-01-02T15:00:00Z", "ap": 1, "as": 1, "bp": 1}}}"#;
    match Quote::parse(body) {
        Err(ConversionError::MissingField(name)) => assert_eq!(name, "bs"),
        other => panic!("unexpected outcome: {:?}", other),
    }
}

#[test]
fn record_with_negative_size() {
    let body = br#"{"quotes": {"SPY": {"t": "2024-01-02T15:00:00Z", "ap": 1, "as": -1, "bp": 1, "bs": 1}}}"#;
    match Quote::parse(body) {
        Err(ConversionError::InvalidField(name)) => assert_eq!(name, "as"),
        other => panic!("unexpected outcome: {:?}", other),
    }
}

#[test]
fn record_with_bad_time_or_price() {
    let body = br#"{"quotes": {"SPY": {"t": "yesterday", "ap": 1, "as": 1, "bp": 1, "bs": 1}}}"#;
    assert!(matches!(Quote::parse(body), Err(ConversionError::InvalidField(name)) if name == "t"));
    let body = br#"{"quotes": {"SPY": {"t": "2024-01-02T15:00:00Z", "ap": "abc", "as": 1, "bp": 1, "bs": 1}}}"#;
    assert!(matches!(Quote::parse(body), Err(ConversionError::InvalidField(name)) if name == "ap"));
    let body = br#"{"quotes": {"SPY": {"t": 5, "ap": 1, "as": 1, "bp": 1, "bs": 1}}}"#;
    assert!(matches!(Quote::parse(body), Err(ConversionError::InvalidField(name)) if name == "t"));
}

#[test]
fn string_prices_are_exact() {
    let body = br#"{"quotes": {"SPY": {"t": "2024-01-02T15:00:00+02:00", "ap": "0.1", "as": 0, "bp": "0.30", "bs": 0}}}"#;
    let quotes = Quote::parse(body).unwrap();
    assert_eq!(quotes[0].ask_price, Num::new(1, 10));
    assert_eq!(quotes[0].bid_price, Num::new(3, 10));
    assert_eq!(quotes[0].time, stamp("2024-01-02T13:00:00Z"));
}

#[test]
fn negative_and_float_prices_are_exact() {
    let body = br#"{"quotes": {"X": {"t": "2024-01-02T15:00:00Z", "ap": -3, "as": 18446744073709551615, "bp": 0.5, "bs": 7}}}"#;
    let quotes = Quote::parse(body).unwrap();
    assert_eq!(quotes[0].ask_price, Num::new(-3, 1));
    assert_eq!(quotes[0].bid_price, Num::new(1, 2));
    assert_eq!(quotes[0].ask_size, u64::MAX);
}

#[test]
fn size_written_as_float_is_rejected() {
    let body = br#"{"quotes": {"X": {"t": "2024-01-02T15:00:00Z", "ap": 1, "as": 3.0, "bp": 1, "bs": 1}}}"#;
    assert!(matches!(Quote::parse(body), Err(ConversionError::InvalidField(name)) if name == "as"));
}

#[test]
fn api_error_with_wrong_message_type_keeps_bytes() {
    let body = br#"{"code": 1, "message": 2}"#;
    assert_eq!(Get::parse_err(body), Err(body.to_vec()));
}

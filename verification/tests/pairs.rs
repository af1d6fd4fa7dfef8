use adc_oracle::types::{CurrencyPair, PairError, Request, RequestOpts, Response, DEFAULT_BASE_CURRENCY};
use candid::Principal;

#[test]
fn lib_test_currency_pair_with_base() {
    let pair_string = "BTC/ETH";
    let pair = CurrencyPair::try_from(String::from(pair_string)).unwrap();

    assert_eq!(pair.base.ticker, "BTC");
    assert_eq!(pair.duplicate().quote.unwrap().ticker, "ETH");
    assert_eq!(pair.repr, pair_string);
    assert_eq!(pair.duplicate().to_string(), pair_string);
}

#[test]
fn lib_test_currency_pair_without_base() {
    let pair_string = "BTC";
    let pair = CurrencyPair::try_from(String::from(pair_string)).unwrap();

    assert_eq!(pair.base.ticker, "BTC");
    assert!(pair.quote.is_none());
    assert_eq!(pair.repr, pair_string);
}

#[test]
fn types_test_currency_pair_with_base() {
    let pair_string = "BTC/ETH";
    let pair = CurrencyPair::try_from(String::from(pair_string)).unwrap();

    assert_eq!(pair.base.ticker, "BTC");
    assert_eq!(pair.quote_ticker(), "ETH");
    assert_eq!(pair.repr, pair_string);
    assert_eq!(pair.to_string(), pair_string);
}

#[test]
fn types_test_currency_pair_without_base() {
    let pair_string = "BTC";
    let pair = CurrencyPair::try_from(String::from(pair_string)).unwrap();

    assert_eq!(pair.base.ticker, "BTC");
    assert_eq!(pair.quote_ticker(), DEFAULT_BASE_CURRENCY);
    assert_eq!(pair.repr, pair_string);
    assert_eq!(pair.with_default_quote(), format!("BTC/{}", DEFAULT_BASE_CURRENCY));
}

#[test]
fn test_new_request_pair() {
    let new_currency_pair = " ETh/BtC , soL ";
    let new_request = Request::new(
        String::from("id"),
        Principal::anonymous(),
        new_currency_pair.to_string(),
        RequestOpts::default(),
    );
    assert_eq!(new_request.pairs.len(), 2);
    assert_eq!(new_request.pairs.get(0).unwrap(), "ETH/BTC");
    assert_eq!(new_request.pairs.get(1).unwrap(), "SOL");
}

#[test]
fn pair_is_put_in_upper_case() {
    let pair = CurrencyPair::try_from(String::from("btc/usdt")).unwrap();
    assert_eq!(pair.base.ticker, "BTC");
    assert_eq!(pair.quote.as_ref().unwrap().ticker, "USDT");
    assert_eq!(pair.repr, "BTC/USDT");
    assert!(pair.error.is_none());
    assert!(pair.price.is_none());
    assert!(pair.base.proofs.is_none());
}

#[test]
fn pair_with_two_slashes_is_refused() {
    let parsed = CurrencyPair::try_from(String::from("BTC/ETH/USDT"));
    assert_eq!(parsed.err(), Some(PairError::InvalidPair));
    assert_eq!(PairError::InvalidPair.message(), "invalid currency_pair");
}

#[test]
fn pair_with_empty_sides_parses() {
    let pair = CurrencyPair::try_from(String::from("/")).unwrap();
    assert_eq!(pair.base.ticker, "");
    assert_eq!(pair.quote.unwrap().ticker, "");
    let empty = CurrencyPair::try_from(String::new()).unwrap();
    assert_eq!(empty.base.ticker, "");
    assert!(empty.quote.is_none());
}

#[test]
fn request_list_has_one_pair_per_comma() {
    let request = Request::new(
        String::from("r"),
        Principal::anonymous(),
        String::from("btc,,eth/usdt,"),
        RequestOpts { price: false },
    );
    assert_eq!(request.pairs, vec!["BTC", "", "ETH/USDT", ""]);
    assert!(!request.opts.price);
    assert_eq!(request.id, "r");
}

#[test]
fn response_keeps_an_error_item_for_a_pair_that_does_not_parse() {
    let request = Request {
        id: String::from("r1"),
        owner: Principal::anonymous(),
        pairs: vec![String::from("BTC/USDT"), String::from("a/b/c"), String::from("ETH")],
        opts: RequestOpts { price: true },
    };
    let response = Response::from(request);
    assert_eq!(response.id, "r1");
    assert_eq!(response.owner, Principal::anonymous());
    assert!(!response.processed);
    assert_eq!(response.pairs.len(), 3);
    assert_eq!(response.pairs[0].repr, "BTC/USDT");
    assert!(response.pairs[0].error.is_none());
    assert_eq!(response.pairs[1].repr, "A/B/C");
    assert_eq!(response.pairs[1].base.ticker, "A/B/C");
    assert!(response.pairs[1].quote.is_none());
    assert_eq!(response.pairs[1].error.as_deref(), Some("invalid currency_pair"));
    assert!(response.pairs[1].price.is_none());
    assert_eq!(response.pairs[2].repr, "ETH");
    assert!(response.pairs[2].quote.is_none());
    assert!(response.pairs[2].error.is_none());
}

#[test]
fn the_item_of_a_pair_text_is_the_pair_or_its_error() {
    let good = CurrencyPair::item_for(String::from("btc/eth"));
    assert_eq!(good.base.ticker, "BTC");
    assert_eq!(good.quote.unwrap().ticker, "ETH");
    assert!(good.error.is_none());
    let bad = CurrencyPair::item_for(String::from("//"));
    assert_eq!(bad.error.as_deref(), Some("invalid currency_pair"));
    assert_eq!(bad.repr, "//");
    assert!(bad.price.is_none());
}

#[test]
fn a_response_of_malformed_pairs_only_has_an_item_for_each() {
    let request = Request {
        id: String::from("r1"),
        owner: Principal::anonymous(),
        pairs: vec![String::from("a/b/c"), String::from("x//")],
        opts: RequestOpts { price: true },
    };
    let response = Response::from(request);
    assert_eq!(response.pairs.len(), 2);
    assert!(response.pairs.iter().all(|p| p.error.is_some() && p.price.is_none()));
}

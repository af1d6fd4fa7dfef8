use adc_oracle::proofs::ProofResponse;
use adc_oracle::sources::{
    get_asset_price_from_proofs, read_proof, Pyth, ReadError, Reading, Redstone, SourceError,
    PYTH_FEEDS_URL,
};
use adc_oracle::types::ProofTypes;

fn full_proof(body: &str) -> ProofResponse {
    ProofResponse::FullProof(format!(
        "GET /prices HTTP/1.1\r\nhost: example.com\r\n\r\n\n\nHTTP/1.1 200 OK\r\ncontent-type: application/json\r\n\r\n{body}"
    ))
}

#[test]
fn redstone_url_names_the_ticker() {
    assert_eq!(
        Redstone::get_url("BTC"),
        "https://api.redstone.finance/prices?symbol=BTC&provider=redstone&limit=1"
    );
}

#[test]
fn redstone_price_is_the_value_of_the_first_item() {
    assert_eq!(Redstone::get_price("[{\"value\": 50000.5}]"), Ok(50000.5f64.to_bits()));
    assert_eq!(Redstone::get_price("[{\"value\": 3000}, {\"value\": 1}]"), Ok(3000.0f64.to_bits()));
    assert_eq!(Redstone::get_price("[{\"value\": -2}]"), Ok((-2.0f64).to_bits()));
    assert_eq!(Redstone::validate_response("[{\"value\": 1.25}]"), Ok(()));
}

#[test]
fn redstone_answer_without_a_number_gives_no_price() {
    for body in ["[]", "{}", "[{\"value\": \"12\"}]", "[{\"price\": 12}]", "12", "null", "[{\"value\": null}]"] {
        assert_eq!(Redstone::get_price(body), Err(SourceError::MissingValue));
        assert_eq!(Redstone::validate_response(body), Err(SourceError::MissingValue));
    }
    assert_eq!(Redstone::get_price("not json"), Err(SourceError::Malformed));
    assert_eq!(Redstone::get_price(""), Err(SourceError::Malformed));
    assert_eq!(SourceError::MissingValue.message(), "Price not available: JSON structure changed");
}

#[test]
fn pyth_url_names_the_feed() {
    assert_eq!(Pyth::get_url("e62d"), "https://hermes.pyth.network/api/latest_price_feeds?ids[]=e62d");
    assert_eq!(PYTH_FEEDS_URL, "https://hermes.pyth.network/v2/price_feeds");
}

#[test]
fn pyth_quote_is_digits_and_exponent() {
    let quote = Pyth::get_price("[{\"price\": {\"price\": \"5000012345678\", \"expo\": -8}}]").unwrap();
    assert_eq!(quote.price, "5000012345678");
    assert_eq!(quote.expo, -8);
    assert_eq!(Pyth::scale(&quote), 8);
    let positive = Pyth::get_price("[{\"price\": {\"price\": \"7\", \"expo\": 2}}]").unwrap();
    assert_eq!(Pyth::scale(&positive), 2);
}

#[test]
fn pyth_answer_with_a_missing_field_gives_no_quote() {
    assert_eq!(
        Pyth::get_price("[{\"price\": {\"expo\": -8}}]").err(),
        Some(SourceError::MissingPrice)
    );
    assert_eq!(
        Pyth::get_price("[{\"price\": {\"price\": 5, \"expo\": -8}}]").err(),
        Some(SourceError::MissingPrice)
    );
    assert_eq!(
        Pyth::get_price("[{\"price\": {\"price\": \"5\"}}]").err(),
        Some(SourceError::MissingExponent)
    );
    assert_eq!(
        Pyth::get_price("[{\"price\": {\"price\": \"5\", \"expo\": 1.5}}]").err(),
        Some(SourceError::MissingExponent)
    );
    assert_eq!(Pyth::get_price("{").err(), Some(SourceError::Malformed));
    assert_eq!(SourceError::MissingPrice.message(), "price.price field is missing");
    assert_eq!(SourceError::MissingExponent.message(), "price.expo field is missing");
}

#[test]
fn pyth_ticker_id_is_that_of_the_last_matching_feed() {
    let feeds = "[
        {\"id\": \"aa\", \"attributes\": {\"base\": \"BTC\", \"quote_currency\": \"USD\"}},
        {\"id\": \"bb\", \"attributes\": {\"base\": \"ETH\", \"quote_currency\": \"USD\"}},
        {\"id\": \"cc\", \"attributes\": {\"base\": \"BTC\", \"quote_currency\": \"EUR\"}},
        {\"id\": \"dd\", \"attributes\": {\"base\": \"BTC\", \"quote_currency\": \"USD\"}},
        {\"id\": 5, \"attributes\": {\"base\": \"SOL\", \"quote_currency\": \"USD\"}}
    ]";
    assert_eq!(Pyth::get_ticker_id(feeds, "BTC"), Ok(String::from("dd")));
    assert_eq!(Pyth::get_ticker_id(feeds, "ETH"), Ok(String::from("bb")));
    assert_eq!(Pyth::get_ticker_id(feeds, "SOL"), Ok(String::new()));
    assert_eq!(Pyth::get_ticker_id(feeds, "XYZ"), Err(SourceError::InvalidTickerId));
    assert_eq!(Pyth::get_ticker_id(feeds, "btc"), Err(SourceError::InvalidTickerId));
    assert_eq!(Pyth::get_ticker_id("{}", "BTC"), Err(SourceError::NoFeedList));
    assert_eq!(Pyth::get_ticker_id("[", "BTC"), Err(SourceError::Malformed));
    assert_eq!(SourceError::InvalidTickerId.message(), "Invalid ticker id");
}

#[test]
fn a_verified_proof_is_read_by_its_source() {
    let redstone = read_proof(
        &ProofTypes::Redstone(String::from("proof")),
        &full_proof("[{\"value\": 2980}]"),
    );
    match redstone {
        Ok(Reading::Price(bits)) => assert_eq!(f64::from_bits(bits), 2980.0),
        other => panic!("{:?}", other),
    }
    let pyth = read_proof(
        &ProofTypes::Pyth(String::from("proof")),
        &full_proof("[{\"price\": {\"price\": \"300000\", \"expo\": -2}}]"),
    );
    match pyth {
        Ok(Reading::Quote(q)) => assert_eq!((q.price.as_str(), q.expo), ("300000", -2)),
        other => panic!("{:?}", other),
    }
}

#[test]
fn a_proof_without_a_body_or_with_a_wrong_one_is_an_error() {
    let tag = ProofTypes::Redstone(String::new());
    assert_eq!(
        read_proof(&tag, &ProofResponse::SessionProof(String::from("hash"))).err(),
        Some(ReadError::NoBody)
    );
    assert_eq!(
        read_proof(&tag, &ProofResponse::FullProof(String::from("no parts"))).err(),
        Some(ReadError::NoBody)
    );
    assert_eq!(
        read_proof(&tag, &full_proof("[{\"price\": {\"price\": \"1\", \"expo\": 0}}]")).err(),
        Some(ReadError::Source(SourceError::MissingValue))
    );
    assert_eq!(read_proof(&tag, &full_proof("oops")).err(), Some(ReadError::Source(SourceError::Malformed)));
}

#[test]
fn readings_keep_the_order_of_the_verifier() {
    let proofs = vec![ProofTypes::Pyth(String::from("p")), ProofTypes::Redstone(String::from("r"))];
    let responses = vec![
        full_proof("[{\"price\": {\"price\": \"12\", \"expo\": -1}}]"),
        ProofResponse::SessionProof(String::from("h")),
        full_proof("[{\"value\": 1}]"),
    ];
    let readings = get_asset_price_from_proofs(&proofs, &responses);
    assert_eq!(readings.len(), 3);
    assert!(matches!(&readings[0], Ok(Reading::Quote(q)) if q.price == "12" && q.expo == -1));
    assert!(matches!(&readings[1], Err(ReadError::NoBody)));
    assert!(matches!(&readings[2], Err(ReadError::NoProof)));
    assert!(get_asset_price_from_proofs(&proofs, &vec![]).is_empty());
}

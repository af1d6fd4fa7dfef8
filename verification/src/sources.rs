//! The source adapters: where each provider is asked, and which part of its
//! answer is the price.
use vstd::prelude::*;
use crate::proofs::{get_http_response_body, shown_body, ProofResponse};
use crate::types::{proof_views, ProofTypes, ProofView};
use crate::json::{
    as_array, as_i64, as_number_bits, as_str, at, element, elements, from_str, get, integer_in,
    member, number_bits_in, parsed, text_in,
};

verus! {

/// Why a provider's answer gives no price.
#[derive(Debug, Clone, Copy, PartialEq, Eq, Structural)]
pub enum SourceError {
    /// The answer is no JSON document.
    Malformed,
    /// The list of price feeds is no array.
    NoFeedList,
    /// No price feed of the provider is for the ticker.
    InvalidTickerId,
    /// `price.price` is missing or no text.
    MissingPrice,
    /// `price.expo` is missing or no integer.
    MissingExponent,
    /// `value` is missing or no number.
    MissingValue,
}

impl SourceError {
    /// The text of the error.
    pub open spec fn text(self) -> Seq<char> {
        match self {
            SourceError::Malformed => "malformed response"@,
            SourceError::NoFeedList => "price feeds are not a list"@,
            SourceError::InvalidTickerId => "Invalid ticker id"@,
            SourceError::MissingPrice => "price.price field is missing"@,
            SourceError::MissingExponent => "price.expo field is missing"@,
            SourceError::MissingValue => "Price not available: JSON structure changed"@,
        }
    }

    /// The text of the error.
    pub fn message(&self) -> (r: String)
        ensures
            r@ == self.text(),
    {
        match self {
            SourceError::Malformed => "malformed response".to_owned(),
            SourceError::NoFeedList => "price feeds are not a list".to_owned(),
            SourceError::InvalidTickerId => "Invalid ticker id".to_owned(),
            SourceError::MissingPrice => "price.price field is missing".to_owned(),
            SourceError::MissingExponent => "price.expo field is missing".to_owned(),
            SourceError::MissingValue => "Price not available: JSON structure changed".to_owned(),
        }
    }
}

/// The provider Redstone.
#[derive(Debug)]
pub struct Redstone {}

/// The provider Pyth.
#[derive(Debug)]
pub struct Pyth {}

/// Where Redstone is asked for the latest price of a ticker.
pub open spec fn redstone_url(ticker: Seq<char>) -> Seq<char> {
    "https://api.redstone.finance/prices?symbol="@ + ticker + "&provider=redstone&limit=1"@
}

/// The price in a Redstone answer: the number under `value` of the first
/// item, by its bits.
pub open spec fn redstone_price(doc: serde_json::Value) -> Result<u64, SourceError> {
    match number_bits_in(member(element(doc, 0), "value"@)) {
        Some(bits) => Ok(bits),
        None => Err(SourceError::MissingValue),
    }
}

/// The price that a Redstone answer gives, from its text.
pub open spec fn redstone_price_of(body: Seq<char>) -> Result<u64, SourceError> {
    match parsed(body) {
        Some(doc) => redstone_price(doc),
        None => Err(SourceError::Malformed),
    }
}

impl Redstone {
    pub fn new() -> (r: Redstone) {
        Redstone {  }
    }

    /// Where Redstone is asked for the latest price of a ticker.
    pub fn get_url(ticker: &str) -> (r: String)
        ensures
            r@ == redstone_url(ticker@),
    {
        let start = "https://api.redstone.finance/prices?symbol=".to_owned();
        let with_ticker = start.concat(ticker);
        with_ticker.concat("&provider=redstone&limit=1")
    }

    /// The price in a Redstone answer.
    pub fn price_in(doc: &serde_json::Value) -> (r: Result<u64, SourceError>)
        ensures
            r == redstone_price(*doc),
    {
        match as_number_bits(get(at(doc, 0), "value")) {
            Some(bits) => Ok(bits),
            None => Err(SourceError::MissingValue),
        }
    }

    /// The price that a Redstone answer gives, by the bits of its double.
    pub fn get_price(http_response_string: &str) -> (r: Result<u64, SourceError>)
        ensures
            r == redstone_price_of(http_response_string@),
    {
        match from_str(http_response_string) {
            Ok(doc) => Redstone::price_in(&doc),
            Err(_) => Err(SourceError::Malformed),
        }
    }

    /// Whether a Redstone answer gives a price, before its proof is kept.
    pub fn validate_response(http_response_string: &str) -> (r: Result<(), SourceError>)
        ensures
            r is Ok <==> redstone_price_of(http_response_string@) is Ok,
            r is Err ==> r->Err_0 == redstone_price_of(http_response_string@)->Err_0,
    {
        match Redstone::get_price(http_response_string) {
            Ok(_) => Ok(()),
            Err(e) => Err(e),
        }
    }
}

/// What a Pyth answer says of a price: the digits as text and the power of
/// ten to scale them by.
#[derive(Debug)]
pub struct PythQuote {
    pub price: String,
    pub expo: i64,
}

/// The model of a [`PythQuote`].
pub open spec fn quote_model(q: PythQuote) -> (Seq<char>, i64) {
    (q.price@, q.expo)
}

/// Where the price feeds of Pyth are listed.
pub const PYTH_FEEDS_URL: &'static str = "https://hermes.pyth.network/v2/price_feeds";

/// The currency in which Pyth feeds are quoted.
pub const PYTH_QUOTE_CURRENCY: &'static str = "USD";

/// Where Pyth is asked for the latest price of a feed.
pub open spec fn pyth_url(ticker_id: Seq<char>) -> Seq<char> {
    "https://hermes.pyth.network/api/latest_price_feeds?ids[]="@ + ticker_id
}

/// Whether a price feed is that of `ticker` against the quote currency.
pub open spec fn feed_matches(feed: serde_json::Value, ticker: Seq<char>) -> bool {
    let attributes = member(feed, "attributes"@);
    text_in(member(attributes, "base"@)) == Some(ticker) && text_in(
        member(attributes, "quote_currency"@),
    ) == Some(PYTH_QUOTE_CURRENCY@)
}

/// The id of a price feed, empty where it has none that is a text.
pub open spec fn feed_id(feed: serde_json::Value) -> Seq<char> {
    match text_in(member(feed, "id"@)) {
        Some(id) => id,
        None => Seq::<char>::empty(),
    }
}

/// The id of the last feed in the list that is for `ticker`.
pub open spec fn ticker_id_in(feeds: Seq<serde_json::Value>, ticker: Seq<char>) -> Option<Seq<char>>
    decreases feeds.len(),
{
    if feeds.len() == 0 {
        None
    } else if feed_matches(feeds.last(), ticker) {
        Some(feed_id(feeds.last()))
    } else {
        ticker_id_in(feeds.drop_last(), ticker)
    }
}

/// The id of the feed for `ticker` that a feed list names, from its text.
pub open spec fn ticker_id_of(body: Seq<char>, ticker: Seq<char>) -> Result<Seq<char>, SourceError> {
    match parsed(body) {
        None => Err(SourceError::Malformed),
        Some(doc) => match elements(doc) {
            None => Err(SourceError::NoFeedList),
            Some(feeds) => match ticker_id_in(feeds, ticker) {
                Some(id) => Ok(id),
                None => Err(SourceError::InvalidTickerId),
            },
        },
    }
}

/// What a Pyth answer says of a price: the text under `price.price` and the
/// integer under `price.expo` of the first item.
pub open spec fn pyth_quote(doc: serde_json::Value) -> Result<(Seq<char>, i64), SourceError> {
    let price = member(element(doc, 0), "price"@);
    match text_in(member(price, "price"@)) {
        None => Err(SourceError::MissingPrice),
        Some(digits) => match integer_in(member(price, "expo"@)) {
            None => Err(SourceError::MissingExponent),
            Some(expo) => Ok((digits, expo)),
        },
    }
}

/// What a Pyth answer says of a price, from its text.
pub open spec fn pyth_quote_of(body: Seq<char>) -> Result<(Seq<char>, i64), SourceError> {
    match parsed(body) {
        Some(doc) => pyth_quote(doc),
        None => Err(SourceError::Malformed),
    }
}

/// The model of the outcome of reading a Pyth answer.
pub open spec fn quote_result(r: Result<PythQuote, SourceError>) -> Result<(Seq<char>, i64), SourceError> {
    match r {
        Ok(q) => Ok(quote_model(q)),
        Err(e) => Err(e),
    }
}

impl Pyth {
    pub fn new() -> (r: Pyth) {
        Pyth {  }
    }

    /// Where Pyth is asked for the latest price of the feed `ticker_id`.
    pub fn get_url(ticker_id: &str) -> (r: String)
        ensures
            r@ == pyth_url(ticker_id@),
    {
        "https://hermes.pyth.network/api/latest_price_feeds?ids[]=".to_owned().concat(ticker_id)
    }

    /// Whether a price feed is that of `ticker` against the quote currency.
    pub fn is_feed_of(feed: &serde_json::Value, ticker: &str) -> (r: bool)
        ensures
            r == feed_matches(*feed, ticker@),
    {
        let attributes = get(feed, "attributes");
        let base_is = match as_str(get(attributes, "base")) {
            Some(base) => base.to_owned() == ticker.to_owned(),
            None => false,
        };
        let quote_is = match as_str(get(attributes, "quote_currency")) {
            Some(quote) => quote.to_owned() == PYTH_QUOTE_CURRENCY.to_owned(),
            None => false,
        };
        base_is && quote_is
    }

    /// The id of the last feed in the list that is for `ticker`.
    pub fn ticker_id_among(feeds: &Vec<serde_json::Value>, ticker: &str) -> (r: Option<String>)
        ensures
            r is Some <==> ticker_id_in(feeds@, ticker@) is Some,
            r is Some ==> r->Some_0@ == ticker_id_in(feeds@, ticker@)->Some_0,
    {
        let mut found: Option<String> = None;
        let mut i: usize = 0;
        while i < feeds.len()
            invariant
                i <= feeds.len(),
                found is Some <==> ticker_id_in(feeds@.take(i as int), ticker@) is Some,
                found is Some ==> found->Some_0@ == ticker_id_in(feeds@.take(i as int), ticker@)->Some_0,
            decreases feeds.len() - i,
        {
            proof {
                assert(feeds@.take(i + 1).drop_last() =~= feeds@.take(i as int));
                assert(feeds@.take(i + 1).last() == feeds@[i as int]);
            }
            if Pyth::is_feed_of(&feeds[i], ticker) {
                let id = match as_str(get(&feeds[i], "id")) {
                    Some(id) => id.to_owned(),
                    None => String::new(),
                };
                found = Some(id);
            }
            i = i + 1;
        }
        assert(feeds@.take(i as int) =~= feeds@);
        found
    }

    /// The id of the feed for `ticker`, from the text of the feed list.
    pub fn get_ticker_id(feeds_body: &str, ticker: &str) -> (r: Result<String, SourceError>)
        ensures
            r is Ok <==> ticker_id_of(feeds_body@, ticker@) is Ok,
            r is Ok ==> r->Ok_0@ == ticker_id_of(feeds_body@, ticker@)->Ok_0,
            r is Err ==> r->Err_0 == ticker_id_of(feeds_body@, ticker@)->Err_0,
    {
        match from_str(feeds_body) {
            Err(_) => Err(SourceError::Malformed),
            Ok(doc) => match as_array(&doc) {
                None => Err(SourceError::NoFeedList),
                Some(feeds) => match Pyth::ticker_id_among(feeds, ticker) {
                    Some(id) => Ok(id),
                    None => Err(SourceError::InvalidTickerId),
                },
            },
        }
    }

    /// What a Pyth answer says of a price.
    pub fn quote_in(doc: &serde_json::Value) -> (r: Result<PythQuote, SourceError>)
        ensures
            quote_result(r) == pyth_quote(*doc),
    {
        let price = get(at(doc, 0), "price");
        match as_str(get(price, "price")) {
            None => Err(SourceError::MissingPrice),
            Some(digits) => match as_i64(get(price, "expo")) {
                None => Err(SourceError::MissingExponent),
                Some(expo) => Ok(PythQuote { price: digits.to_owned(), expo }),
            },
        }
    }

    /// What a Pyth answer says of a price, from its text. The price itself is
    /// the digits scaled down by ten to the size of the exponent.
    pub fn get_price(http_response_string: &str) -> (r: Result<PythQuote, SourceError>)
        ensures
            quote_result(r) == pyth_quote_of(http_response_string@),
    {
        match from_str(http_response_string) {
            Ok(doc) => Pyth::quote_in(&doc),
            Err(_) => Err(SourceError::Malformed),
        }
    }

    /// The power of ten that the digits of a quote are scaled down by: the
    /// size of its exponent.
    pub fn scale(quote: &PythQuote) -> (r: u64)
        ensures
            r == if quote.expo < 0 {
                -quote.expo
            } else {
                quote.expo as int
            },
    {
        if quote.expo >= 0 {
            quote.expo as u64
        } else if quote.expo == i64::MIN {
            0x8000_0000_0000_0000
        } else {
            (-quote.expo) as u64
        }
    }
}

/// What a verified proof says of a price.
#[derive(Debug)]
pub enum Reading {
    /// The price itself, by the bits of its double.
    Price(u64),
    /// Digits and exponent, from which the price is yet to be computed.
    Quote(PythQuote),
}

/// The model of a [`Reading`].
pub enum ReadingView {
    Price(u64),
    Quote(Seq<char>, i64),
}

impl View for Reading {
    type V = ReadingView;

    open spec fn view(&self) -> ReadingView {
        match self {
            Reading::Price(bits) => ReadingView::Price(*bits),
            Reading::Quote(q) => ReadingView::Quote(q.price@, q.expo),
        }
    }
}

/// Why a verified proof says nothing of a price.
#[derive(Debug, Clone, Copy, PartialEq, Eq, Structural)]
pub enum ReadError {
    /// The verifier answered for more proofs than were sent.
    NoProof,
    /// The proof shows no HTTP body.
    NoBody,
    /// The body is not what the source answers with.
    Source(SourceError),
}

/// What a verified proof says of a price: the body it shows is read as the
/// answer of the source that the proof is tagged with.
pub open spec fn reading_of(proof_type: ProofView, response: ProofResponse) -> Result<ReadingView, ReadError> {
    match shown_body(response) {
        None => Err(ReadError::NoBody),
        Some(body) => match proof_type {
            ProofView::Pyth(_) => match pyth_quote_of(body) {
                Ok(q) => Ok(ReadingView::Quote(q.0, q.1)),
                Err(e) => Err(ReadError::Source(e)),
            },
            ProofView::Redstone(_) => match redstone_price_of(body) {
                Ok(bits) => Ok(ReadingView::Price(bits)),
                Err(e) => Err(ReadError::Source(e)),
            },
        },
    }
}

/// The model of the outcome of reading a proof.
pub open spec fn reading_result(r: Result<Reading, ReadError>) -> Result<ReadingView, ReadError> {
    match r {
        Ok(x) => Ok(x@),
        Err(e) => Err(e),
    }
}

/// What a verified proof says of a price. Only a body that the verifier
/// returned is read; the unverified answer of the source never is.
pub fn read_proof(proof_type: &ProofTypes, response: &ProofResponse) -> (r: Result<Reading, ReadError>)
    ensures
        reading_result(r) == reading_of(proof_type@, *response),
{
    match get_http_response_body(response) {
        None => Err(ReadError::NoBody),
        Some(body) => match proof_type {
            ProofTypes::Pyth(_) => match Pyth::get_price(body.as_str()) {
                Ok(q) => Ok(Reading::Quote(q)),
                Err(e) => Err(ReadError::Source(e)),
            },
            ProofTypes::Redstone(_) => match Redstone::get_price(body.as_str()) {
                Ok(bits) => Ok(Reading::Price(bits)),
                Err(e) => Err(ReadError::Source(e)),
            },
        },
    }
}

/// What the verifier's answers say of a token's price, one reading for each
/// answer and in their order: answer `i` belongs to proof `i`. A proof that
/// failed to verify or to parse gives an error in its place and leaves the
/// others as they are.
pub fn get_asset_price_from_proofs(
    proof_types: &Vec<ProofTypes>,
    verification_response_proofs: &Vec<ProofResponse>,
) -> (r: Vec<Result<Reading, ReadError>>)
    ensures
        r@.len() == verification_response_proofs@.len(),
        forall|i: int|
            0 <= i < r@.len() ==> reading_result(#[trigger] r@[i]) == if i < proof_types@.len() {
                reading_of(proof_types@[i]@, verification_response_proofs@[i])
            } else {
                Err(ReadError::NoProof)
            },
{
    let mut out: Vec<Result<Reading, ReadError>> = Vec::new();
    let mut i: usize = 0;
    while i < verification_response_proofs.len()
        invariant
            i <= verification_response_proofs@.len(),
            out@.len() == i,
            forall|k: int|
                0 <= k < i ==> reading_result(#[trigger] out@[k]) == if k < proof_types@.len() {
                    reading_of(proof_types@[k]@, verification_response_proofs@[k])
                } else {
                    Err(ReadError::NoProof)
                },
        decreases verification_response_proofs.len() - i,
    {
        let reading = if i < proof_types.len() {
            read_proof(&proof_types[i], &verification_response_proofs[i])
        } else {
            Err(ReadError::NoProof)
        };
        out.push(reading);
        i = i + 1;
    }
    out
}

} // verus!

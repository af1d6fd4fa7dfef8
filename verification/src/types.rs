//! The data that travels between the ledger program and the pipeline:
//! requests, currency pairs with their tokens and proofs, and responses.
use vstd::prelude::*;
use crate::consensus::{DetailsView, InformationDetails};
use crate::text::{
    ascii_upper, count_of, index_of, lemma_split_first, lemma_split_len, split, split_on,
    to_ascii_uppercase, to_uppercase, trim, trimmed, unicode_upper, views,
};

verus! {

/// The identity of a ledger program or caller. The pipeline only carries it
/// from a request to its response.
#[verifier::external_type_specification]
#[verifier::external_body]
pub struct ExPrincipal(candid::Principal);

/// The quote currency of a pair that names none.
pub const DEFAULT_BASE_CURRENCY: &'static str = "USDT";

/// A notarised proof of one source's answer, tagged with the source.
#[derive(Debug)]
pub enum ProofTypes {
    Pyth(String),
    Redstone(String),
}

/// The model of a [`ProofTypes`].
pub enum ProofView {
    Pyth(Seq<char>),
    Redstone(Seq<char>),
}

impl View for ProofTypes {
    type V = ProofView;

    open spec fn view(&self) -> ProofView {
        match self {
            ProofTypes::Pyth(p) => ProofView::Pyth(p@),
            ProofTypes::Redstone(p) => ProofView::Redstone(p@),
        }
    }
}

impl ProofView {
    /// The proof text, whatever its source.
    pub open spec fn text(self) -> Seq<char> {
        match self {
            ProofView::Pyth(p) => p,
            ProofView::Redstone(p) => p,
        }
    }
}

/// The models of a sequence of proofs.
pub open spec fn proof_views(v: Seq<ProofTypes>) -> Seq<ProofView> {
    Seq::new(v.len(), |i: int| v[i]@)
}

impl ProofTypes {
    /// The proof text, whatever its source.
    pub fn to_string(&self) -> (r: String)
        ensures
            r@ == self@.text(),
    {
        match self {
            ProofTypes::Pyth(value) => value.clone(),
            ProofTypes::Redstone(value) => value.clone(),
        }
    }

    /// A copy of the proof.
    pub fn duplicate(&self) -> (r: ProofTypes)
        ensures
            r@ == self@,
    {
        match self {
            ProofTypes::Pyth(value) => ProofTypes::Pyth(value.clone()),
            ProofTypes::Redstone(value) => ProofTypes::Redstone(value.clone()),
        }
    }
}

/// A copy of a list of proofs.
pub fn duplicate_proofs(proofs: &Vec<ProofTypes>) -> (r: Vec<ProofTypes>)
    ensures
        proof_views(r@) == proof_views(proofs@),
{
    let mut out: Vec<ProofTypes> = Vec::new();
    let mut i: usize = 0;
    while i < proofs.len()
        invariant
            i <= proofs.len(),
            out@.len() == i,
            forall|k: int| 0 <= k < i ==> out@[k]@ == proofs@[k]@,
        decreases proofs.len() - i,
    {
        out.push(proofs[i].duplicate());
        i = i + 1;
    }
    assert(proof_views(out@) =~= proof_views(proofs@));
    out
}

/// One side of a currency pair: a ticker and, once collected, the proofs of
/// its price.
#[derive(Debug)]
pub struct Token {
    pub ticker: String,
    pub proofs: Option<Vec<ProofTypes>>,
}

/// The model of a [`Token`].
pub struct TokenView {
    pub ticker: Seq<char>,
    pub proofs: Option<Seq<ProofView>>,
}

impl View for Token {
    type V = TokenView;

    open spec fn view(&self) -> TokenView {
        TokenView {
            ticker: self.ticker@,
            proofs: match self.proofs {
                Some(p) => Some(proof_views(p@)),
                None => None,
            },
        }
    }
}

impl Token {
    /// A token without proofs.
    pub fn new(ticker: String) -> (r: Token)
        ensures
            r@ == (TokenView { ticker: ticker@, proofs: None }),
    {
        Token { ticker, proofs: None }
    }

    /// A copy of the token.
    pub fn duplicate(&self) -> (r: Token)
        ensures
            r@ == self@,
    {
        let proofs = match &self.proofs {
            Some(p) => Some(duplicate_proofs(p)),
            None => None,
        };
        Token { ticker: self.ticker.clone(), proofs }
    }
}

/// Why a pair text is refused.
#[derive(Debug, PartialEq, Eq, Structural, Clone, Copy)]
pub enum PairError {
    /// The text has more than one `/`.
    InvalidPair,
}

impl PairError {
    /// The message of the error.
    pub fn message(&self) -> (r: String)
        ensures
            r@ == "invalid currency_pair"@,
    {
        "invalid currency_pair".to_owned()
    }
}

/// A currency pair `BASE` or `BASE/QUOTE`. `price` holds the consensus
/// value of the pair with the answers of the sources that it was taken from,
/// each as the bit pattern of an IEEE 754 double; the pipeline stores them
/// and never computes with them.
#[derive(Debug)]
pub struct CurrencyPair {
    pub base: Token,
    pub quote: Option<Token>,
    pub error: Option<String>,
    pub price: Option<InformationDetails>,
    pub repr: String,
}

/// The model of a [`CurrencyPair`].
pub struct PairView {
    pub base: TokenView,
    pub quote: Option<TokenView>,
    pub error: Option<Seq<char>>,
    pub price: Option<DetailsView>,
    pub repr: Seq<char>,
}

impl View for CurrencyPair {
    type V = PairView;

    open spec fn view(&self) -> PairView {
        PairView {
            base: self.base@,
            quote: match self.quote {
                Some(q) => Some(q@),
                None => None,
            },
            error: match self.error {
                Some(e) => Some(e@),
                None => None,
            },
            price: match self.price {
                Some(d) => Some(d@),
                None => None,
            },
            repr: self.repr@,
        }
    }
}

/// The models of a sequence of pairs.
pub open spec fn pair_views(v: Seq<CurrencyPair>) -> Seq<PairView> {
    Seq::new(v.len(), |i: int| v[i]@)
}

/// A fresh token model for a ticker text.
pub open spec fn fresh_token(ticker: Seq<char>) -> TokenView {
    TokenView { ticker: unicode_upper(ticker), proofs: None }
}

/// What a pair text parses to: the text is cut at `/`, more than two pieces
/// are refused, and each side is put in upper case.
pub open spec fn parse_pair(s: Seq<char>) -> Result<PairView, PairError> {
    let parts = split_on(s, '/');
    if parts.len() > 2 {
        Err(PairError::InvalidPair)
    } else {
        Ok(
            PairView {
                base: fresh_token(parts[0]),
                quote: if parts.len() == 2 {
                    Some(fresh_token(parts[1]))
                } else {
                    None
                },
                error: None,
                price: None,
                repr: unicode_upper(s),
            },
        )
    }
}

/// The text form of a pair: `BASE/QUOTE`, or `BASE` alone without a quote.
pub open spec fn pair_text(p: PairView) -> Seq<char> {
    match p.quote {
        Some(q) => p.base.ticker + seq!['/'] + q.ticker,
        None => p.base.ticker,
    }
}

/// The quote ticker of a pair, the reference currency where it names none.
pub open spec fn quote_or_default(p: PairView) -> Seq<char> {
    match p.quote {
        Some(q) => q.ticker,
        None => DEFAULT_BASE_CURRENCY@,
    }
}

/// What a malformed pair text is refused with, as text.
pub open spec fn invalid_pair_message() -> Seq<char> {
    "invalid currency_pair"@
}

/// The item that stands for a pair text in a response: the pair where the
/// text parses; else an item that carries the parse error, has no price and
/// no quote, and names the whole text as its base.
pub open spec fn pair_item(s: Seq<char>) -> PairView {
    match parse_pair(s) {
        Ok(p) => p,
        Err(_) => PairView {
            base: fresh_token(s),
            quote: None,
            error: Some(invalid_pair_message()),
            price: None,
            repr: unicode_upper(s),
        },
    }
}

/// The items of a list of pair texts: one for each text, in order.
pub open spec fn pair_items(texts: Seq<Seq<char>>) -> Seq<PairView> {
    Seq::new(texts.len(), |i: int| pair_item(texts[i]))
}

impl CurrencyPair {
    /// Parses `BASE` or `BASE/QUOTE`, in any case. More than one `/` is an
    /// error.
    pub fn try_from(currency_pair: String) -> (r: Result<CurrencyPair, PairError>)
        ensures
            match r {
                Ok(p) => parse_pair(currency_pair@) == Ok::<PairView, PairError>(p@),
                Err(e) => parse_pair(currency_pair@) == Err::<PairView, PairError>(e),
            },
    {
        let parts = split(currency_pair.as_str(), '/');
        if parts.len() > 2 {
            return Err(PairError::InvalidPair);
        }
        assert(views(parts@)[0] == parts@[0]@);
        let base = Token::new(to_uppercase(parts[0].as_str()));
        let quote = if parts.len() == 2 {
            assert(views(parts@)[1] == parts@[1]@);
            Some(Token::new(to_uppercase(parts[1].as_str())))
        } else {
            None
        };
        Ok(
            CurrencyPair {
                base,
                quote,
                error: None,
                price: None,
                repr: to_uppercase(currency_pair.as_str()),
            },
        )
    }

    /// The item that stands for a pair text in a response. A text that does
    /// not parse is not dropped: its item carries the parse error, which is
    /// final, and no price.
    pub fn item_for(currency_pair: String) -> (r: CurrencyPair)
        ensures
            r@ == pair_item(currency_pair@),
    {
        let upper = to_uppercase(currency_pair.as_str());
        match CurrencyPair::try_from(currency_pair) {
            Ok(pair) => pair,
            Err(e) => CurrencyPair {
                base: Token::new(upper.clone()),
                quote: None,
                error: Some(e.message()),
                price: None,
                repr: upper,
            },
        }
    }

    /// The pair as text: `BASE/QUOTE`, or `BASE` alone without a quote.
    pub fn to_string(&self) -> (r: String)
        ensures
            r@ == pair_text(self@),
    {
        let base = self.base.ticker.clone();
        match &self.quote {
            Some(q) => {
                let with_slash = base.concat("/");
                proof {
                    reveal_strlit("/");
                    assert("/"@ =~= seq!['/']);
                }
                with_slash.concat(q.ticker.as_str())
            },
            None => base,
        }
    }

    /// The quote ticker, the reference currency where the pair names none.
    pub fn quote_ticker(&self) -> (r: String)
        ensures
            r@ == quote_or_default(self@),
    {
        match &self.quote {
            Some(q) => q.ticker.clone(),
            None => DEFAULT_BASE_CURRENCY.to_owned(),
        }
    }

    /// The pair as `BASE/QUOTE` with the reference currency where it names
    /// no quote.
    pub fn with_default_quote(&self) -> (r: String)
        ensures
            r@ == self@.base.ticker + seq!['/'] + quote_or_default(self@),
    {
        let with_slash = self.base.ticker.clone().concat("/");
        proof {
            reveal_strlit("/");
            assert("/"@ =~= seq!['/']);
        }
        let quote = self.quote_ticker();
        with_slash.concat(quote.as_str())
    }

    /// A copy of the pair.
    pub fn duplicate(&self) -> (r: CurrencyPair)
        ensures
            r@ == self@,
    {
        let quote = match &self.quote {
            Some(q) => Some(q.duplicate()),
            None => None,
        };
        let error = match &self.error {
            Some(e) => Some(e.clone()),
            None => None,
        };
        let price = match &self.price {
            Some(d) => Some(d.duplicate()),
            None => None,
        };
        CurrencyPair { base: self.base.duplicate(), quote, error, price, repr: self.repr.clone() }
    }
}

/// A pair text with exactly one `/` parses to the text before it as base and
/// the text after it as quote, both in upper case.
pub proof fn law_one_slash_splits(s: Seq<char>)
    requires
        count_of(s, '/') == 1,
    ensures
        0 <= index_of(s, '/') < s.len(),
        parse_pair(s) is Ok,
        parse_pair(s)->Ok_0.base.ticker == unicode_upper(s.take(index_of(s, '/'))),
        parse_pair(s)->Ok_0.quote == Some(fresh_token(s.skip(index_of(s, '/') + 1))),
        quote_or_default(parse_pair(s)->Ok_0) == unicode_upper(s.skip(index_of(s, '/') + 1)),
{
    let i = index_of(s, '/');
    lemma_split_first(s, '/');
    let rest = s.skip(i + 1);
    lemma_split_first(rest, '/');
    assert(split_on(s, '/') =~= seq![s.take(i), rest]);
}

/// A pair text without `/` parses to the whole text as base, in upper case,
/// and no quote, so that its quote is the reference currency.
pub proof fn law_no_slash_defaults(s: Seq<char>)
    requires
        count_of(s, '/') == 0,
    ensures
        parse_pair(s) is Ok,
        parse_pair(s)->Ok_0.base.ticker == unicode_upper(s),
        parse_pair(s)->Ok_0.quote is None,
        quote_or_default(parse_pair(s)->Ok_0) == DEFAULT_BASE_CURRENCY@,
{
    lemma_split_first(s, '/');
}

/// A pair text with more than one `/` does not parse.
pub proof fn law_many_slashes_fail(s: Seq<char>)
    requires
        count_of(s, '/') > 1,
    ensures
        parse_pair(s) == Err::<PairView, PairError>(PairError::InvalidPair),
{
    lemma_split_len(s, '/');
}

/// A response has one item for each pair text of its request, in order. The
/// item of a text with more than one `/` carries the parse error and no
/// price; the item of any other text carries no error.
pub proof fn law_one_item_per_pair(texts: Seq<Seq<char>>, k: int)
    requires
        0 <= k < texts.len(),
    ensures
        pair_items(texts).len() == texts.len(),
        pair_items(texts)[k] == pair_item(texts[k]),
        count_of(texts[k], '/') > 1 ==> pair_items(texts)[k].error == Some(invalid_pair_message())
            && pair_items(texts)[k].price is None,
        count_of(texts[k], '/') <= 1 ==> pair_items(texts)[k] == parse_pair(texts[k])->Ok_0
            && pair_items(texts)[k].error is None && pair_items(texts)[k].price is None,
{
    lemma_split_len(texts[k], '/');
}

/// What a request asks for besides the pairs.
#[derive(Debug, Clone, Copy, PartialEq, Eq, Structural)]
pub struct RequestOpts {
    pub price: bool,
}

impl Default for RequestOpts {
    fn default() -> (r: RequestOpts)
        ensures
            r.price,
    {
        RequestOpts { price: true }
    }
}

/// A price request as the ledger program logs it.
#[derive(Debug)]
pub struct Request {
    pub id: String,
    pub owner: candid::Principal,
    pub pairs: Vec<String>,
    pub opts: RequestOpts,
}

/// The model of a [`Request`].
pub struct RequestView {
    pub id: Seq<char>,
    pub owner: candid::Principal,
    pub pairs: Seq<Seq<char>>,
    pub opts: RequestOpts,
}

impl View for Request {
    type V = RequestView;

    open spec fn view(&self) -> RequestView {
        RequestView { id: self.id@, owner: self.owner, pairs: views(self.pairs@), opts: self.opts }
    }
}

/// The pair texts of a comma-separated list: each piece trimmed and its ASCII
/// letters put in upper case.
pub open spec fn pair_list(s: Seq<char>) -> Seq<Seq<char>> {
    let pieces = split_on(s, ',');
    Seq::new(pieces.len(), |i: int| ascii_upper(trimmed(pieces[i])))
}

/// The pair texts of a comma-separated list such as `"BTC, eth/usdt"`: one
/// for each piece between commas, trimmed and with its ASCII letters in
/// upper case.
pub fn split_pairs(list: &str) -> (r: Vec<String>)
    ensures
        views(r@) == pair_list(list@),
        r@.len() == count_of(list@, ',') + 1,
{
    let pieces = split(list, ',');
    let mut pairs_list: Vec<String> = Vec::new();
    let mut i: usize = 0;
    while i < pieces.len()
        invariant
            i <= pieces.len(),
            views(pieces@) == split_on(list@, ','),
            pairs_list@.len() == i,
            forall|k: int| 0 <= k < i ==> pairs_list@[k]@ == pair_list(list@)[k],
        decreases pieces.len() - i,
    {
        assert(views(pieces@)[i as int] == pieces@[i as int]@);
        let piece = to_ascii_uppercase(trim(pieces[i].as_str()));
        pairs_list.push(piece);
        i = i + 1;
    }
    assert(views(pairs_list@) =~= pair_list(list@));
    pairs_list
}

impl Request {
    /// A request for the pairs of a comma-separated list such as
    /// `"BTC, eth/usdt"`.
    pub fn new(id: String, owner: candid::Principal, string_currency_pair: String, opts: RequestOpts) -> (r:
        Request)
        ensures
            r@ == (RequestView {
                id: id@,
                owner: owner,
                pairs: pair_list(string_currency_pair@),
                opts: opts,
            }),
            r.pairs@.len() == count_of(string_currency_pair@, ',') + 1,
    {
        let pairs_list = split_pairs(string_currency_pair.as_str());
        Request { id, owner, pairs: pairs_list, opts }
    }

    /// A copy of the request.
    pub fn duplicate(&self) -> (r: Request)
        ensures
            r@ == self@,
    {
        let mut pairs: Vec<String> = Vec::new();
        let mut i: usize = 0;
        while i < self.pairs.len()
            invariant
                i <= self.pairs.len(),
                pairs@.len() == i,
                forall|k: int| 0 <= k < i ==> pairs@[k]@ == self.pairs@[k]@,
            decreases self.pairs.len() - i,
        {
            pairs.push(self.pairs[i].clone());
            i = i + 1;
        }
        assert(views(pairs@) =~= views(self.pairs@));
        Request { id: self.id.clone(), owner: self.owner, pairs, opts: self.opts }
    }
}

/// The answer to a request whose pairs could be worked on.
#[derive(Debug)]
pub struct Response {
    pub id: String,
    pub owner: candid::Principal,
    pub pairs: Vec<CurrencyPair>,
    /// Whether the proofs of every pair have been looked for.
    pub processed: bool,
}

/// The model of a [`Response`].
pub struct ResponseView {
    pub id: Seq<char>,
    pub owner: candid::Principal,
    pub pairs: Seq<PairView>,
    pub processed: bool,
}

impl View for Response {
    type V = ResponseView;

    open spec fn view(&self) -> ResponseView {
        ResponseView {
            id: self.id@,
            owner: self.owner,
            pairs: pair_views(self.pairs@),
            processed: self.processed,
        }
    }
}

impl Response {
    /// The unprocessed response to a request: one item for each of its pair
    /// texts, in their order. A text that does not parse keeps its place as an
    /// item with the parse error.
    pub fn from(request: Request) -> (r: Response)
        ensures
            r@ == (ResponseView {
                id: request.id@,
                owner: request.owner,
                pairs: pair_items(request@.pairs),
                processed: false,
            }),
            r@.pairs.len() == request@.pairs.len(),
    {
        let mut pairs: Vec<CurrencyPair> = Vec::new();
        let mut i: usize = 0;
        let ghost texts = views(request.pairs@);
        while i < request.pairs.len()
            invariant
                i <= request.pairs.len(),
                texts == views(request.pairs@),
                pairs@.len() == i,
                forall|k: int| 0 <= k < i ==> pairs@[k]@ == pair_item(texts[k]),
            decreases request.pairs.len() - i,
        {
            assert(texts[i as int] == request.pairs@[i as int]@);
            pairs.push(CurrencyPair::item_for(request.pairs[i].clone()));
            i = i + 1;
        }
        assert(pair_views(pairs@) =~= pair_items(texts));
        Response { id: request.id, owner: request.owner, pairs, processed: false }
    }

    /// A copy of the response.
    pub fn duplicate(&self) -> (r: Response)
        ensures
            r@ == self@,
    {
        let mut pairs: Vec<CurrencyPair> = Vec::new();
        let mut i: usize = 0;
        while i < self.pairs.len()
            invariant
                i <= self.pairs.len(),
                pairs@.len() == i,
                forall|k: int| 0 <= k < i ==> pairs@[k]@ == self.pairs@[k]@,
            decreases self.pairs.len() - i,
        {
            pairs.push(self.pairs[i].duplicate());
            i = i + 1;
        }
        assert(pair_views(pairs@) =~= pair_views(self.pairs@));
        Response { id: self.id.clone(), owner: self.owner, pairs, processed: self.processed }
    }
}

/// The answer to a request that failed as a whole.
#[derive(Debug)]
pub struct ErrorResponse {
    pub id: String,
    pub owner: candid::Principal,
    pub message: String,
}

/// The model of an [`ErrorResponse`].
pub struct ErrorView {
    pub id: Seq<char>,
    pub owner: candid::Principal,
    pub message: Seq<char>,
}

impl View for ErrorResponse {
    type V = ErrorView;

    open spec fn view(&self) -> ErrorView {
        ErrorView { id: self.id@, owner: self.owner, message: self.message@ }
    }
}

impl ErrorResponse {
    /// An error answer for request `id` of `owner`.
    pub fn new(id: String, owner: candid::Principal, message: String) -> (r: ErrorResponse)
        ensures
            r@ == (ErrorView { id: id@, owner: owner, message: message@ }),
    {
        ErrorResponse { id, owner, message }
    }
}

/// What the pipeline reports for one price request.
pub type ADCResponse = Result<Response, ErrorResponse>;

/// The model of an [`ADCResponse`].
pub open spec fn answer_view(r: ADCResponse) -> Result<ResponseView, ErrorView> {
    match r {
        Ok(x) => Ok(x@),
        Err(e) => Err(e@),
    }
}

/// The request id that an answer is for.
pub open spec fn answer_id(r: Result<ResponseView, ErrorView>) -> Seq<char> {
    match r {
        Ok(x) => x.id,
        Err(e) => e.id,
    }
}

/// One header of a content request.
#[derive(Debug)]
pub struct Headers {
    pub key: String,
    pub value: String,
}

impl View for Headers {
    type V = (Seq<char>, Seq<char>);

    open spec fn view(&self) -> (Seq<char>, Seq<char>) {
        (self.key@, self.value@)
    }
}

/// The models of a sequence of headers.
pub open spec fn header_views(v: Seq<Headers>) -> Seq<(Seq<char>, Seq<char>)> {
    Seq::new(v.len(), |i: int| v[i]@)
}

/// A content request as the ledger program logs it: one HTTP exchange to
/// notarise.
#[derive(Debug)]
pub struct ProxyRequest {
    pub id: String,
    pub owner: candid::Principal,
    pub target_url: String,
    pub method: String,
    pub redacted: String,
    pub headers: Vec<Headers>,
    pub body: String,
}

/// The model of a [`ProxyRequest`].
pub struct ProxyView {
    pub id: Seq<char>,
    pub owner: candid::Principal,
    pub target_url: Seq<char>,
    pub method: Seq<char>,
    pub redacted: Seq<char>,
    pub headers: Seq<(Seq<char>, Seq<char>)>,
    pub body: Seq<char>,
}

impl View for ProxyRequest {
    type V = ProxyView;

    open spec fn view(&self) -> ProxyView {
        ProxyView {
            id: self.id@,
            owner: self.owner,
            target_url: self.target_url@,
            method: self.method@,
            redacted: self.redacted@,
            headers: header_views(self.headers@),
            body: self.body@,
        }
    }
}

/// The answer to a content request: the proofs of the exchange, forwarded
/// as they came.
#[derive(Debug)]
pub struct ResponseV2 {
    pub id: String,
    pub owner: candid::Principal,
    pub contents: Vec<String>,
    pub proof_requests: Vec<String>,
    pub processed: bool,
}

/// The model of a [`ResponseV2`].
pub struct ContentView {
    pub id: Seq<char>,
    pub owner: candid::Principal,
    pub contents: Seq<Seq<char>>,
    pub proof_requests: Seq<Seq<char>>,
    pub processed: bool,
}

impl View for ResponseV2 {
    type V = ContentView;

    open spec fn view(&self) -> ContentView {
        ContentView {
            id: self.id@,
            owner: self.owner,
            contents: views(self.contents@),
            proof_requests: views(self.proof_requests@),
            processed: self.processed,
        }
    }
}

/// What the pipeline reports for one content request.
pub type ADCResponseV2 = Result<ResponseV2, ErrorResponse>;

/// The model of an [`ADCResponseV2`].
pub open spec fn content_answer_view(r: ADCResponseV2) -> Result<ContentView, ErrorView> {
    match r {
        Ok(x) => Ok(x@),
        Err(e) => Err(e@),
    }
}

} // verus!

//! The oracle's program on the ledger: it logs requests, remembers which of
//! them wait for an answer, and takes each answer exactly once.
use vstd::prelude::*;
use crate::consensus::{DetailsView, InformationDetails};
use crate::hexcode::{encode, hex_text};
use crate::ledger::{submit_spec, CorrelationLedger, RejectReason, SubmitOutcome};
use crate::text::{count_of, decimal, decimal_text, views};
use crate::types::{
    answer_id, answer_view, pair_list, pair_views, ADCResponse, CurrencyPair, ErrorView, PairView,
    Request, RequestOpts, RequestView, Response, ResponseView,
};

verus! {

/// The most pairs that one request may name.
pub const REQUEST_CURRENCY_PAIR_LIMIT: usize = 10;

/// What the program remembers between calls.
#[derive(Debug)]
pub struct ProcessorState {
    buffer: CorrelationLedger,
    verifier_canister: Option<candid::Principal>,
    fee: u128,
}

impl ProcessorState {
    /// The ids of the requests that wait for an answer.
    pub closed spec fn waiting(&self) -> Set<Seq<char>> {
        self.buffer@
    }

    /// The verifier that proofs are checked with, if one is set.
    pub closed spec fn verifier_id(&self) -> Option<candid::Principal> {
        self.verifier_canister
    }

    /// The fee that a request has to bring.
    pub closed spec fn fee_spec(&self) -> u128 {
        self.fee
    }

    /// The state of a program that was just installed.
    pub fn new(verifier_canister: Option<candid::Principal>) -> (r: ProcessorState)
        ensures
            r.waiting() == Set::<Seq<char>>::empty(),
            r.verifier_id() == verifier_canister,
            r.fee_spec() == 0,
    {
        ProcessorState { buffer: CorrelationLedger::new(), verifier_canister, fee: 0 }
    }
}

/// The ids of the requests that wait for an answer, each once.
pub fn get_buffer(state: &ProcessorState) -> (r: Vec<String>)
    ensures
        forall|s: Seq<char>| views(r@).contains(s) <==> state.waiting().contains(s),
        views(r@).no_duplicates(),
{
    state.buffer.ids()
}

/// The set of the texts in a sequence.
pub open spec fn text_set(ids: Seq<Seq<char>>) -> Set<Seq<char>> {
    Set::new(|s: Seq<char>| ids.contains(s))
}

/// Makes the given ids the ones that wait for an answer, as after an
/// upgrade of the program.
pub fn set_buffer(state: &mut ProcessorState, buffer: Vec<String>)
    ensures
        final(state).waiting() == text_set(views(buffer@)),
        final(state).verifier_id() == old(state).verifier_id(),
        final(state).fee_spec() == old(state).fee_spec(),
{
    let mut ledger = CorrelationLedger::new();
    let ghost all = views(buffer@);
    for id in it: buffer
        invariant
            views(it.seq()) == all,
            ledger@ == text_set(all.take(it.index() as int)),
    {
        let ghost i = it.index() as int;
        let ghost before = ledger@;
        ledger.register(id);
        proof {
            assert(all[i] == id@);
            let prev = all.take(i);
            let next = all.take(i + 1);
            assert forall|s: Seq<char>| before.insert(id@).contains(s) <==> text_set(next).contains(
                s,
            ) by {
                if prev.contains(s) {
                    let k = choose|k: int| 0 <= k < prev.len() && prev[k] == s;
                    assert(next[k] == s);
                }
                if next.contains(s) {
                    let k = choose|k: int| 0 <= k < next.len() && next[k] == s;
                    if k < i {
                        assert(prev[k] == s);
                    }
                }
                if s == id@ {
                    assert(next[i] == s);
                }
            }
            assert(ledger@ =~= text_set(all.take(i + 1)));
        }
    }
    assert(all.take(all.len() as int) =~= all);
    state.buffer = ledger;
}

/// The verifier that proofs are checked with, if one is set.
pub fn get_verifier_canister(state: &ProcessorState) -> (r: Option<candid::Principal>)
    ensures
        r == state.verifier_id(),
{
    state.verifier_canister
}

/// The fee that a request has to bring.
pub fn get_transaction_fee(state: &ProcessorState) -> (r: u128)
    ensures
        r == state.fee_spec(),
{
    state.fee
}

/// Sets the verifier that proofs are checked with.
pub fn set_verifier_canister(state: &mut ProcessorState, new_verifier_canister: Option<candid::Principal>)
    ensures
        final(state).verifier_id() == new_verifier_canister,
        final(state).waiting() == old(state).waiting(),
        final(state).fee_spec() == old(state).fee_spec(),
{
    state.verifier_canister = new_verifier_canister;
}

/// Sets the fee that a request has to bring.
pub fn set_transaction_fee(state: &mut ProcessorState, new_fee: u128)
    ensures
        final(state).fee_spec() == new_fee,
        final(state).waiting() == old(state).waiting(),
        final(state).verifier_id() == old(state).verifier_id(),
{
    state.fee = new_fee;
}

/// Whether the cycles that came with a call cover the fee.
pub fn check_gas(state: &ProcessorState, accepted_cycles: u128) -> (r: bool)
    ensures
        r == (accepted_cycles >= state.fee_spec()),
{
    accepted_cycles >= state.fee
}

/// The id of a request made at `time` with the random bytes `random`: the
/// time in decimal, an underscore, and the first five hexadecimal digits of
/// the bytes; nothing behind the underscore where the bytes give fewer than
/// five digits.
pub open spec fn request_id_of(time: u64, random: Seq<u8>) -> Seq<char> {
    let hex = hex_text(random);
    decimal(time as nat) + seq!['_'] + if hex.len() >= 5 {
        hex.take(5)
    } else {
        Seq::<char>::empty()
    }
}

/// The id of a request made at `time` with the random bytes `random`.
pub fn generate_request_url(time: u64, random: &Vec<u8>) -> (r: String)
    ensures
        r@ == request_id_of(time, random@),
{
    let hex = encode(random);
    let start = decimal_text(time).concat("_");
    proof {
        reveal_strlit("_");
        assert("_"@ =~= seq!['_']);
    }
    if hex.as_str().unicode_len() >= 5 {
        let r = start.concat(hex.as_str().substring_char(0, 5));
        assert(hex@.subrange(0, 5) =~= hex@.take(5));
        r
    } else {
        assert(start@ + Seq::<char>::empty() =~= start@);
        start
    }
}

/// Why a request is not taken.
#[derive(Debug, Clone, Copy, PartialEq, Eq, Structural)]
pub enum RequestError {
    /// The program has no verifier to check proofs with.
    VerifierNotSet,
    /// The caller is not among those that may ask.
    NotWhitelisted,
    /// The request names more pairs than the limit.
    TooManyPairs,
}

/// What stands in the way of a request, if anything: the checks in the order
/// in which they are made.
pub open spec fn request_refusal(verifier_set: bool, whitelisted: bool, pairs: nat) -> Option<RequestError> {
    if !verifier_set {
        Some(RequestError::VerifierNotSet)
    } else if !whitelisted {
        Some(RequestError::NotWhitelisted)
    } else if pairs > REQUEST_CURRENCY_PAIR_LIMIT {
        Some(RequestError::TooManyPairs)
    } else {
        None
    }
}

/// Takes a request for the pairs of a comma-separated list. Where nothing
/// stands in its way, the request gets its id, waits from now on for its
/// answer, and is returned to be logged; else the state stays as it was.
pub fn request_data(
    state: &mut ProcessorState,
    caller: candid::Principal,
    whitelisted: bool,
    time: u64,
    random: &Vec<u8>,
    currency_pairs: String,
    opts: RequestOpts,
) -> (r: Result<Request, RequestError>)
    ensures
        final(state).verifier_id() == old(state).verifier_id(),
        final(state).fee_spec() == old(state).fee_spec(),
        match r {
            Ok(request) => {
                &&& request_refusal(
                    old(state).verifier_id() is Some,
                    whitelisted,
                    count_of(currency_pairs@, ',') + 1,
                ) is None
                &&& request@ == (RequestView {
                    id: request_id_of(time, random@),
                    owner: caller,
                    pairs: pair_list(currency_pairs@),
                    opts: opts,
                })
                &&& final(state).waiting() == old(state).waiting().insert(request_id_of(time, random@))
            },
            Err(e) => {
                &&& request_refusal(
                    old(state).verifier_id() is Some,
                    whitelisted,
                    count_of(currency_pairs@, ',') + 1,
                ) == Some(e)
                &&& final(state).waiting() == old(state).waiting()
            },
        },
{
    if state.verifier_canister.is_none() {
        return Err(RequestError::VerifierNotSet);
    }
    if !whitelisted {
        return Err(RequestError::NotWhitelisted);
    }
    let request_id = generate_request_url(time, random);
    let request = Request::new(request_id.clone(), caller, currency_pairs, opts);
    if request.pairs.len() > REQUEST_CURRENCY_PAIR_LIMIT {
        return Err(RequestError::TooManyPairs);
    }
    state.buffer.register(request_id);
    Ok(request)
}

/// What becomes of an answer from the pipeline: the checks in the order in
/// which they are made, then the ledger.
pub open spec fn receive_spec(
    waiting: Set<Seq<char>>,
    verifier_set: bool,
    caller_is_owner: bool,
    id: Seq<char>,
) -> (Set<Seq<char>>, SubmitOutcome) {
    if !verifier_set {
        (waiting, SubmitOutcome::Rejected(RejectReason::VerifierNotSet))
    } else if !caller_is_owner {
        (waiting, SubmitOutcome::Rejected(RejectReason::NotAuthorized))
    } else {
        submit_spec(waiting, id)
    }
}

/// Takes an answer from the pipeline. It is accepted, and its request
/// retired, where the program has a verifier, the sender is the owner and the
/// request waits; else it is rejected and nothing changes.
pub fn receive_orchestrator_response(
    state: &mut ProcessorState,
    caller_is_owner: bool,
    response: &ADCResponse,
) -> (r: SubmitOutcome)
    ensures
        (final(state).waiting(), r) == receive_spec(
            old(state).waiting(),
            old(state).verifier_id() is Some,
            caller_is_owner,
            answer_id(answer_view(*response)),
        ),
        final(state).verifier_id() == old(state).verifier_id(),
        final(state).fee_spec() == old(state).fee_spec(),
{
    if state.verifier_canister.is_none() {
        return SubmitOutcome::Rejected(RejectReason::VerifierNotSet);
    }
    if !caller_is_owner {
        return SubmitOutcome::Rejected(RejectReason::NotAuthorized);
    }
    match response {
        Ok(answer) => state.buffer.submit(&answer.id),
        Err(error) => state.buffer.submit(&error.id),
    }
}

/// Whether the bit pattern is that of a zero, positive or negative.
pub open spec fn is_zero_bits(bits: u64) -> bool {
    bits == 0 || bits == 0x8000_0000_0000_0000
}

/// How the price of a pair comes about.
#[derive(Debug)]
pub enum PricePlan {
    /// The pair has no quote: its price is the consensus of the base.
    Base(InformationDetails),
    /// The price is the value of the first divided by the value of the
    /// second, which is not zero.
    Divide(InformationDetails, InformationDetails),
    /// The pair has no price, for this reason.
    Failed(String),
}

/// The model of a [`PricePlan`].
pub enum PlanView {
    Base(DetailsView),
    Divide(DetailsView, DetailsView),
    Failed(Seq<char>),
}

impl View for PricePlan {
    type V = PlanView;

    open spec fn view(&self) -> PlanView {
        match self {
            PricePlan::Base(b) => PlanView::Base(b@),
            PricePlan::Divide(b, q) => PlanView::Divide(b@, q@),
            PricePlan::Failed(m) => PlanView::Failed(m@),
        }
    }
}

/// The message of a pair whose quote has the price zero.
pub open spec fn zero_quote_message() -> Seq<char> {
    "quote price is zero"@
}

/// How the price of a pair comes about from the consensus of its sides: a
/// side that failed fails the pair with its reason, the base first; a quote
/// of zero fails it; else the base stands alone or is divided by the quote.
pub open spec fn plan_of(
    base: Result<DetailsView, Seq<char>>,
    quote: Option<Result<DetailsView, Seq<char>>>,
) -> PlanView {
    match base {
        Err(e) => PlanView::Failed(e),
        Ok(b) => match quote {
            None => PlanView::Base(b),
            Some(Err(e)) => PlanView::Failed(e),
            Some(Ok(q)) => if is_zero_bits(q.value) {
                PlanView::Failed(zero_quote_message())
            } else {
                PlanView::Divide(b, q)
            },
        },
    }
}

/// The model of a consensus value or the reason for none.
pub open spec fn price_view(r: Result<InformationDetails, String>) -> Result<DetailsView, Seq<char>> {
    match r {
        Ok(d) => Ok(d@),
        Err(e) => Err(e@),
    }
}

/// The model of the consensus of a quote, where the pair has one.
pub open spec fn quote_view(q: Option<Result<InformationDetails, String>>) -> Option<
    Result<DetailsView, Seq<char>>,
> {
    match q {
        Some(r) => Some(price_view(r)),
        None => None,
    }
}

/// How the price of a pair comes about from the consensus of its base and,
/// where it has one, of its quote. A quote of zero is an error of the pair,
/// never a division.
pub fn get_currency_pair_price(
    base: Result<InformationDetails, String>,
    quote: Option<Result<InformationDetails, String>>,
) -> (r: PricePlan)
    ensures
        r@ == plan_of(price_view(base), quote_view(quote)),
{
    match base {
        Err(e) => PricePlan::Failed(e),
        Ok(b) => match quote {
            None => PricePlan::Base(b),
            Some(Err(e)) => PricePlan::Failed(e),
            Some(Ok(q)) => if q.value == 0 || q.value == 0x8000_0000_0000_0000 {
                PricePlan::Failed("quote price is zero".to_owned())
            } else {
                PricePlan::Divide(b, q)
            },
        },
    }
}

/// The consensus value of a pair with a quote, once the quotient has been
/// computed: the quotient, with the answers that entered the base followed
/// by those that entered the quote.
pub fn quotient_details(base: InformationDetails, quote: InformationDetails, quotient: u64) -> (r:
    InformationDetails)
    ensures
        r@ == (DetailsView { value: quotient, sources: base@.sources + quote@.sources }),
{
    let mut sources = base.sources;
    let mut rest = quote.sources;
    sources.append(&mut rest);
    InformationDetails::new(quotient, sources)
}

/// A pair with the outcome of its pricing written into it. A pair that
/// carries an error already stays as it is. Any other pair leaves with
/// exactly one of the two: the price and no error, or the error and no
/// price.
pub open spec fn priced(pair: PairView, outcome: Result<DetailsView, Seq<char>>) -> PairView {
    if pair.error is Some {
        pair
    } else {
        match outcome {
            Ok(details) => PairView { price: Some(details), ..pair },
            Err(e) => PairView { error: Some(e), price: None, ..pair },
        }
    }
}

/// Whether a pair is to be priced: only where it carries no error.
pub fn needs_price(pair: &CurrencyPair) -> (r: bool)
    ensures
        r == (pair@.error is None),
{
    pair.error.is_none()
}

/// Writes the outcome of its pricing into a pair. A pair that carries an
/// error already is not priced and stays as it is.
pub fn record_price(pair: CurrencyPair, outcome: Result<InformationDetails, String>) -> (r: CurrencyPair)
    ensures
        r@ == priced(pair@, price_view(outcome)),
{
    if pair.error.is_some() {
        return pair;
    }
    let mut pair = pair;
    match outcome {
        Ok(details) => {
            pair.price = Some(details);
        },
        Err(e) => {
            pair.error = Some(e);
            pair.price = None;
        },
    }
    pair
}

/// The error of a pair that was to be priced and for which no outcome was
/// handed in.
pub open spec fn unresolved_message() -> Seq<char> {
    "price was not resolved"@
}

/// The outcome of pricing the pair at place `k`: the entry at that place,
/// or the error of an unresolved pair where there is none.
pub open spec fn outcome_at(all: Seq<Option<Result<InformationDetails, String>>>, k: int) -> Result<
    DetailsView,
    Seq<char>,
> {
    if 0 <= k < all.len() && all[k] is Some {
        price_view(all[k]->Some_0)
    } else {
        Err(unresolved_message())
    }
}

/// The response that is forwarded to the requester for an accepted
/// response: the same id and owner, and the same pairs in the same order,
/// each with the outcome of its pricing.
pub open spec fn forwarded(
    response: ResponseView,
    outcomes: Seq<Option<Result<InformationDetails, String>>>,
) -> ResponseView {
    ResponseView {
        id: response.id,
        owner: response.owner,
        pairs: Seq::new(
            response.pairs.len(),
            |k: int| priced(response.pairs[k], outcome_at(outcomes, k)),
        ),
        processed: response.processed,
    }
}

/// What is forwarded to the requester for an accepted answer: an error
/// answer as it came, a response with its pairs priced.
pub open spec fn forwarded_answer(
    answer: Result<ResponseView, ErrorView>,
    outcomes: Seq<Option<Result<InformationDetails, String>>>,
) -> Result<ResponseView, ErrorView> {
    match answer {
        Ok(response) => Ok(forwarded(response, outcomes)),
        Err(error) => Err(error),
    }
}

fn outcome_for(outcomes: &Vec<Option<Result<InformationDetails, String>>>, k: usize) -> (r: Result<
    InformationDetails,
    String,
>)
    ensures
        price_view(r) == outcome_at(outcomes@, k as int),
{
    if k < outcomes.len() {
        match &outcomes[k] {
            Some(Ok(details)) => Ok(details.duplicate()),
            Some(Err(e)) => Err(e.clone()),
            None => Err("price was not resolved".to_owned()),
        }
    } else {
        Err("price was not resolved".to_owned())
    }
}

/// The response that is forwarded to the requester for an accepted
/// response. `outcomes` holds at place `k` what came of pricing the pair at
/// place `k`. A pair that arrived with an error is forwarded as it arrived,
/// whatever stands at its place; every other pair leaves with its price or
/// with its error, a pair without an outcome with the error of an
/// unresolved pair. One pair's failure touches no other pair.
pub fn forward_response(
    response: Response,
    outcomes: &Vec<Option<Result<InformationDetails, String>>>,
) -> (r: Response)
    ensures
        r@ == forwarded(response@, outcomes@),
        r@.pairs.len() == response@.pairs.len(),
{
    let Response { id, owner, pairs, processed } = response;
    let ghost old_pairs = pair_views(pairs@);
    let mut done: Vec<CurrencyPair> = Vec::new();
    for pair in it: pairs
        invariant
            pair_views(it.seq()) == old_pairs,
            done@.len() == it.index(),
            forall|k: int|
                0 <= k < done@.len() ==> done@[k]@ == priced(old_pairs[k], outcome_at(outcomes@, k)),
    {
        assert(old_pairs[it.index() as int] == pair@);
        let outcome = outcome_for(outcomes, done.len());
        done.push(record_price(pair, outcome));
    }
    let r = Response { id, owner, pairs: done, processed };
    assert(r@.pairs =~= forwarded(response@, outcomes@).pairs);
    r
}

/// What is forwarded to the requester for an accepted answer.
pub fn forward_answer(
    answer: ADCResponse,
    outcomes: &Vec<Option<Result<InformationDetails, String>>>,
) -> (r: ADCResponse)
    ensures
        answer_view(r) == forwarded_answer(answer_view(answer), outcomes@),
{
    match answer {
        Ok(response) => Ok(forward_response(response, outcomes)),
        Err(error) => Err(error),
    }
}

/// What is forwarded has the id, the owner and the number of pairs of what
/// was accepted. A pair that arrived with an error is forwarded as it
/// arrived; every other pair is forwarded with exactly one of price and
/// error, and with what it arrived with otherwise. The outcome at one place
/// decides the pair at that place alone.
pub proof fn law_forwarded_pairs(
    response: ResponseView,
    outcomes: Seq<Option<Result<InformationDetails, String>>>,
    k: int,
)
    requires
        0 <= k < response.pairs.len(),
    ensures
        forwarded(response, outcomes).id == response.id,
        forwarded(response, outcomes).owner == response.owner,
        forwarded(response, outcomes).pairs.len() == response.pairs.len(),
        response.pairs[k].error is Some ==> forwarded(response, outcomes).pairs[k]
            == response.pairs[k],
        response.pairs[k].error is None ==> (forwarded(response, outcomes).pairs[k].price is Some)
            != (forwarded(response, outcomes).pairs[k].error is Some),
        forwarded(response, outcomes).pairs[k].base == response.pairs[k].base,
        forwarded(response, outcomes).pairs[k].quote == response.pairs[k].quote,
        forwarded(response, outcomes).pairs[k].repr == response.pairs[k].repr,
        forwarded(response, outcomes).pairs[k] == priced(response.pairs[k], outcome_at(outcomes, k)),
{
}

} // verus!

//! The attested path: collecting the proofs of a pair's tokens from the
//! sources, and reading the HTTP body out of a proof once it is verified.
use vstd::prelude::*;
use crate::consensus::{quorum_met, successes, ConsensusError};
use crate::logs::EventLog;
use crate::text::{chars_of, find_text, occurs_at, views};
use crate::types::{
    answer_view, pair_items, pair_views, proof_views, ADCResponse, CurrencyPair, ErrorView, PairView,
    ProofTypes, ProofView, RequestView, Response, ResponseView, Token, TokenView,
};

verus! {

/// The fewest proofs that a token needs, unless configured otherwise.
pub const MINIMUM_PROOF_COUNT: usize = 1;

/// The models of the answers of the sources, a proof or none each.
pub open spec fn offered(v: Seq<Option<ProofTypes>>) -> Seq<Option<ProofView>> {
    Seq::new(
        v.len(),
        |i: int|
            match v[i] {
                Some(p) => Some(p@),
                None => None,
            },
    )
}

/// The proofs of a token under the quorum `minimum`: those that the sources
/// gave, in the order of the sources, where they are enough; else the quorum
/// failure.
pub open spec fn proofs_of(offers: Seq<Option<ProofView>>, minimum: nat) -> Result<
    Seq<ProofView>,
    ConsensusError,
> {
    let got = successes(offers);
    if quorum_met(got.len(), minimum) {
        Ok(got)
    } else {
        Err(ConsensusError::QuorumFailure)
    }
}

/// The proofs of a token from the answers of the sources, under the quorum
/// `minimum`: a source that failed is left out, and at least `minimum`, and
/// at least one, have to remain.
pub fn collect_proofs_with_quorum(offers: Vec<Option<ProofTypes>>, minimum: usize) -> (r: Result<
    Vec<ProofTypes>,
    ConsensusError,
>)
    ensures
        match r {
            Ok(v) => proofs_of(offered(offers@), minimum as nat) == Ok::<
                Seq<ProofView>,
                ConsensusError,
            >(proof_views(v@)),
            Err(e) => proofs_of(offered(offers@), minimum as nat) == Err::<
                Seq<ProofView>,
                ConsensusError,
            >(e),
        },
{
    let ghost all = offered(offers@);
    let mut got: Vec<ProofTypes> = Vec::new();
    for offer in it: offers
        invariant
            offered(it.seq()) == all,
            proof_views(got@) == successes(all.take(it.index() as int)),
    {
        let ghost i = it.index() as int;
        let ghost before = proof_views(got@);
        proof {
            assert(all.take(i + 1).drop_last() =~= all.take(i));
            assert(all.take(i + 1).last() == all[i]);
            assert(all[i] == offered(it.seq())[i]);
        }
        match offer {
            Some(p) => {
                got.push(p);
                assert(proof_views(got@) =~= before.push(p@));
            },
            None => {},
        }
    }
    assert(all.take(all.len() as int) =~= all);
    if got.len() >= minimum && got.len() > 0 {
        Ok(got)
    } else {
        Err(ConsensusError::QuorumFailure)
    }
}

/// The proofs of a token from the answers of the sources, under the default
/// quorum.
pub fn collect_proof_from_sources(offers: Vec<Option<ProofTypes>>) -> (r: Result<
    Vec<ProofTypes>,
    ConsensusError,
>)
    ensures
        match r {
            Ok(v) => proofs_of(offered(offers@), MINIMUM_PROOF_COUNT as nat) == Ok::<
                Seq<ProofView>,
                ConsensusError,
            >(proof_views(v@)),
            Err(e) => proofs_of(offered(offers@), MINIMUM_PROOF_COUNT as nat) == Err::<
                Seq<ProofView>,
                ConsensusError,
            >(e),
        },
{
    collect_proofs_with_quorum(offers, MINIMUM_PROOF_COUNT)
}

/// The model of the proofs collected for a token, or the reason for none.
pub open spec fn collected(r: Result<Vec<ProofTypes>, String>) -> Result<Seq<ProofView>, Seq<char>> {
    match r {
        Ok(v) => Ok(proof_views(v@)),
        Err(e) => Err(e@),
    }
}

/// The model of the proofs collected for a quote, where they were looked
/// for.
pub open spec fn collected_quote(q: Option<Result<Vec<ProofTypes>, String>>) -> Option<
    Result<Seq<ProofView>, Seq<char>>,
> {
    match q {
        Some(r) => Some(collected(r)),
        None => None,
    }
}

/// A pair with the proofs of its tokens written into it. A pair that carries
/// an error already stays as it is: its error is final. Where the proofs of
/// the base failed, the pair takes that error and its quote is left alone;
/// else the base gets its proofs, and the quote, if the pair has one and its
/// proofs were looked for, gets its proofs or gives the pair its error.
pub open spec fn with_proofs(
    pair: PairView,
    base: Result<Seq<ProofView>, Seq<char>>,
    quote: Option<Result<Seq<ProofView>, Seq<char>>>,
) -> PairView {
    if pair.error is Some {
        pair
    } else {
        match base {
            Err(e) => PairView { error: Some(e), ..pair },
            Ok(b) => {
                let based = PairView { base: TokenView { proofs: Some(b), ..pair.base }, ..pair };
                match (pair.quote, quote) {
                    (Some(q), Some(Ok(p))) => PairView {
                        quote: Some(TokenView { ticker: q.ticker, proofs: Some(p) }),
                        ..based
                    },
                    (Some(_), Some(Err(e))) => PairView { error: Some(e), ..based },
                    _ => based,
                }
            },
        }
    }
}

/// Whether the proofs of a pair's base are to be looked for: only where the
/// request asks for prices and the pair carries no error.
pub fn needs_proofs(wants_prices: bool, pair: &CurrencyPair) -> (r: bool)
    ensures
        r == (wants_prices && pair@.error is None),
{
    wants_prices && pair.error.is_none()
}

/// Whether the proofs of a pair's quote are to be looked for, given what
/// came of the base: only where the pair has a quote and the base has its
/// proofs.
pub fn needs_quote_proofs(pair: &CurrencyPair, base_failed: bool) -> (r: bool)
    ensures
        r == (pair@.quote is Some && !base_failed),
{
    pair.quote.is_some() && !base_failed
}

/// Writes the proofs of its tokens into a pair.
pub fn fetch_proofs(
    pair: CurrencyPair,
    base: Result<Vec<ProofTypes>, String>,
    quote: Option<Result<Vec<ProofTypes>, String>>,
) -> (r: CurrencyPair)
    ensures
        r@ == with_proofs(pair@, collected(base), collected_quote(quote)),
{
    if pair.error.is_some() {
        return pair;
    }
    let mut pair = pair;
    match base {
        Err(e) => {
            pair.error = Some(e);
            pair
        },
        Ok(b) => {
            pair.base.proofs = Some(b);
            let CurrencyPair { base: base_token, quote: quote_token, error, price, repr } = pair;
            match (quote_token, quote) {
                (Some(q), Some(Ok(p))) => CurrencyPair {
                    base: base_token,
                    quote: Some(Token { ticker: q.ticker, proofs: Some(p) }),
                    error,
                    price,
                    repr,
                },
                (Some(q), Some(Err(e))) => CurrencyPair {
                    base: base_token,
                    quote: Some(q),
                    error: Some(e),
                    price,
                    repr,
                },
                (quote_token, _) => CurrencyPair { base: base_token, quote: quote_token, error, price, repr },
            }
        },
    }
}

/// What came of collecting the proofs of one pair: those of its base, and
/// those of its quote where they were looked for.
#[derive(Debug)]
pub struct PairProofs {
    pub base: Result<Vec<ProofTypes>, String>,
    pub quote: Option<Result<Vec<ProofTypes>, String>>,
}

/// A pair with what was collected for it written into it; the pair as it is
/// where nothing was collected.
pub open spec fn with_collected(pair: PairView, found: Option<PairProofs>) -> PairView {
    match found {
        Some(p) => with_proofs(pair, collected(p.base), collected_quote(p.quote)),
        None => pair,
    }
}

/// What was collected for the pair at place `k`; nothing where the list
/// does not reach that far.
pub open spec fn collected_at(all: Seq<Option<PairProofs>>, k: int) -> Option<PairProofs> {
    if 0 <= k < all.len() {
        all[k]
    } else {
        None
    }
}

/// A response after the proofs of its pairs were looked for: marked as
/// processed, with the same pairs in the same order, each with what was
/// collected for it.
pub open spec fn processed_view(response: ResponseView, all: Seq<Option<PairProofs>>) -> ResponseView {
    ResponseView {
        id: response.id,
        owner: response.owner,
        pairs: Seq::new(
            response.pairs.len(),
            |k: int| with_collected(response.pairs[k], collected_at(all, k)),
        ),
        processed: true,
    }
}

fn attach(pair: CurrencyPair, found: Option<PairProofs>) -> (r: CurrencyPair)
    ensures
        r@ == with_collected(pair@, found),
{
    match found {
        Some(p) => fetch_proofs(pair, p.base, p.quote),
        None => pair,
    }
}

/// Writes into each pair of a response what was collected for it, the entry
/// at place `k` for the pair at place `k`, and marks the response as
/// processed. No pair is dropped or moved; a pair without an entry, or with
/// an error of its own, stays as it is.
pub fn process_proofs(response: Response, found: Vec<Option<PairProofs>>) -> (r: Response)
    ensures
        r@ == processed_view(response@, found@),
        r@.pairs.len() == response@.pairs.len(),
{
    let Response { id, owner, pairs, processed: _ } = response;
    let ghost old_pairs = pair_views(pairs@);
    let ghost all = found@;
    let mut found = found;
    let mut done: Vec<CurrencyPair> = Vec::new();
    for pair in it: pairs
        invariant
            pair_views(it.seq()) == old_pairs,
            forall|j: int| 0 <= j ==> collected_at(found@, j) == collected_at(all, it.index() + j),
            done@.len() == it.index(),
            forall|k: int|
                0 <= k < done@.len() ==> done@[k]@ == with_collected(old_pairs[k], collected_at(all, k)),
    {
        let ghost i = it.index() as int;
        let ghost before = found@;
        assert(old_pairs[i] == pair@);
        assert(collected_at(before, 0) == collected_at(all, i));
        let entry = if found.len() > 0 {
            found.remove(0)
        } else {
            None
        };
        assert forall|j: int| 0 <= j implies collected_at(found@, j) == collected_at(all, i + 1 + j) by {
            assert(collected_at(before, j + 1) == collected_at(all, i + (j + 1)));
        }
        done.push(attach(pair, entry));
    }
    let r = Response { id, owner, pairs: done, processed: true };
    assert(r@.pairs =~= processed_view(response@, all).pairs);
    r
}

/// The response that a logged request begins with: one item for each of its
/// pair texts, none yet processed.
pub open spec fn begun(request: RequestView) -> ResponseView {
    ResponseView {
        id: request.id,
        owner: request.owner,
        pairs: pair_items(request.pairs),
        processed: false,
    }
}

/// What was collected for the request at place `i` of a batch; nothing where
/// the list does not reach that far.
pub open spec fn batch_at(all: Seq<Vec<Option<PairProofs>>>, i: int) -> Seq<Option<PairProofs>> {
    if 0 <= i < all.len() {
        all[i]@
    } else {
        Seq::empty()
    }
}

/// The answer to the request at place `i` of a batch.
pub open spec fn pricing_answer(request: RequestView, found: Seq<Option<PairProofs>>) -> Result<
    ResponseView,
    ErrorView,
> {
    Ok(processed_view(begun(request), found))
}

/// The answers to the price requests of a batch: exactly one for each
/// request, in the order of the batch, with the id and the owner of its
/// request and one item for each of its pair texts. `found` holds for
/// request `i` and pair `k` what was collected for that pair; a pair for
/// which nothing was collected, as in a request that asks for no prices,
/// leaves as it was parsed.
pub fn fetch_pricing_data(event_logs: &Vec<EventLog>, found: Vec<Vec<Option<PairProofs>>>) -> (r: Vec<
    ADCResponse,
>)
    ensures
        r@.len() == event_logs@.len(),
        forall|i: int|
            0 <= i < r@.len() ==> answer_view(#[trigger] r@[i]) == pricing_answer(
                event_logs@[i].logs@,
                batch_at(found@, i),
            ),
{
    let ghost all = found@;
    let mut found = found;
    let mut out: Vec<ADCResponse> = Vec::new();
    let mut i: usize = 0;
    while i < event_logs.len()
        invariant
            i <= event_logs@.len(),
            out@.len() == i,
            forall|j: int| 0 <= j ==> batch_at(found@, j) == batch_at(all, i + j),
            forall|k: int|
                0 <= k < i ==> answer_view(#[trigger] out@[k]) == pricing_answer(
                    event_logs@[k].logs@,
                    batch_at(all, k),
                ),
        decreases event_logs.len() - i,
    {
        let ghost before = found@;
        assert(batch_at(before, 0) == batch_at(all, i as int));
        let entry = if found.len() > 0 {
            found.remove(0)
        } else {
            Vec::new()
        };
        assert forall|j: int| 0 <= j implies batch_at(found@, j) == batch_at(all, i + 1 + j) by {
            assert(batch_at(before, j + 1) == batch_at(all, i + (j + 1)));
        }
        let response = Response::from(event_logs[i].logs.duplicate());
        out.push(Ok(process_proofs(response, entry)));
        i = i + 1;
    }
    out
}

/// Every request of a batch gets exactly one answer, which carries its id
/// and its owner and has one item for each of its pair texts, whatever the
/// sources did: a failing source or a malformed pair text changes an item,
/// never the number of answers or items.
pub proof fn law_one_answer_per_request(request: RequestView, found: Seq<Option<PairProofs>>)
    ensures
        pricing_answer(request, found) is Ok,
        pricing_answer(request, found)->Ok_0.id == request.id,
        pricing_answer(request, found)->Ok_0.owner == request.owner,
        pricing_answer(request, found)->Ok_0.pairs.len() == request.pairs.len(),
{
}

/// The error of a pair is final: once a pair carries one, collecting proofs
/// changes nothing of it.
pub proof fn law_pair_error_is_final(pair: PairView, found: Option<PairProofs>)
    requires
        pair.error is Some,
    ensures
        with_collected(pair, found) == pair,
{
}

/// The first position at or after `from` where `sep` stands in `s`.
#[verifier::opaque]
pub open spec fn first_from(s: Seq<char>, sep: Seq<char>, from: int) -> Option<int> {
    if exists|i: int| from <= i && occurs_at(s, sep, i) {
        Some(
            choose|i: int|
                from <= i && occurs_at(s, sep, i) && forall|j: int|
                    from <= j < i ==> !occurs_at(s, sep, j),
        )
    } else {
        None
    }
}

/// The second of the pieces that `sep` cuts `s` into: what stands between
/// the first `sep` and the next one behind it, or the end. `None` where `s`
/// holds no `sep`.
pub open spec fn second_piece(s: Seq<char>, sep: Seq<char>) -> Option<Seq<char>> {
    match first_from(s, sep, 0) {
        None => None,
        Some(i) => {
            let start = i + sep.len();
            match first_from(s, sep, start) {
                Some(j) => Some(s.subrange(start, j)),
                None => Some(s.skip(start)),
            }
        },
    }
}

/// An empty line, as it parts a proof's request from its response.
pub open spec fn blank_line() -> Seq<char> {
    seq!['\n', '\n']
}

/// An empty line with carriage returns, as it parts the head of an HTTP
/// response from its body.
pub open spec fn http_blank_line() -> Seq<char> {
    seq!['\r', '\n', '\r', '\n']
}

/// The HTTP body in the text of a full proof: the second part of the text
/// as empty lines cut it is the response, and the second part of that as
/// `\r\n\r\n` cuts it is the body. `None` where either cut finds nothing.
pub open spec fn body_of(text: Seq<char>) -> Option<Seq<char>> {
    match second_piece(text, blank_line()) {
        None => None,
        Some(response) => second_piece(response, http_blank_line()),
    }
}

/// A position that holds the first `sep` at or after `from` is
/// `first_from`; where there is no such position, `first_from` is `None`.
pub proof fn lemma_first_from(s: Seq<char>, sep: Seq<char>, from: int, found: Option<int>)
    requires
        match found {
            Some(i) => from <= i && occurs_at(s, sep, i) && forall|j: int|
                from <= j < i ==> !occurs_at(s, sep, j),
            None => forall|j: int| from <= j ==> !occurs_at(s, sep, j),
        },
    ensures
        first_from(s, sep, from) == found,
{
    reveal(first_from);
    match found {
        Some(i) => {
            let c = choose|c: int|
                from <= c && occurs_at(s, sep, c) && forall|j: int|
                    from <= j < c ==> !occurs_at(s, sep, j);
            if c < i {
                assert(!occurs_at(s, sep, c));
            } else if i < c {
                assert(!occurs_at(s, sep, i));
            }
        },
        None => {},
    }
}

/// Where the second piece of `s` lies: its first and its one-past-last
/// position.
pub fn second_piece_bounds(s: &Vec<char>, sep: &Vec<char>) -> (r: Option<(usize, usize)>)
    ensures
        match r {
            Some((a, b)) => a <= b <= s@.len() && second_piece(s@, sep@) == Some(
                s@.subrange(a as int, b as int),
            ),
            None => second_piece(s@, sep@) is None,
        },
{
    let first = find_text(s, sep, 0);
    proof {
        lemma_first_from(
            s@,
            sep@,
            0,
            match first {
                Some(i) => Some(i as int),
                None => None,
            },
        );
    }
    match first {
        None => None,
        Some(i) => {
            let n = s.len();
            assert(occurs_at(s@, sep@, i as int) && i + sep@.len() <= n);
            let start = i + sep.len();
            let next = find_text(s, sep, start);
            proof {
                lemma_first_from(
                    s@,
                    sep@,
                    start as int,
                    match next {
                        Some(j) => Some(j as int),
                        None => None,
                    },
                );
            }
            match next {
                Some(j) => Some((start, j)),
                None => {
                    assert(s@.skip(start as int) =~= s@.subrange(start as int, s@.len() as int));
                    Some((start, s.len()))
                },
            }
        },
    }
}

fn copy_range(s: &Vec<char>, a: usize, b: usize) -> (r: Vec<char>)
    requires
        a <= b <= s@.len(),
    ensures
        r@ == s@.subrange(a as int, b as int),
{
    let mut out: Vec<char> = Vec::new();
    let mut i: usize = a;
    while i < b
        invariant
            a <= i <= b <= s@.len(),
            out@ == s@.subrange(a as int, i as int),
        decreases b - i,
    {
        out.push(s[i]);
        i = i + 1;
        assert(out@ =~= s@.subrange(a as int, i as int));
    }
    out
}

fn blank_line_chars() -> (r: Vec<char>)
    ensures
        r@ == blank_line(),
{
    let mut blank: Vec<char> = Vec::new();
    blank.push('\n');
    blank.push('\n');
    assert(blank@ =~= blank_line());
    blank
}

fn http_blank_line_chars() -> (r: Vec<char>)
    ensures
        r@ == http_blank_line(),
{
    let mut blank: Vec<char> = Vec::new();
    blank.push('\r');
    blank.push('\n');
    blank.push('\r');
    blank.push('\n');
    assert(blank@ =~= http_blank_line());
    blank
}

/// Whether the text of a full proof holds an HTTP body.
pub fn has_http_body(text: &str) -> (r: bool)
    ensures
        r == (body_of(text@) is Some),
{
    let chars = chars_of(text);
    let blank = blank_line_chars();
    match second_piece_bounds(&chars, &blank) {
        None => false,
        Some((a, b)) => {
            let response = copy_range(&chars, a, b);
            let http_blank = http_blank_line_chars();
            let bounds = second_piece_bounds(&response, &http_blank);
            assert(body_of(text@) == second_piece(response@, http_blank_line()));
            bounds.is_some()
        },
    }
}

/// The HTTP body in the text of a full proof. Wraps
/// `verity_ic::verify::types::ProofResponse::get_http_response_body` on a
/// `FullProof`: it cuts the text at empty lines and takes the second part,
/// cuts that at `\r\n\r\n` and returns the second part again, and panics
/// where a second part is missing, which `requires` rules out.
#[verifier::external_body]
pub(crate) fn full_proof_body(text: &str) -> (r: String)
    requires
        body_of(text@) is Some,
    ensures
        r@ == body_of(text@)->Some_0,
{
    verity_ic::verify::types::ProofResponse::FullProof(text.to_owned()).get_http_response_body()
}

/// What the verifier made of one proof.
#[derive(Debug)]
pub enum ProofResponse {
    /// The proof of a session: a hash, without the exchange itself.
    SessionProof(String),
    /// The full proof: the request and the response as they went over the
    /// wire.
    FullProof(String),
}

/// The HTTP body that a verified proof shows, if it shows one: only a full
/// proof does, and only where its text has the response and the body in
/// their places.
pub open spec fn shown_body(proof_response: ProofResponse) -> Option<Seq<char>> {
    match proof_response {
        ProofResponse::SessionProof(_) => None,
        ProofResponse::FullProof(text) => body_of(text@),
    }
}

/// The HTTP body that a verified proof shows, if it shows one.
pub fn get_http_response_body(proof_response: &ProofResponse) -> (r: Option<String>)
    ensures
        r is Some <==> shown_body(*proof_response) is Some,
        r is Some ==> r->Some_0@ == shown_body(*proof_response)->Some_0,
{
    match proof_response {
        ProofResponse::SessionProof(_) => None,
        ProofResponse::FullProof(text) => {
            if has_http_body(text.as_str()) {
                Some(full_proof_body(text.as_str()))
            } else {
                None
            }
        },
    }
}

/// The texts of a list of proofs, in order.
pub open spec fn proof_texts(proofs: Seq<ProofView>) -> Seq<Seq<char>> {
    Seq::new(proofs.len(), |i: int| proofs[i].text())
}

/// The texts of the proofs, in order, as they are handed to the verifier.
pub fn get_proof_response(proof_types: &Vec<ProofTypes>) -> (r: Vec<String>)
    ensures
        views(r@) == proof_texts(proof_views(proof_types@)),
{
    let mut out: Vec<String> = Vec::new();
    let mut i: usize = 0;
    while i < proof_types.len()
        invariant
            i <= proof_types.len(),
            out@.len() == i,
            forall|k: int| 0 <= k < i ==> out@[k]@ == proof_types@[k]@.text(),
        decreases proof_types.len() - i,
    {
        out.push(proof_types[i].to_string());
        i = i + 1;
    }
    assert(views(out@) =~= proof_texts(proof_views(proof_types@)));
    out
}

} // verus!

//! A program on the ledger that asks the oracle for data: its settings, the
//! answers it has received, and how it shapes its own HTTP calls.
use vstd::prelude::*;
use crate::proofs::{body_of, full_proof_body, has_http_body};
use crate::store::TextMap;
use crate::text::{text_of_bytes, to_uppercase, unicode_upper, views};
use crate::types::{header_views, Headers, ResponseV2};

verus! {

/// What the calling program remembers between calls.
#[derive(Debug)]
pub struct CallerState {
    adc_address: Option<candid::Principal>,
    fee: u128,
    requests: TextMap,
}

impl CallerState {
    /// The oracle that requests go to, if one is set.
    pub closed spec fn address(&self) -> Option<candid::Principal> {
        self.adc_address
    }

    /// The fee attached to each request.
    pub closed spec fn fee_spec(&self) -> u128 {
        self.fee
    }

    /// The answers received, by request id.
    pub closed spec fn answers(&self) -> Map<Seq<char>, Seq<char>> {
        self.requests@
    }

    /// The state of a program that was just installed: the given oracle, the
    /// given fee and no answers.
    pub fn new(adc_address: Option<candid::Principal>, fee: u128) -> (r: CallerState)
        ensures
            r.address() == adc_address,
            r.fee_spec() == fee,
            r.answers() == Map::<Seq<char>, Seq<char>>::empty(),
    {
        CallerState { adc_address, fee, requests: TextMap::new() }
    }
}

/// The fee that a fresh installation attaches to each request.
pub const INITIAL_FEE: u128 = 2_000_000_000;

/// The oracle that requests go to, if one is set.
pub fn get_adc_address(state: &CallerState) -> (r: Option<candid::Principal>)
    ensures
        r == state.address(),
{
    state.adc_address
}

/// The fee attached to each request.
pub fn get_transaction_fee(state: &CallerState) -> (r: u128)
    ensures
        r == state.fee_spec(),
{
    state.fee
}

/// Sets the oracle that requests go to.
pub fn set_adc_address(state: &mut CallerState, new_adc_address: Option<candid::Principal>)
    ensures
        final(state).address() == new_adc_address,
        final(state).fee_spec() == old(state).fee_spec(),
        final(state).answers() == old(state).answers(),
{
    state.adc_address = new_adc_address;
}

/// Sets the fee attached to each request.
pub fn set_transaction_fee(state: &mut CallerState, new_fee: u128)
    ensures
        final(state).fee_spec() == new_fee,
        final(state).address() == old(state).address(),
        final(state).answers() == old(state).answers(),
{
    state.fee = new_fee;
}

/// The answer received for request `key`, if there is one.
pub fn get_request_value(state: &CallerState, key: &str) -> (r: Option<String>)
    ensures
        match r {
            Some(v) => state.answers().dom().contains(key@) && state.answers()[key@] == v@,
            None => !state.answers().dom().contains(key@),
        },
{
    state.requests.get(key)
}

/// Stores the answer for request `key`, in place of an earlier one.
pub fn set_request_value(state: &mut CallerState, key: &str, value: String)
    ensures
        final(state).answers() == old(state).answers().insert(key@, value@),
        final(state).address() == old(state).address(),
        final(state).fee_spec() == old(state).fee_spec(),
{
    state.requests.insert(key, value);
}

/// The HTTP method of a call.
#[derive(Debug, Clone, Copy, PartialEq, Eq, Structural)]
pub enum HttpMethod {
    Get,
    Post,
}

/// The method of an outgoing call: `POST` where the text says so in any
/// case, else `GET`.
pub open spec fn outcall_method_of(method: Seq<char>) -> HttpMethod {
    if unicode_upper(method) == "POST"@ {
        HttpMethod::Post
    } else {
        HttpMethod::Get
    }
}

/// The method of an outgoing call: `POST` where the text says so in any
/// case, else `GET`.
pub fn outcall_method(method: &str) -> (r: HttpMethod)
    ensures
        r == outcall_method_of(method@),
{
    let upper = to_uppercase(method);
    if upper == "POST".to_owned() {
        HttpMethod::Post
    } else {
        HttpMethod::Get
    }
}

/// The headers that every transformed response carries, as name and value.
pub open spec fn security_headers() -> Seq<(Seq<char>, Seq<char>)> {
    seq![
        ("Content-Security-Policy"@, "default-src 'self'"@),
        ("Referrer-Policy"@, "strict-origin"@),
        ("Permissions-Policy"@, "geolocation=(self)"@),
        ("Strict-Transport-Security"@, "max-age=63072000"@),
        ("X-Frame-Options"@, "DENY"@),
        ("X-Content-Type-Options"@, "nosniff"@),
    ]
}

fn header(key: &str, value: &str) -> (r: Headers)
    ensures
        r@ == (key@, value@),
{
    Headers { key: key.to_owned(), value: value.to_owned() }
}

/// What an HTTP call returned. The status is carried as it came, in
/// whatever form the ledger gives it.
#[derive(Debug)]
pub struct HttpReply<S> {
    pub status: S,
    pub headers: Vec<Headers>,
    pub body: Vec<u8>,
}

/// Strips a response of everything but status and body, and gives it the
/// fixed security headers, so that every replica sees the same response.
pub fn transform<S>(raw: HttpReply<S>) -> (r: HttpReply<S>)
    ensures
        r.status == raw.status,
        r.body@ == raw.body@,
        header_views(r.headers@) == security_headers(),
{
    let mut headers: Vec<Headers> = Vec::new();
    headers.push(header("Content-Security-Policy", "default-src 'self'"));
    headers.push(header("Referrer-Policy", "strict-origin"));
    headers.push(header("Permissions-Policy", "geolocation=(self)"));
    headers.push(header("Strict-Transport-Security", "max-age=63072000"));
    headers.push(header("X-Frame-Options", "DENY"));
    headers.push(header("X-Content-Type-Options", "nosniff"));
    assert(header_views(headers@) =~= security_headers());
    HttpReply { status: raw.status, headers, body: raw.body }
}

/// How an outgoing call ended.
#[derive(Debug)]
pub enum OutcallResult {
    /// The call returned a response with this body.
    Reply(Vec<u8>),
    /// The call was rejected, with the code as `{:?}` shows it and a message.
    Rejected(String, String),
}

/// The text that `send_http_request` hands back for a rejected call.
pub open spec fn rejection_text(code: Seq<char>, message: Seq<char>) -> Seq<char> {
    "The http_request resulted into error. RejectionCode: "@ + code + ", Error: "@ + message
}

/// What `send_http_request` hands back: the body of the response as text,
/// or a sentence on the rejection. `None` where the body is not UTF-8.
pub fn outcall_text(result: OutcallResult) -> (r: Option<String>)
    ensures
        match result {
            OutcallResult::Reply(body) => (r is Some <==> vstd::utf8::valid_utf8(body@)) && (r is Some
                ==> r->Some_0@ == vstd::utf8::decode_utf8(body@)),
            OutcallResult::Rejected(code, message) => r is Some && r->Some_0@ == rejection_text(
                code@,
                message@,
            ),
        },
{
    match result {
        OutcallResult::Reply(body) => text_of_bytes(body),
        OutcallResult::Rejected(code, message) => {
            let start = "The http_request resulted into error. RejectionCode: ".to_owned();
            let with_code = start.concat(code.as_str());
            let with_sep = with_code.concat(", Error: ");
            Some(with_sep.concat(message.as_str()))
        },
    }
}

/// Whether each of the texts is a full proof that shows an HTTP body.
pub open spec fn all_show_bodies(contents: Seq<Seq<char>>) -> bool {
    forall|i: int| 0 <= i < contents.len() ==> (#[trigger] body_of(contents[i])) is Some
}

/// The answers after the bodies of the first `n` contents were stored under
/// `id`, each in place of the one before.
pub open spec fn stored_bodies(
    answers: Map<Seq<char>, Seq<char>>,
    id: Seq<char>,
    contents: Seq<Seq<char>>,
    n: int,
) -> Map<Seq<char>, Seq<char>>
    decreases n,
{
    if n <= 0 {
        answers
    } else {
        stored_bodies(answers, id, contents, n - 1).insert(id, body_of(contents[n - 1])->Some_0)
    }
}

fn all_have_bodies(contents: &Vec<String>) -> (r: bool)
    ensures
        r == all_show_bodies(views(contents@)),
{
    let mut i: usize = 0;
    while i < contents.len()
        invariant
            i <= contents@.len(),
            forall|k: int| 0 <= k < i ==> (#[trigger] body_of(views(contents@)[k])) is Some,
        decreases contents.len() - i,
    {
        assert(views(contents@)[i as int] == contents@[i as int]@);
        if !has_http_body(contents[i].as_str()) {
            return false;
        }
        i = i + 1;
    }
    true
}

/// Takes the answer to a content request: the HTTP body that each of its
/// contents shows is stored under the id of the request, a later one in
/// place of an earlier one. Where one of the contents shows no body the
/// answer is refused as a whole, and nothing is stored.
pub fn receive_adc_response_v2(state: &mut CallerState, response: &ResponseV2) -> (r: bool)
    ensures
        r == all_show_bodies(response@.contents),
        final(state).address() == old(state).address(),
        final(state).fee_spec() == old(state).fee_spec(),
        final(state).answers() == if r {
            stored_bodies(
                old(state).answers(),
                response@.id,
                response@.contents,
                response@.contents.len() as int,
            )
        } else {
            old(state).answers()
        },
{
    let ghost contents = response@.contents;
    if !all_have_bodies(&response.contents) {
        return false;
    }
    let mut j: usize = 0;
    while j < response.contents.len()
        invariant
            j <= response.contents@.len(),
            contents == response@.contents,
            all_show_bodies(contents),
            state.address() == old(state).address(),
            state.fee_spec() == old(state).fee_spec(),
            state.answers() == stored_bodies(old(state).answers(), response@.id, contents, j as int),
        decreases response.contents.len() - j,
    {
        assert(contents[j as int] == response.contents@[j as int]@);
        assert(body_of(contents[j as int]) is Some);
        let body = full_proof_body(response.contents[j].as_str());
        set_request_value(state, response.id.as_str(), body);
        j = j + 1;
    }
    true
}

} // verus!

//! The content path: a request to notarise one HTTP exchange. There is one
//! target and so no consensus; the proof of the exchange is forwarded as it
//! comes.
use vstd::prelude::*;
use crate::caller::HttpMethod;
use crate::logs::EventUrlLog;
use crate::text::{to_lowercase, unicode_lower, views};
use crate::types::{
    content_answer_view, header_views, ADCResponseV2, ContentView, ErrorResponse, ErrorView, Headers,
    ProxyRequest, ProxyView, ResponseV2,
};

verus! {

/// Whether a text is a valid header name, as parsing it into a
/// `reqwest::header::HeaderName` decides it.
pub uninterp spec fn header_name_ok(key: Seq<char>) -> bool;

/// Whether a character may stand in a header value: a tab, or anything from
/// the blank on but the delete character.
pub open spec fn header_value_char_ok(c: char) -> bool {
    c == '\t' || (c >= ' ' && c != '\u{7f}')
}

/// Whether a text is a valid header value: each of its characters may stand
/// in one.
pub open spec fn header_value_ok(value: Seq<char>) -> bool {
    forall|i: int| 0 <= i < value.len() ==> header_value_char_ok(#[trigger] value[i])
}

/// Whether a text is a valid header name. Wraps the `FromStr` of
/// `reqwest::header::HeaderName`; the contract names its verdict.
#[verifier::external_body]
pub(crate) fn is_header_name(key: &str) -> (r: bool)
    ensures
        r == header_name_ok(key@),
{
    key.parse::<reqwest::header::HeaderName>().is_ok()
}

/// Whether a text is a valid header value. Wraps the `FromStr` of
/// `reqwest::header::HeaderValue`, which accepts a text exactly where each of
/// its bytes is a tab, or at least 32 and not 127; the bytes of a character
/// beyond ASCII are all at least 128.
#[verifier::external_body]
pub(crate) fn is_header_value(value: &str) -> (r: bool)
    ensures
        r == header_value_ok(value@),
{
    value.parse::<reqwest::header::HeaderValue>().is_ok()
}

/// Whether a header goes out with the request: its name and its value are
/// both valid.
pub open spec fn header_ok(h: (Seq<char>, Seq<char>)) -> bool {
    header_name_ok(h.0) && header_value_ok(h.1)
}

/// The headers that go out with a request, in their order: an invalid one
/// is left out.
pub open spec fn sent_headers(headers: Seq<(Seq<char>, Seq<char>)>) -> Seq<(Seq<char>, Seq<char>)>
    decreases headers.len(),
{
    if headers.len() == 0 {
        Seq::empty()
    } else {
        let before = sent_headers(headers.drop_last());
        if header_ok(headers.last()) {
            before.push(headers.last())
        } else {
            before
        }
    }
}

/// The method of the exchange: `GET` where the request says so in any case,
/// else `POST`.
pub open spec fn fetch_method_of(method: Seq<char>) -> HttpMethod {
    if unicode_lower(method) == "get"@ {
        HttpMethod::Get
    } else {
        HttpMethod::Post
    }
}

/// The one exchange that a content request asks for.
#[derive(Debug)]
pub struct FetchPlan {
    pub method: HttpMethod,
    pub url: String,
    pub headers: Vec<Headers>,
    pub body: String,
    pub redacted: String,
}

/// The model of a [`FetchPlan`].
pub struct FetchView {
    pub method: HttpMethod,
    pub url: Seq<char>,
    pub headers: Seq<(Seq<char>, Seq<char>)>,
    pub body: Seq<char>,
    pub redacted: Seq<char>,
}

impl View for FetchPlan {
    type V = FetchView;

    open spec fn view(&self) -> FetchView {
        FetchView {
            method: self.method,
            url: self.url@,
            headers: header_views(self.headers@),
            body: self.body@,
            redacted: self.redacted@,
        }
    }
}

/// The exchange that a content request asks for; none where it names no
/// target.
pub open spec fn plan_for(request: ProxyView) -> Option<FetchView> {
    if request.target_url.len() == 0 {
        None
    } else {
        Some(
            FetchView {
                method: fetch_method_of(request.method),
                url: request.target_url,
                headers: sent_headers(request.headers),
                body: request.body,
                redacted: request.redacted,
            },
        )
    }
}

/// The headers that go out with a request.
pub fn valid_headers(headers: &Vec<Headers>) -> (r: Vec<Headers>)
    ensures
        header_views(r@) == sent_headers(header_views(headers@)),
{
    let ghost all = header_views(headers@);
    let mut out: Vec<Headers> = Vec::new();
    let mut i: usize = 0;
    while i < headers.len()
        invariant
            i <= headers.len(),
            all == header_views(headers@),
            header_views(out@) == sent_headers(all.take(i as int)),
        decreases headers.len() - i,
    {
        let ghost before = header_views(out@);
        proof {
            assert(all.take(i + 1).drop_last() =~= all.take(i as int));
            assert(all.take(i + 1).last() == headers@[i as int]@);
        }
        let h = &headers[i];
        if is_header_name(h.key.as_str()) && is_header_value(h.value.as_str()) {
            out.push(Headers { key: h.key.clone(), value: h.value.clone() });
            assert(header_views(out@) =~= before.push(headers@[i as int]@));
        }
        i = i + 1;
    }
    assert(all.take(i as int) =~= all);
    out
}

/// The exchange that a content request asks for: exactly one, by `GET` or
/// `POST`, with the request's valid headers, its body and its redaction.
/// A request without a target asks for none, and is answered with an error.
pub fn fetch_plan(request: &ProxyRequest) -> (r: Option<FetchPlan>)
    ensures
        r is Some <==> plan_for(request@) is Some,
        r is Some ==> r->Some_0@ == plan_for(request@)->Some_0,
{
    if request.target_url.as_str().unicode_len() == 0 {
        return None;
    }
    let method = if to_lowercase(request.method.as_str()) == "get".to_owned() {
        HttpMethod::Get
    } else {
        HttpMethod::Post
    };
    Some(
        FetchPlan {
            method,
            url: request.target_url.clone(),
            headers: valid_headers(&request.headers),
            body: request.body.clone(),
            redacted: request.redacted.clone(),
        },
    )
}

/// How the exchange ended, where one was made: with a proof, or with the
/// words of a failure.
pub open spec fn fetched(outcome: Option<Result<String, String>>) -> Option<Result<Seq<char>, Seq<char>>> {
    match outcome {
        Some(Ok(p)) => Some(Ok(p@)),
        Some(Err(m)) => Some(Err(m@)),
        None => None,
    }
}

/// The error of a content request that names no target.
pub open spec fn no_target_message() -> Seq<char> {
    "request names no target"@
}

/// The error of a content request whose exchange was not made.
pub open spec fn not_fetched_message() -> Seq<char> {
    "exchange was not made"@
}

/// The answer to a content request. A request without a target is answered
/// with an error, whatever else is said. Else the answer follows how the
/// exchange ended: the proof alone and unverified, or an error with the
/// words of the failure, or the error of an exchange that was not made.
pub open spec fn content_answer(
    request: ProxyView,
    outcome: Option<Result<Seq<char>, Seq<char>>>,
) -> Result<ContentView, ErrorView> {
    if plan_for(request) is None {
        Err(ErrorView { id: request.id, owner: request.owner, message: no_target_message() })
    } else {
        match outcome {
            Some(Ok(proof_text)) => Ok(
                ContentView {
                    id: request.id,
                    owner: request.owner,
                    contents: Seq::empty(),
                    proof_requests: seq![proof_text],
                    processed: false,
                },
            ),
            Some(Err(message)) => Err(ErrorView { id: request.id, owner: request.owner, message }),
            None => Err(
                ErrorView { id: request.id, owner: request.owner, message: not_fetched_message() },
            ),
        }
    }
}

/// Every content request gets exactly one answer, and it carries the id and
/// the owner of the request, however the exchange ended.
pub proof fn law_content_answer_per_request(
    request: ProxyView,
    outcome: Option<Result<Seq<char>, Seq<char>>>,
)
    ensures
        match content_answer(request, outcome) {
            Ok(answer) => answer.id == request.id && answer.owner == request.owner,
            Err(error) => error.id == request.id && error.owner == request.owner,
        },
{
}

impl ResponseV2 {
    /// The answer to begin for a content request, without any proof yet.
    pub fn from(request: &ProxyRequest) -> (r: ResponseV2)
        ensures
            r@ == (ContentView {
                id: request@.id,
                owner: request@.owner,
                contents: Seq::empty(),
                proof_requests: Seq::empty(),
                processed: false,
            }),
    {
        let r = ResponseV2 {
            id: request.id.clone(),
            owner: request.owner,
            contents: Vec::new(),
            proof_requests: Vec::new(),
            processed: false,
        };
        assert(views(r.contents@) =~= Seq::<Seq<char>>::empty());
        assert(views(r.proof_requests@) =~= Seq::<Seq<char>>::empty());
        r
    }
}

/// The answer to a content request: `outcome` says how its exchange ended,
/// `None` where none was made.
pub fn resolve_data(event: &EventUrlLog, outcome: Option<Result<String, String>>) -> (r: ADCResponseV2)
    ensures
        content_answer_view(r) == content_answer(event.logs@, fetched(outcome)),
{
    if event.logs.target_url.as_str().unicode_len() == 0 {
        return Err(
            ErrorResponse::new(
                event.logs.id.clone(),
                event.logs.owner,
                "request names no target".to_owned(),
            ),
        );
    }
    match outcome {
        Some(Err(message)) => Err(
            ErrorResponse::new(event.logs.id.clone(), event.logs.owner, message),
        ),
        Some(Ok(proof_text)) => {
            let mut answer = ResponseV2::from(&event.logs);
            let mut proofs: Vec<String> = Vec::new();
            proofs.push(proof_text);
            assert(views(proofs@) =~= seq![proof_text@]);
            answer.proof_requests = proofs;
            Ok(answer)
        },
        None => Err(
            ErrorResponse::new(
                event.logs.id.clone(),
                event.logs.owner,
                "exchange was not made".to_owned(),
            ),
        ),
    }
}

} // verus!

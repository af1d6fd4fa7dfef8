use adc_oracle::ledger::{RejectReason, SubmitOutcome};
use adc_oracle::consensus::InformationDetails;
use adc_oracle::processor::{
    check_gas, forward_answer, forward_response, generate_request_url, get_buffer,
    get_currency_pair_price, get_transaction_fee, get_verifier_canister, needs_price,
    quotient_details, receive_orchestrator_response, record_price, request_data, set_buffer,
    set_transaction_fee, set_verifier_canister, PricePlan, ProcessorState, RequestError,
    REQUEST_CURRENCY_PAIR_LIMIT,
};
use adc_oracle::types::{ADCResponse, CurrencyPair, ErrorResponse, Request, RequestOpts, Response};
use candid::Principal;

fn ready() -> ProcessorState {
    ProcessorState::new(Some(Principal::management_canister()))
}

fn ask(state: &mut ProcessorState, time: u64, pairs: &str) -> Result<Request, RequestError> {
    request_data(
        state,
        Principal::anonymous(),
        true,
        time,
        &vec![0xab, 0xcd, 0xef, 0x01],
        pairs.to_string(),
        RequestOpts { price: true },
    )
}

fn answer(id: &str) -> ADCResponse {
    Ok(Response { id: id.to_string(), owner: Principal::anonymous(), pairs: vec![], processed: true })
}

#[test]
fn a_request_id_is_time_and_five_hex_digits() {
    assert_eq!(generate_request_url(1_700_000_000, &vec![0xab, 0xcd, 0xef]), "1700000000_abcde");
    assert_eq!(generate_request_url(0, &vec![0x01, 0x02, 0x03, 0x04]), "0_01020");
    assert_eq!(generate_request_url(u64::MAX, &vec![0xff; 32]), "18446744073709551615_fffff");
}

#[test]
fn too_few_random_bytes_leave_the_id_without_digits() {
    assert_eq!(generate_request_url(42, &vec![]), "42_");
    assert_eq!(generate_request_url(42, &vec![0xaa, 0xbb]), "42_");
}

#[test]
fn a_request_is_logged_and_waits_for_its_answer() {
    let mut state = ready();
    let request = ask(&mut state, 17, " btc , eth/usdt").unwrap();
    assert_eq!(request.id, "17_abcde");
    assert_eq!(request.pairs, vec!["BTC", "ETH/USDT"]);
    assert_eq!(request.owner, Principal::anonymous());
    assert!(request.opts.price);
    assert_eq!(get_buffer(&state), vec!["17_abcde"]);
}

#[test]
fn a_request_is_refused_without_verifier_or_whitelist() {
    let mut unset = ProcessorState::new(None);
    assert_eq!(ask(&mut unset, 1, "BTC").err(), Some(RequestError::VerifierNotSet));
    assert!(get_buffer(&unset).is_empty());

    let mut state = ready();
    let refused = request_data(
        &mut state,
        Principal::anonymous(),
        false,
        1,
        &vec![1, 2, 3],
        String::from("BTC"),
        RequestOpts::default(),
    );
    assert_eq!(refused.err(), Some(RequestError::NotWhitelisted));
    assert!(get_buffer(&state).is_empty());
}

#[test]
fn a_request_may_name_ten_pairs_and_no_more() {
    assert_eq!(REQUEST_CURRENCY_PAIR_LIMIT, 10);
    let mut state = ready();
    assert_eq!(ask(&mut state, 1, "a,b,c,d,e,f,g,h,i,j").unwrap().pairs.len(), 10);
    assert_eq!(ask(&mut state, 2, "a,b,c,d,e,f,g,h,i,j,k").err(), Some(RequestError::TooManyPairs));
    assert_eq!(get_buffer(&state), vec!["1_abcde"]);
}

#[test]
fn an_answer_is_accepted_exactly_once() {
    let mut state = ready();
    let id = ask(&mut state, 5, "BTC").unwrap().id;
    assert_eq!(receive_orchestrator_response(&mut state, true, &answer(&id)), SubmitOutcome::Accepted);
    assert!(get_buffer(&state).is_empty());
    assert_eq!(
        receive_orchestrator_response(&mut state, true, &answer(&id)),
        SubmitOutcome::Rejected(RejectReason::UnknownId)
    );
}

#[test]
fn an_answer_for_an_unknown_id_is_rejected() {
    let mut state = ready();
    ask(&mut state, 5, "BTC").unwrap();
    assert_eq!(
        receive_orchestrator_response(&mut state, true, &answer("never-made")),
        SubmitOutcome::Rejected(RejectReason::UnknownId)
    );
    assert_eq!(get_buffer(&state).len(), 1);
}

#[test]
fn an_error_answer_retires_the_request_too() {
    let mut state = ready();
    let id = ask(&mut state, 5, "BTC").unwrap().id;
    let error: ADCResponse = Err(ErrorResponse::new(id, Principal::anonymous(), String::from("boom")));
    assert_eq!(receive_orchestrator_response(&mut state, true, &error), SubmitOutcome::Accepted);
    assert!(get_buffer(&state).is_empty());
}

#[test]
fn an_answer_from_a_stranger_is_rejected() {
    let mut state = ready();
    let id = ask(&mut state, 5, "BTC").unwrap().id;
    assert_eq!(
        receive_orchestrator_response(&mut state, false, &answer(&id)),
        SubmitOutcome::Rejected(RejectReason::NotAuthorized)
    );
    assert_eq!(get_buffer(&state), vec![id.clone()]);
    set_verifier_canister(&mut state, None);
    assert_eq!(
        receive_orchestrator_response(&mut state, true, &answer(&id)),
        SubmitOutcome::Rejected(RejectReason::VerifierNotSet)
    );
    assert_eq!(get_buffer(&state), vec![id]);
}

#[test]
fn state_is_set_and_read_back() {
    let mut state = ProcessorState::new(None);
    assert_eq!(get_verifier_canister(&state), None);
    assert_eq!(get_transaction_fee(&state), 0);
    set_verifier_canister(&mut state, Some(Principal::anonymous()));
    set_transaction_fee(&mut state, 1_000_000_000_000);
    assert_eq!(get_verifier_canister(&state), Some(Principal::anonymous()));
    assert_eq!(get_transaction_fee(&state), 1_000_000_000_000);
    assert!(check_gas(&state, 1_000_000_000_000));
    assert!(!check_gas(&state, 999_999_999_999));
}

#[test]
fn the_buffer_is_restored_without_duplicates() {
    let mut state = ready();
    set_buffer(&mut state, vec![String::from("a"), String::from("b"), String::from("a")]);
    let mut ids = get_buffer(&state);
    ids.sort();
    assert_eq!(ids, vec!["a", "b"]);
    assert_eq!(receive_orchestrator_response(&mut state, true, &answer("a")), SubmitOutcome::Accepted);
    assert_eq!(get_buffer(&state), vec!["b"]);
    set_buffer(&mut state, vec![]);
    assert!(get_buffer(&state).is_empty());
}

fn details(value: f64, sources: &[f64]) -> InformationDetails {
    InformationDetails::new(value.to_bits(), sources.iter().map(|s| s.to_bits()).collect())
}

fn value_of(details: &Option<InformationDetails>) -> Option<f64> {
    details.as_ref().map(|d| f64::from_bits(d.value))
}

#[test]
fn a_pair_price_is_the_base_or_a_division() {
    let plan = get_currency_pair_price(Ok(details(50000.0, &[49900.0, 50100.0])), None);
    assert!(matches!(
        plan,
        PricePlan::Base(b) if f64::from_bits(b.value) == 50000.0 && b.sources.len() == 2
    ));
    let plan = get_currency_pair_price(Ok(details(50000.0, &[50000.0])), Some(Ok(details(2.0, &[2.0]))));
    assert!(matches!(
        plan,
        PricePlan::Divide(b, q) if f64::from_bits(b.value) == 50000.0 && f64::from_bits(q.value) == 2.0
    ));
}

#[test]
fn a_quotient_keeps_the_sources_of_both_sides() {
    let pair = quotient_details(details(6.0, &[5.0, 7.0]), details(2.0, &[2.0]), 3.0f64.to_bits());
    assert_eq!(f64::from_bits(pair.value), 3.0);
    assert_eq!(
        pair.sources.iter().map(|s| f64::from_bits(*s)).collect::<Vec<_>>(),
        vec![5.0, 7.0, 2.0]
    );
}

#[test]
fn a_zero_or_failed_quote_fails_the_pair() {
    for zero in [0.0f64, -0.0f64] {
        assert!(matches!(
            get_currency_pair_price(Ok(details(5.0, &[5.0])), Some(Ok(details(zero, &[zero])))),
            PricePlan::Failed(m) if m == "quote price is zero"
        ));
    }
    assert!(matches!(
        get_currency_pair_price(Ok(details(5.0, &[5.0])), Some(Err(String::from("quorum failure")))),
        PricePlan::Failed(m) if m == "quorum failure"
    ));
    assert!(matches!(
        get_currency_pair_price(Err(String::from("base")), Some(Err(String::from("quote")))),
        PricePlan::Failed(m) if m == "base"
    ));
    assert!(matches!(get_currency_pair_price(Err(String::from("base")), None), PricePlan::Failed(m) if m == "base"));
}

#[test]
fn a_price_or_its_error_is_written_into_the_pair() {
    let pair = CurrencyPair::try_from(String::from("BTC")).unwrap();
    assert!(needs_price(&pair));
    let priced = record_price(pair, Ok(details(1.5, &[1.0, 2.0])));
    assert_eq!(value_of(&priced.price), Some(1.5));
    assert_eq!(priced.price.as_ref().unwrap().sources.len(), 2);
    assert!(priced.error.is_none());

    let pair = CurrencyPair::try_from(String::from("BTC")).unwrap();
    let failed = record_price(pair, Err(String::from("quorum failure")));
    assert_eq!(failed.error.as_deref(), Some("quorum failure"));
    assert!(failed.price.is_none());

    let mut pair = CurrencyPair::try_from(String::from("BTC")).unwrap();
    pair.price = Some(details(9.0, &[9.0]));
    let failed = record_price(pair, Err(String::from("quorum failure")));
    assert_eq!(failed.error.as_deref(), Some("quorum failure"));
    assert!(failed.price.is_none());

    let mut pair = CurrencyPair::try_from(String::from("BTC")).unwrap();
    pair.error = Some(String::from("earlier"));
    assert!(!needs_price(&pair));
    let kept = record_price(pair, Ok(details(1.5, &[1.5])));
    assert_eq!(kept.error.as_deref(), Some("earlier"));
    assert!(kept.price.is_none());
}

fn accepted() -> Response {
    let mut pairs: Vec<CurrencyPair> = ["BTC", "a/b/c", "ETH/USDT", "SOL", "XYZ"]
        .iter()
        .map(|t| CurrencyPair::item_for(t.to_string()))
        .collect();
    pairs[3].error = Some(String::from("quorum failure"));
    Response { id: String::from("r1"), owner: Principal::anonymous(), pairs, processed: true }
}

#[test]
fn a_forwarded_response_has_every_pair_in_place() {
    let outcomes = vec![
        Some(Err(String::from("verification failed"))),
        Some(Ok(details(1.0, &[1.0]))),
        Some(Ok(details(3000.5, &[3000.0, 3001.0]))),
        None,
    ];
    let forwarded = forward_response(accepted(), &outcomes);
    assert_eq!(forwarded.id, "r1");
    assert_eq!(forwarded.owner, Principal::anonymous());
    assert!(forwarded.processed);
    assert_eq!(
        forwarded.pairs.iter().map(|p| p.repr.as_str()).collect::<Vec<_>>(),
        vec!["BTC", "A/B/C", "ETH/USDT", "SOL", "XYZ"]
    );
    assert_eq!(forwarded.pairs[0].error.as_deref(), Some("verification failed"));
    assert!(forwarded.pairs[0].price.is_none());
    assert_eq!(forwarded.pairs[1].error.as_deref(), Some("invalid currency_pair"));
    assert!(forwarded.pairs[1].price.is_none());
    assert_eq!(value_of(&forwarded.pairs[2].price), Some(3000.5));
    assert!(forwarded.pairs[2].error.is_none());
    assert_eq!(forwarded.pairs[3].error.as_deref(), Some("quorum failure"));
    assert!(forwarded.pairs[3].price.is_none());
    assert_eq!(forwarded.pairs[4].error.as_deref(), Some("price was not resolved"));
    assert!(forwarded.pairs[4].price.is_none());
    for pair in &forwarded.pairs {
        assert!(pair.price.is_some() != pair.error.is_some());
    }
}

#[test]
fn a_forwarded_response_without_outcomes_has_an_error_on_every_pair() {
    let forwarded = forward_response(accepted(), &vec![]);
    assert_eq!(forwarded.pairs.len(), 5);
    assert!(forwarded.pairs.iter().all(|p| p.error.is_some() && p.price.is_none()));
    assert_eq!(forwarded.pairs[0].error.as_deref(), Some("price was not resolved"));
    assert_eq!(forwarded.pairs[1].error.as_deref(), Some("invalid currency_pair"));
}

#[test]
fn an_error_answer_is_forwarded_as_it_came() {
    let error: ADCResponse =
        Err(ErrorResponse::new(String::from("r9"), Principal::anonymous(), String::from("boom")));
    let forwarded = forward_answer(error, &vec![Some(Ok(details(1.0, &[1.0])))]).unwrap_err();
    assert_eq!(forwarded.id, "r9");
    assert_eq!(forwarded.message, "boom");
    let ok: ADCResponse = Ok(accepted());
    let forwarded = forward_answer(ok, &vec![Some(Ok(details(2.0, &[2.0])))]).unwrap();
    assert_eq!(value_of(&forwarded.pairs[0].price), Some(2.0));
}

use adc_oracle::caller::{
    get_adc_address, get_request_value, get_transaction_fee, outcall_method, outcall_text,
    receive_adc_response_v2, set_adc_address, set_request_value, set_transaction_fee, transform,
    CallerState, HttpMethod, HttpReply, OutcallResult, INITIAL_FEE,
};
use adc_oracle::config::{
    get_env_or_default, Config, DEFAULT_IDENTITY_PATH, DEFAULT_JOB_SCHEDULE, DEFAULT_PROVER_URL,
    DEFAULT_SHARED_LOCAL_BIND,
};
use adc_oracle::pulse::{agent_url, choose_asset, chosen_asset, PulseError};
use adc_oracle::store::TextMap;
use adc_oracle::types::{Headers, ResponseV2};
use candid::Principal;

fn content_answer(id: &str, contents: &[&str]) -> ResponseV2 {
    ResponseV2 {
        id: id.to_string(),
        owner: Principal::anonymous(),
        contents: contents.iter().map(|c| c.to_string()).collect(),
        proof_requests: vec![],
        processed: true,
    }
}

#[test]
fn caller_settings_are_set_and_read_back() {
    let mut state = CallerState::new(None, INITIAL_FEE);
    assert_eq!(get_adc_address(&state), None);
    assert_eq!(get_transaction_fee(&state), 2_000_000_000);
    set_adc_address(&mut state, Some(Principal::anonymous()));
    set_transaction_fee(&mut state, 7);
    assert_eq!(get_adc_address(&state), Some(Principal::anonymous()));
    assert_eq!(get_transaction_fee(&state), 7);
}

#[test]
fn an_answer_is_stored_under_its_request() {
    let mut state = CallerState::new(None, 0);
    assert_eq!(get_request_value(&state, "r1"), None);
    set_request_value(&mut state, "r1", String::from("one"));
    set_request_value(&mut state, "r2", String::from("two"));
    assert_eq!(get_request_value(&state, "r1"), Some(String::from("one")));
    set_request_value(&mut state, "r1", String::from("uno"));
    assert_eq!(get_request_value(&state, "r1"), Some(String::from("uno")));
    assert_eq!(get_request_value(&state, "r2"), Some(String::from("two")));
    assert_eq!(get_request_value(&state, ""), None);
}

#[test]
fn a_text_map_holds_the_last_value_of_each_key() {
    let mut map = TextMap::new();
    assert_eq!(map.get("k"), None);
    map.insert("k", String::from("1"));
    map.insert("", String::from("empty"));
    map.insert("k", String::from("2"));
    assert_eq!(map.get("k"), Some(String::from("2")));
    assert_eq!(map.get(""), Some(String::from("empty")));
    assert_eq!(map.get("K"), None);
}

#[test]
fn the_bodies_of_a_content_answer_are_stored() {
    let mut state = CallerState::new(None, 0);
    let answer = content_answer("c1", &["q\n\nh\r\n\r\nfirst", "q\n\nh\r\n\r\nsecond"]);
    assert!(receive_adc_response_v2(&mut state, &answer));
    assert_eq!(get_request_value(&state, "c1"), Some(String::from("second")));
}

#[test]
fn a_content_answer_without_body_is_refused_as_a_whole() {
    let mut state = CallerState::new(None, 0);
    set_request_value(&mut state, "c1", String::from("before"));
    let answer = content_answer("c1", &["q\n\nh\r\n\r\nfirst", "no body here"]);
    assert!(!receive_adc_response_v2(&mut state, &answer));
    assert_eq!(get_request_value(&state, "c1"), Some(String::from("before")));
    assert!(receive_adc_response_v2(&mut state, &content_answer("c2", &[])));
    assert_eq!(get_request_value(&state, "c2"), None);
}

#[test]
fn the_outcall_method_is_post_only_where_the_text_says_so() {
    for method in ["post", "POST", "Post"] {
        assert_eq!(outcall_method(method), HttpMethod::Post);
    }
    for method in ["get", "GET", "", "put", "post "] {
        assert_eq!(outcall_method(method), HttpMethod::Get);
    }
}

#[test]
fn a_transformed_response_has_the_fixed_headers() {
    let raw = HttpReply {
        status: 404,
        headers: vec![Headers { key: String::from("date"), value: String::from("today") }],
        body: vec![1, 2, 3],
    };
    let shaped = transform(raw);
    assert_eq!(shaped.status, 404);
    assert_eq!(shaped.body, vec![1, 2, 3]);
    let headers: Vec<(&str, &str)> =
        shaped.headers.iter().map(|h| (h.key.as_str(), h.value.as_str())).collect();
    assert_eq!(
        headers,
        vec![
            ("Content-Security-Policy", "default-src 'self'"),
            ("Referrer-Policy", "strict-origin"),
            ("Permissions-Policy", "geolocation=(self)"),
            ("Strict-Transport-Security", "max-age=63072000"),
            ("X-Frame-Options", "DENY"),
            ("X-Content-Type-Options", "nosniff"),
        ]
    );
}

#[test]
fn an_outcall_ends_in_a_body_or_a_sentence() {
    assert_eq!(
        outcall_text(OutcallResult::Reply("{\"successful\": true}".as_bytes().to_vec())),
        Some(String::from("{\"successful\": true}"))
    );
    assert_eq!(outcall_text(OutcallResult::Reply(vec![0xc3, 0x28])), None);
    assert_eq!(
        outcall_text(OutcallResult::Rejected(String::from("SysFatal"), String::from("timeout"))),
        Some(String::from(
            "The http_request resulted into error. RejectionCode: SysFatal, Error: timeout"
        ))
    );
}

#[test]
fn settings_fall_back_to_their_defaults() {
    assert_eq!(get_env_or_default(None, "d"), "d");
    assert_eq!(get_env_or_default(Some(String::from("v")), "d"), "v");
    let config = Config::env(None, Principal::management_canister(), None, None, None);
    assert_eq!(config.url, DEFAULT_SHARED_LOCAL_BIND);
    assert_eq!(config.keyfile_path, DEFAULT_IDENTITY_PATH);
    assert_eq!(config.job_schedule, DEFAULT_JOB_SCHEDULE);
    assert_eq!(config.prover_url, DEFAULT_PROVER_URL);
    assert_eq!(config.canister, Principal::management_canister());
    assert!(config.is_dev);
    assert_eq!(config.notary_info_url(), "http://127.0.0.1:8080/notaryinfo");
}

#[test]
fn only_the_public_gateway_is_no_development_setup() {
    for (url, dev) in [
        ("https://icp0.io", false),
        ("https://icp0.io/", false),
        ("https://icp0.io//", true),
        ("http://icp0.io", true),
        ("", true),
    ] {
        let config = Config::env(
            Some(url.to_string()),
            Principal::anonymous(),
            Some(String::from("k.pem")),
            Some(String::from("* * * * * *")),
            Some(String::from("http://prover")),
        );
        assert_eq!(config.is_dev, dev);
        assert_eq!(config.url, url);
        assert_eq!(config.keyfile_path, "k.pem");
        assert_eq!(config.prover_url, "http://prover");
    }
}

#[test]
fn the_chosen_asset_is_one_of_the_list() {
    for _ in 0..50 {
        let asset = choose_asset(" btc, eth ,sol").unwrap();
        assert!(["BTC", "ETH", "SOL"].contains(&asset.as_str()));
    }
    assert_eq!(choose_asset("doge"), Ok(String::from("DOGE")));
    assert_eq!(choose_asset(""), Ok(String::new()));
}

#[test]
fn no_pick_is_the_error_of_an_empty_list() {
    assert_eq!(chosen_asset(None), Err(PulseError::EmptyList));
    assert_eq!(chosen_asset(Some(String::from("BTC"))), Ok(String::from("BTC")));
    assert_eq!(PulseError::EmptyList.message(), "Assets list is empty");
}

#[test]
fn the_pulse_connects_to_replica_or_gateway() {
    assert_eq!(agent_url(true), "http://127.0.0.1:4943");
    assert_eq!(agent_url(false), "https://icp0.io");
}

use adc_oracle::driver::{process_canister_logs, CycleAction, CycleEvent, CycleState, PipelineDriver};
use adc_oracle::logs::{EventLog, EventUrlLog};
use adc_oracle::poller::LogPollerState;
use adc_oracle::types::{ProxyRequest, Request, RequestOpts};
use adc_oracle::utils::get_utc_timestamp;
use candid::Principal;

fn price_event(index: u64, timestamp: u64) -> EventLog {
    EventLog::new(
        index,
        timestamp,
        Request {
            id: format!("r{index}"),
            owner: Principal::anonymous(),
            pairs: vec![],
            opts: RequestOpts { price: true },
        },
    )
}

fn url_event(index: u64, timestamp: u64) -> EventUrlLog {
    EventUrlLog::new(
        index,
        timestamp,
        ProxyRequest {
            id: format!("c{index}"),
            owner: Principal::anonymous(),
            target_url: String::new(),
            method: String::new(),
            redacted: String::new(),
            headers: vec![],
            body: String::new(),
        },
    )
}

#[test]
fn a_cycle_without_records_leaves_the_checkpoint() {
    let mut driver = PipelineDriver::new(100);
    assert_eq!(driver.step(CycleEvent::Trigger { checkpoint: 100 }), CycleAction::Poll { since: 100 });
    assert!(driver.is_running());
    assert_eq!(
        driver.step(CycleEvent::Polled { records: 0, last_timestamp: 500 }),
        CycleAction::Nothing
    );
    assert_eq!(driver, PipelineDriver::new(100));
    assert!(!driver.is_running());
}

#[test]
fn a_second_trigger_is_a_no_op() {
    let mut driver = PipelineDriver::new(100);
    assert_eq!(driver.step(CycleEvent::Trigger { checkpoint: 100 }), CycleAction::Poll { since: 100 });
    let in_flight = driver;
    assert_eq!(driver.step(CycleEvent::Trigger { checkpoint: 7 }), CycleAction::Nothing);
    assert_eq!(driver, in_flight);
    assert_eq!(driver.step(CycleEvent::Polled { records: 2, last_timestamp: 130 }), CycleAction::Resolve);
    assert_eq!(driver.step(CycleEvent::Trigger { checkpoint: 7 }), CycleAction::Nothing);
    assert_eq!(driver.step(CycleEvent::Resolved), CycleAction::Dispatch);
    assert_eq!(driver.step(CycleEvent::Trigger { checkpoint: 7 }), CycleAction::Nothing);
    assert_eq!(driver.phase, CycleState::Dispatching);
}

#[test]
fn a_full_cycle_saves_the_time_of_the_last_record() {
    let mut driver = PipelineDriver::new(0);
    assert_eq!(driver.step(CycleEvent::Trigger { checkpoint: 100 }), CycleAction::Poll { since: 100 });
    assert_eq!(driver.step(CycleEvent::Polled { records: 3, last_timestamp: 130 }), CycleAction::Resolve);
    assert_eq!(driver.step(CycleEvent::Resolved), CycleAction::Dispatch);
    assert_eq!(driver.step(CycleEvent::Submitted { accepted: true }), CycleAction::Dispatch);
    assert_eq!(driver.step(CycleEvent::Submitted { accepted: true }), CycleAction::Dispatch);
    assert_eq!(
        driver.step(CycleEvent::Submitted { accepted: true }),
        CycleAction::Save { watermark: 130 }
    );
    assert_eq!(driver, PipelineDriver::new(130));
}

#[test]
fn a_rejected_response_does_not_stop_the_others() {
    let mut driver = PipelineDriver::new(0);
    driver.step(CycleEvent::Trigger { checkpoint: 100 });
    driver.step(CycleEvent::Polled { records: 3, last_timestamp: 130 });
    assert_eq!(driver.step(CycleEvent::Resolved), CycleAction::Dispatch);
    assert_eq!(driver.step(CycleEvent::Submitted { accepted: false }), CycleAction::Dispatch);
    assert_eq!(driver.unsent, 2);
    assert_eq!(driver.step(CycleEvent::Submitted { accepted: true }), CycleAction::Dispatch);
    assert_eq!(
        driver.step(CycleEvent::Submitted { accepted: false }),
        CycleAction::Save { watermark: 130 }
    );
    assert!(!driver.is_running());
    assert_eq!(driver.step(CycleEvent::Submitted { accepted: true }), CycleAction::Nothing);
}

#[test]
fn a_batch_of_one_is_saved_after_its_one_submit() {
    let mut driver = PipelineDriver::new(0);
    driver.step(CycleEvent::Trigger { checkpoint: 5 });
    driver.step(CycleEvent::Polled { records: 1, last_timestamp: 9 });
    assert_eq!(driver.step(CycleEvent::Resolved), CycleAction::Dispatch);
    assert_eq!(driver.step(CycleEvent::Submitted { accepted: false }), CycleAction::Save { watermark: 9 });
    assert_eq!(driver, PipelineDriver::new(9));
}

#[test]
fn a_failed_poll_aborts_the_cycle() {
    let mut driver = PipelineDriver::new(100);
    driver.step(CycleEvent::Trigger { checkpoint: 100 });
    assert_eq!(driver.step(CycleEvent::PollFailed), CycleAction::Nothing);
    assert_eq!(driver, PipelineDriver::new(100));
}

#[test]
fn the_watermark_never_goes_back_within_a_cycle() {
    let mut driver = PipelineDriver::new(100);
    driver.step(CycleEvent::Trigger { checkpoint: 100 });
    assert_eq!(driver.step(CycleEvent::Polled { records: 1, last_timestamp: 50 }), CycleAction::Resolve);
    assert_eq!(driver.watermark, 100);
}

#[test]
fn events_out_of_turn_change_nothing() {
    let mut driver = PipelineDriver::new(100);
    for event in [
        CycleEvent::PollFailed,
        CycleEvent::Polled { records: 1, last_timestamp: 200 },
        CycleEvent::Resolved,
        CycleEvent::Submitted { accepted: true },
    ] {
        assert_eq!(driver.step(event), CycleAction::Nothing);
        assert_eq!(driver, PipelineDriver::new(100));
    }
    driver.step(CycleEvent::Trigger { checkpoint: 100 });
    assert_eq!(driver.step(CycleEvent::Submitted { accepted: true }), CycleAction::Nothing);
    assert_eq!(driver.phase, CycleState::Polling);
}

#[test]
fn the_last_record_of_a_batch_is_the_later_of_both_kinds() {
    assert_eq!(process_canister_logs(&vec![], &vec![]), None);
    assert_eq!(process_canister_logs(&vec![price_event(1, 5), price_event(2, 9)], &vec![]), Some(9));
    assert_eq!(process_canister_logs(&vec![], &vec![url_event(1, 4)]), Some(4));
    assert_eq!(
        process_canister_logs(&vec![price_event(1, 5)], &vec![url_event(2, 6), url_event(3, 8)]),
        Some(8)
    );
    assert_eq!(process_canister_logs(&vec![price_event(1, 9)], &vec![url_event(2, 6)]), Some(9));
}

#[test]
fn checkpoint_names_and_path() {
    assert_eq!(LogPollerState::get_struct_name(), "LogPollerState");
    assert_eq!(LogPollerState::get_storage_path(), ".cache/LogPollerState.json");
    assert_eq!(LogPollerState::new(42).start_timestamp, 42);
}

#[test]
fn a_missing_checkpoint_starts_now_and_is_written() {
    assert_eq!(LogPollerState::load_state(None, 77), (LogPollerState::new(77), true));
    assert_eq!(
        LogPollerState::load_state(Some(LogPollerState::new(5)), 77),
        (LogPollerState::new(5), false)
    );
}

#[test]
fn a_checkpoint_only_advances() {
    let state = LogPollerState::new(100);
    assert_eq!(state.advanced(Some(130)), LogPollerState::new(130));
    assert_eq!(state.advanced(Some(100)), state);
    assert_eq!(state.advanced(Some(3)), state);
    assert_eq!(state.advanced(None), state);
}

#[test]
fn the_clock_stands_after_the_epoch() {
    let now = get_utc_timestamp();
    assert!(now.is_some());
    assert!(now.unwrap() > 1_600_000_000);
}

use std::collections::VecDeque;

use mah_core::json::Json;
use mah_core::pump::{
    HttpAdapterEvents, PullPump, PumpAction, PumpInput, PumpPhase, WebhookAdapterEvents,
    STATUS_BAD_REQUEST, STATUS_NO_CONTENT,
};

/// Runs a pump against scripted fetch results and a bounded channel whose
/// consumer takes an item only when the channel is full. Returns the items
/// received, how many items the consumer had taken when each fetch was
/// issued, and how many errors were reported.
fn run(config: HttpAdapterEvents, mut script: VecDeque<Option<Vec<u32>>>) -> (Vec<u32>, Vec<usize>, usize) {
    let (mut pump, mut action) = PullPump::<u32>::new(config);
    let capacity = config.get_buffer();
    let mut channel: VecDeque<u32> = VecDeque::new();
    let mut received = Vec::new();
    let mut taken_at_fetch = Vec::new();
    let mut errors = 0;
    loop {
        action = match action {
            PumpAction::Fetch(args) => {
                assert_eq!(args.count, config.get_batch_size());
                taken_at_fetch.push(received.len());
                match script.pop_front() {
                    Some(Some(batch)) => pump.step(PumpInput::Fetched(batch)),
                    Some(None) => pump.step(PumpInput::FetchFailed),
                    None => pump.step(PumpInput::Closed),
                }
            }
            PumpAction::Send(item) => {
                while channel.len() >= capacity {
                    received.push(channel.pop_front().unwrap());
                }
                channel.push_back(item);
                pump.step(PumpInput::Sent)
            }
            PumpAction::Wait(_) => pump.step(PumpInput::WaitElapsed),
            PumpAction::ReportAndWait(_) => {
                errors += 1;
                pump.step(PumpInput::WaitElapsed)
            }
            PumpAction::Stop => break,
        };
    }
    received.extend(channel);
    (received, taken_at_fetch, errors)
}

#[test]
fn back_pressure_delays_the_next_fetch() {
    let config = HttpAdapterEvents::new().buffer(1).batch_size(Some(2));
    let script = VecDeque::from(vec![Some(vec![1, 2]), Some(vec![3])]);
    let (received, taken_at_fetch, errors) = run(config, script);
    assert_eq!(received, vec![1, 2, 3]);
    assert_eq!(errors, 0);
    assert_eq!(taken_at_fetch[0], 0);
    assert!(taken_at_fetch[1] >= 1);
}

#[test]
fn transient_failure_is_reported_once_and_delivery_goes_on() {
    let config = HttpAdapterEvents::new();
    let script = VecDeque::from(vec![None, Some(vec![7, 8])]);
    let (received, _, errors) = run(config, script);
    assert_eq!(errors, 1);
    assert_eq!(received, vec![7, 8]);
}

#[test]
fn empty_batch_waits_before_fetching_again() {
    let (mut pump, action) = PullPump::<u32>::new(HttpAdapterEvents::new());
    assert!(matches!(action, PumpAction::Fetch(ref a) if a.count.is_none()));
    assert!(matches!(pump.step(PumpInput::Fetched(vec![])), PumpAction::Wait(_)));
    assert_eq!(pump.phase(), PumpPhase::Waiting);
    assert!(matches!(pump.step(PumpInput::WaitElapsed), PumpAction::Fetch(_)));
}

#[test]
fn closing_during_a_wait_stops_the_pump() {
    let (mut pump, _) = PullPump::<u32>::new(HttpAdapterEvents::new());
    let _ = pump.step(PumpInput::FetchFailed);
    assert!(!pump.can_accept(&PumpInput::Sent));
    assert!(matches!(pump.step(PumpInput::Closed), PumpAction::Stop));
    assert_eq!(pump.phase(), PumpPhase::Stopped);
    assert!(!pump.can_accept(&PumpInput::WaitElapsed));
}

#[test]
fn order_is_kept_across_batches() {
    let config = HttpAdapterEvents::new().buffer(3);
    let script = VecDeque::from(vec![Some(vec![1, 2, 3]), Some(vec![]), None, Some(vec![4]), Some(vec![5, 6])]);
    let (received, _, errors) = run(config, script);
    assert_eq!(received, vec![1, 2, 3, 4, 5, 6]);
    assert_eq!(errors, 1);
}

#[test]
fn webhook_answers_each_payload() {
    let hook = WebhookAdapterEvents::new();
    let good = Json::Object(vec![
        ("type".to_string(), Json::Str("BotOnlineEvent".to_string())),
        ("qq".to_string(), Json::Int(1)),
    ]);
    let (decoded, status) = hook.receive(&good);
    assert!(decoded.is_ok());
    assert_eq!(status, STATUS_NO_CONTENT);
    let bad = Json::Object(vec![("type".to_string(), Json::Str("BotOnlineEvent".to_string()))]);
    let (decoded, status) = hook.receive(&bad);
    assert!(decoded.is_err());
    assert_eq!(status, STATUS_BAD_REQUEST);
}

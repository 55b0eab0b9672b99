use tds_bridge::decode::DecodeError;
use tds_bridge::ingest::{persist, Action, Event, Ingestor, Phase};
use tds_bridge::projection::{last_message, tds_history, ReadError, HISTORY_LIMIT};
use tds_bridge::reading::TDS;
use tds_bridge::store::Store;

fn publish(s: &str) -> Event {
    Event::Publish(s.as_bytes().to_vec())
}

fn subscribed() -> Ingestor {
    let mut ing = Ingestor::new();
    assert_eq!(ing.phase, Phase::Subscribing);
    assert!(matches!(ing.step(Event::SubscribeAcked), Action::Wait));
    assert_eq!(ing.phase, Phase::Receiving);
    ing
}

// Drives one published message through the loop, reading numbers as the
// driver would.
fn ingest(ing: &mut Ingestor, store: &mut Store, payload: &str) -> Action {
    let action = ing.step(publish(payload));
    let action = match action {
        Action::ParseNumber(text) => {
            let n = text.parse::<f64>().ok().map(f64::to_bits);
            ing.step(Event::NumberParsed(n))
        }
        other => other,
    };
    let _ = persist(store, &action);
    action
}

#[test]
fn valid_message_becomes_latest() {
    let mut ing = subscribed();
    let mut store = Store::new();
    let action = ingest(&mut ing, &mut store, r#"{"tds_value": "412.75"}"#);
    assert!(matches!(action, Action::Insert(_)));
    assert_eq!(ing.phase, Phase::Receiving);
    let latest = store.latest().unwrap();
    assert_eq!(f64::from_bits(latest.tds_ppm_bits), 412.75);
}

#[test]
fn not_json_is_dropped_and_loop_continues() {
    let mut ing = subscribed();
    let mut store = Store::new();
    let action = ingest(&mut ing, &mut store, "not json");
    assert!(matches!(action, Action::Drop(DecodeError::MalformedStructure)));
    assert_eq!(store.len(), 0);
    assert_eq!(ing.phase, Phase::Receiving);
    let action = ingest(&mut ing, &mut store, r#"{"tds_value": "12.5"}"#);
    assert!(matches!(action, Action::Insert(_)));
    assert_eq!(store.len(), 1);
    assert_eq!(f64::from_bits(store.latest().unwrap().tds_ppm_bits), 12.5);
}

#[test]
fn non_numeric_value_is_dropped_and_loop_continues() {
    let mut ing = subscribed();
    let mut store = Store::new();
    let action = ingest(&mut ing, &mut store, r#"{"tds_value": "abc"}"#);
    assert!(matches!(action, Action::Drop(DecodeError::InvalidNumber)));
    assert_eq!(store.len(), 0);
    assert_eq!(ing.phase, Phase::Receiving);
}

#[test]
fn missing_field_and_bad_encoding_are_dropped() {
    let mut ing = subscribed();
    let mut store = Store::new();
    let action = ingest(&mut ing, &mut store, r#"{"ppm": "3"}"#);
    assert!(matches!(action, Action::Drop(DecodeError::MissingField)));
    let action = ing.step(Event::Publish(vec![0xc3, 0x28]));
    assert!(matches!(action, Action::Drop(DecodeError::InvalidEncoding)));
    assert_eq!(store.len(), 0);
    assert_eq!(ing.phase, Phase::Receiving);
}

#[test]
fn other_events_are_ignored() {
    let mut ing = subscribed();
    assert!(matches!(ing.step(Event::Other), Action::Wait));
    assert_eq!(ing.phase, Phase::Receiving);
}

#[test]
fn subscribe_failure_stops_the_loop() {
    let mut ing = Ingestor::new();
    assert!(matches!(ing.step(Event::SubscribeFailed), Action::Exit));
    assert_eq!(ing.phase, Phase::Stopped);
    assert!(matches!(ing.step(publish(r#"{"tds_value": "1"}"#)), Action::Exit));
}

#[test]
fn transport_failure_stops_the_loop() {
    let mut ing = subscribed();
    assert!(matches!(ing.step(Event::TransportFailed), Action::Exit));
    assert_eq!(ing.phase, Phase::Stopped);
}

#[test]
fn persist_ignores_non_insert_actions() {
    let mut store = Store::new();
    assert_eq!(persist(&mut store, &Action::Wait), Ok(()));
    assert_eq!(persist(&mut store, &Action::Drop(DecodeError::InvalidNumber)), Ok(()));
    assert_eq!(store.len(), 0);
}

#[test]
fn store_unreachable_gives_server_error() {
    assert_eq!(last_message(None), Err(ReadError::StoreUnavailable));
    assert_eq!(tds_history(None), Err(ReadError::StoreUnavailable));
}

#[test]
fn last_message_of_rows() {
    assert_eq!(last_message(Some(vec![])), Err(ReadError::NoReading));
    let rows = vec![
        TDS { id: 1, tds_ppm_bits: 12.5f64.to_bits(), timestamp: 9 },
        TDS { id: 2, tds_ppm_bits: 11.8f64.to_bits(), timestamp: 4 },
    ];
    assert_eq!(last_message(Some(rows)).unwrap().id, 2);
}

#[test]
fn history_is_capped_at_limit() {
    let rows: Vec<TDS> = (0..100i32)
        .map(|i| TDS { id: i, tds_ppm_bits: 0, timestamp: i as i64 })
        .collect();
    let history = tds_history(Some(rows)).unwrap();
    assert_eq!(HISTORY_LIMIT, 60);
    assert_eq!(history.len(), 60);
    assert_eq!(history[0].id, 99);
    assert_eq!(history[59].id, 40);
}

use mqtt_prometheus_relay::ingest::{
    ingest_step, subscription_filters, with_parsed, BrokerEvent, LoopAction,
};
use mqtt_prometheus_relay::metrics::render;
use mqtt_prometheus_relay::store::SensorMap;
use mqtt_prometheus_relay::types::SensorValue;
use mqtt_prometheus_relay::RECOVERY_DELAY_SECS;

const REPORT: &[u8] = b"{\"device\":\"kitchen\",\"internal_temp_c\":30.2,\"current_time\":172}";

#[test]
fn subscription_filters_are_the_three_shapes() {
    let fs = subscription_filters();
    assert_eq!(
        fs,
        vec![
            "home/sensor/+/status".to_owned(),
            "home/sensor/+/+/data".to_owned(),
            "home/sensor/+/device".to_owned(),
        ]
    );
}

#[test]
fn transport_error_then_conn_ack_resubscribes() {
    let mut store = SensorMap::new();
    // A transport error asks for a bounded, non-zero delay and nothing else.
    let a = ingest_step(&mut store, BrokerEvent::TransportError, 50);
    match a {
        LoopAction::Wait(d) => {
            assert!(d > 0);
            assert_eq!(d, RECOVERY_DELAY_SECS);
        }
        _ => panic!("a transport error must ask for a recovery delay"),
    }
    assert_eq!(store.snapshot().len(), 0);
    // The next connection acknowledgement re-issues all three subscriptions.
    let a = ingest_step(&mut store, BrokerEvent::ConnAck, 51);
    match a {
        LoopAction::Subscribe(fs) => assert_eq!(fs, subscription_filters()),
        _ => panic!("a connection acknowledgement must subscribe"),
    }
}

#[test]
fn publish_device_report_renders_exactly_two_lines() {
    let mut store = SensorMap::new();
    let event = BrokerEvent::Publish("home/sensor/x/device".to_owned(), REPORT.to_vec());
    let a = ingest_step(&mut store, event, 2000);
    assert!(matches!(a, LoopAction::Continue));
    let out = render(&mut store, 2001);
    let expected = "xiaomi_internal_temp_c{address=\"kitchen\"} 30.2\n\
                    xiaomi_internal_uptime{address=\"kitchen\"} 172\n";
    assert_eq!(out, expected);
}

#[test]
fn publish_malformed_payload_leaves_store_untouched() {
    let mut store = SensorMap::new();
    let malformed =
        b"{\"address\":\"AA:BB\",\"temp_c\":21.5,\"temp_f\":70.7,\"humidity_pct\":\"45\",\"voltage\":3.01,\"rssi\":-62}";
    let event = BrokerEvent::Publish("home/sensor/x/y/data".to_owned(), malformed.to_vec());
    let a = ingest_step(&mut store, event, 2000);
    assert!(matches!(a, LoopAction::Continue));
    assert_eq!(store.snapshot().len(), 0);
    // A subsequent render is unaffected: no partial entity.
    assert_eq!(render(&mut store, 2001), "");
}

#[test]
fn publish_unmatched_topic_is_ignored() {
    let mut store = SensorMap::new();
    let event = BrokerEvent::Publish("home/sensor/x/misc".to_owned(), REPORT.to_vec());
    let a = ingest_step(&mut store, event, 2000);
    assert!(matches!(a, LoopAction::Continue));
    assert_eq!(store.snapshot().len(), 0);
}

#[test]
fn other_incoming_events_change_nothing() {
    let mut store = SensorMap::new();
    let a = ingest_step(&mut store, BrokerEvent::OtherIncoming, 1);
    assert!(matches!(a, LoopAction::Continue));
    assert_eq!(store.snapshot().len(), 0);
}

#[test]
fn with_parsed_upserts_under_the_given_time() {
    let mut store = SensorMap::new();
    with_parsed("home/sensor/x/device", REPORT, &mut store, 777);
    let snap = store.snapshot();
    assert_eq!(snap.len(), 1);
    assert_eq!(snap[0].0, "kitchen");
    assert_eq!(snap[0].1.observed_at, 777);
    assert!(matches!(snap[0].1.value, SensorValue::Report(_)));
}

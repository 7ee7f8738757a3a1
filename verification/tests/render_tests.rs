use mqtt_prometheus_relay::metrics::{push_metric, render};
use mqtt_prometheus_relay::store::SensorMap;
use mqtt_prometheus_relay::text::{i8_to_string, str_ends_with, u64_to_string};
use mqtt_prometheus_relay::types::{SensorData, SensorValue};

#[test]
fn push_metric_exact_line() {
    let mut buf = String::new();
    push_metric(&mut buf, "xiaomi_temperature_c", "AA:BB", "21.5");
    assert_eq!(buf, "xiaomi_temperature_c{address=\"AA:BB\"} 21.5\n");
}

#[test]
fn u64_to_string_exact() {
    assert_eq!(u64_to_string(0), "0");
    assert_eq!(u64_to_string(172), "172");
    assert_eq!(u64_to_string(1000), "1000");
    assert_eq!(u64_to_string(u64::MAX), "18446744073709551615");
}

#[test]
fn i8_to_string_exact() {
    assert_eq!(i8_to_string(0), "0");
    assert_eq!(i8_to_string(45), "45");
    assert_eq!(i8_to_string(-62), "-62");
    assert_eq!(i8_to_string(i8::MIN), "-128");
    assert_eq!(i8_to_string(i8::MAX), "127");
}

#[test]
fn str_ends_with_cases() {
    assert!(str_ends_with("home/sensor/x/status", "/status"));
    assert!(str_ends_with("/data", "/data"));
    assert!(!str_ends_with("data", "/data"));
    assert!(!str_ends_with("home/sensor/x/statusx", "/status"));
    assert!(!str_ends_with("", "/device"));
}

#[test]
fn render_reading_six_lines_in_order() {
    let mut store = SensorMap::new();
    store.upsert(
        "AA:BB".to_owned(),
        SensorValue::Data(SensorData {
            address: "AA:BB".to_owned(),
            temp_c: "21.5".to_owned(),
            temp_f: "70.7".to_owned(),
            humidity_pct: 45,
            voltage: "3.01".to_owned(),
            rssi: -62,
        }),
        1000,
    );
    let out = render(&mut store, 1010);
    let expected = "xiaomi_temperature_c{address=\"AA:BB\"} 21.5\n\
                    xiaomi_temperature_f{address=\"AA:BB\"} 70.7\n\
                    xiaomi_humidity_pct{address=\"AA:BB\"} 45\n\
                    xiaomi_battery_volts{address=\"AA:BB\"} 3.01\n\
                    xiaomi_rssi_dbm{address=\"AA:BB\"} -62\n\
                    xiaomi_update_time{address=\"AA:BB\"} 1000\n";
    assert_eq!(out, expected);
}

#[test]
fn render_two_entities_emits_both() {
    let mut store = SensorMap::new();
    store.upsert(
        "AA:BB".to_owned(),
        SensorValue::Data(SensorData {
            address: "AA:BB".to_owned(),
            temp_c: "21.5".to_owned(),
            temp_f: "70.7".to_owned(),
            humidity_pct: 45,
            voltage: "3.01".to_owned(),
            rssi: -62,
        }),
        1000,
    );
    store.upsert(
        "CC:DD".to_owned(),
        SensorValue::Data(SensorData {
            address: "CC:DD".to_owned(),
            temp_c: "19".to_owned(),
            temp_f: "66.2".to_owned(),
            humidity_pct: 50,
            voltage: "2.9".to_owned(),
            rssi: -70,
        }),
        1005,
    );
    let out = render(&mut store, 1010);
    assert!(out.contains("xiaomi_temperature_c{address=\"AA:BB\"} 21.5\n"));
    assert!(out.contains("xiaomi_temperature_c{address=\"CC:DD\"} 19\n"));
    assert_eq!(out.lines().count(), 12);
}

#[test]
fn render_empty_store_is_empty_text() {
    let mut store = SensorMap::new();
    assert_eq!(render(&mut store, 5), "");
}

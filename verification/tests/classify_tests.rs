use mqtt_prometheus_relay::ingest::{classify, ParseError};
use mqtt_prometheus_relay::types::SensorValue;

const READING: &[u8] =
    b"{\"address\":\"AA:BB\",\"temp_c\":21.5,\"temp_f\":70.7,\"humidity_pct\":45,\"voltage\":3.01,\"rssi\":-62}";

const REPORT: &[u8] = b"{\"device\":\"kitchen\",\"internal_temp_c\":30.2,\"current_time\":172}";

#[test]
fn classify_status_topic_reading() {
    let r = classify("home/sensor/x/status", READING).unwrap().unwrap();
    assert_eq!(r.0, "AA:BB");
    match r.1 {
        SensorValue::Data(d) => {
            assert_eq!(d.address, "AA:BB");
            assert_eq!(d.temp_c, "21.5");
            assert_eq!(d.temp_f, "70.7");
            assert_eq!(d.humidity_pct, 45);
            assert_eq!(d.voltage, "3.01");
            assert_eq!(d.rssi, -62);
        }
        SensorValue::Report(_) => panic!("status topic must yield a reading"),
    }
}

#[test]
fn classify_data_topic_reading() {
    let r = classify("home/sensor/x/y/data", READING).unwrap().unwrap();
    assert_eq!(r.0, "AA:BB");
    assert!(matches!(r.1, SensorValue::Data(_)));
}

#[test]
fn classify_device_topic_report() {
    let r = classify("home/sensor/x/device", REPORT).unwrap().unwrap();
    assert_eq!(r.0, "kitchen");
    match r.1 {
        SensorValue::Report(rep) => {
            assert_eq!(rep.device, "kitchen");
            assert_eq!(rep.internal_temp_c, "30.2");
            assert_eq!(rep.current_time, 172);
        }
        SensorValue::Data(_) => panic!("device topic must yield a status report"),
    }
}

#[test]
fn classify_unmatched_topic_ignored() {
    assert_eq!(classify("home/sensor/x/other", READING), Ok(None));
    assert_eq!(classify("home/sensor/x/statusx", READING), Ok(None));
    assert_eq!(classify("data", READING), Ok(None));
    assert_eq!(classify("", READING), Ok(None));
}

#[test]
fn classify_unmatched_topic_ignores_invalid_bytes() {
    assert_eq!(classify("home/anything", b"not json at all"), Ok(None));
    assert_eq!(classify("home/anything", &[0xff, 0xfe]), Ok(None));
}

#[test]
fn classify_invalid_json_is_error() {
    assert_eq!(
        classify("home/sensor/x/status", b"not json"),
        Err(ParseError::MalformedPayload)
    );
    assert_eq!(
        classify("home/sensor/x/device", b"[1,2]"),
        Err(ParseError::MalformedPayload)
    );
}

#[test]
fn classify_missing_field_is_error() {
    let missing_rssi =
        b"{\"address\":\"AA:BB\",\"temp_c\":21.5,\"temp_f\":70.7,\"humidity_pct\":45,\"voltage\":3.01}";
    assert_eq!(
        classify("home/sensor/x/status", missing_rssi),
        Err(ParseError::MalformedPayload)
    );
    let missing_device = b"{\"internal_temp_c\":30.2,\"current_time\":172}";
    assert_eq!(
        classify("home/sensor/x/device", missing_device),
        Err(ParseError::MalformedPayload)
    );
}

#[test]
fn classify_wrong_type_is_error() {
    let humidity_as_string =
        b"{\"address\":\"AA:BB\",\"temp_c\":21.5,\"temp_f\":70.7,\"humidity_pct\":\"45\",\"voltage\":3.01,\"rssi\":-62}";
    assert_eq!(
        classify("home/sensor/x/y/data", humidity_as_string),
        Err(ParseError::MalformedPayload)
    );
    let address_as_number =
        b"{\"address\":7,\"temp_c\":21.5,\"temp_f\":70.7,\"humidity_pct\":45,\"voltage\":3.01,\"rssi\":-62}";
    assert_eq!(
        classify("home/sensor/x/status", address_as_number),
        Err(ParseError::MalformedPayload)
    );
}

#[test]
fn classify_out_of_range_small_int_is_error() {
    let humidity_too_big =
        b"{\"address\":\"AA:BB\",\"temp_c\":21.5,\"temp_f\":70.7,\"humidity_pct\":200,\"voltage\":3.01,\"rssi\":-62}";
    assert_eq!(
        classify("home/sensor/x/status", humidity_too_big),
        Err(ParseError::MalformedPayload)
    );
    let humidity_fractional =
        b"{\"address\":\"AA:BB\",\"temp_c\":21.5,\"temp_f\":70.7,\"humidity_pct\":45.5,\"voltage\":3.01,\"rssi\":-62}";
    assert_eq!(
        classify("home/sensor/x/status", humidity_fractional),
        Err(ParseError::MalformedPayload)
    );
    let negative_current_time = b"{\"device\":\"kitchen\",\"internal_temp_c\":30.2,\"current_time\":-1}";
    assert_eq!(
        classify("home/sensor/x/device", negative_current_time),
        Err(ParseError::MalformedPayload)
    );
}

#[test]
fn classify_extra_fields_are_ignored() {
    let extra = b"{\"device\":\"kitchen\",\"internal_temp_c\":30.2,\"current_time\":172,\"spare\":true}";
    let r = classify("home/sensor/x/device", extra).unwrap().unwrap();
    assert_eq!(r.0, "kitchen");
}

#[test]
fn classify_integer_temperature_kept_as_its_text() {
    let integral =
        b"{\"address\":\"AA:BB\",\"temp_c\":21,\"temp_f\":70,\"humidity_pct\":45,\"voltage\":3,\"rssi\":-62}";
    let r = classify("home/sensor/x/status", integral).unwrap().unwrap();
    match r.1 {
        SensorValue::Data(d) => {
            assert_eq!(d.temp_c, "21");
            assert_eq!(d.temp_f, "70");
            assert_eq!(d.voltage, "3");
        }
        SensorValue::Report(_) => panic!("status topic must yield a reading"),
    }
}

//! Ingestion: classification of published messages by topic shape, routing
//! of classified observations into the store, and the state step of the
//! broker loop. The loop itself — polling the transport, performing the
//! returned action — is the unverified shell's job; every decision it takes
//! comes from `ingest_step`.

use crate::json::{
    field_i64, field_num_text, field_str, field_u64, json_doc, json_get_i64,
    json_get_num_text, json_get_str, json_get_u64, json_parse, JsonField,
};
use crate::store::SensorMap;
use crate::text::{ends_with_spec, str_ends_with};
use crate::types::{
    SensorData, SensorDataV, SensorReport, SensorReportV, SensorValue, SensorValueV, StoredEntryV,
};
use crate::RECOVERY_DELAY_SECS;
use vstd::prelude::*;

verus! {

/// The single error of classification: a matched topic shape whose payload
/// fails structured decoding.
#[derive(Debug, Clone, Copy, PartialEq, Eq)]
pub enum ParseError {
    MalformedPayload,
}

/// Topics whose payload is a sensor reading.
pub open spec fn is_reading_topic(t: Seq<char>) -> bool {
    ends_with_spec(t, "/data"@) || ends_with_spec(t, "/status"@)
}

/// Topics whose payload is a device status report.
pub open spec fn is_report_topic(t: Seq<char>) -> bool {
    !is_reading_topic(t) && ends_with_spec(t, "/device"@)
}

/// The integer under `key` when the document holds there an integer that
/// fits in `i8`.
pub open spec fn field_i8(m: Map<Seq<char>, JsonField>, key: Seq<char>) -> Option<int> {
    match field_i64(m, key) {
        Some(x) => if -128 <= x <= 127 {
            Some(x)
        } else {
            None
        },
        None => None,
    }
}

/// The reading decoded from a document's fields: every required field must
/// be present with the required type, extra fields are ignored.
pub open spec fn reading_of_fields(m: Map<Seq<char>, JsonField>) -> Option<SensorDataV> {
    if field_str(m, "address"@) is Some && field_num_text(m, "temp_c"@) is Some && field_num_text(
        m,
        "temp_f"@,
    ) is Some && field_i8(m, "humidity_pct"@) is Some && field_num_text(m, "voltage"@) is Some
        && field_i8(m, "rssi"@) is Some {
        Some(
            SensorDataV {
                address: field_str(m, "address"@)->Some_0,
                temp_c: field_num_text(m, "temp_c"@)->Some_0,
                temp_f: field_num_text(m, "temp_f"@)->Some_0,
                humidity_pct: field_i8(m, "humidity_pct"@)->Some_0,
                voltage: field_num_text(m, "voltage"@)->Some_0,
                rssi: field_i8(m, "rssi"@)->Some_0,
            },
        )
    } else {
        None
    }
}

/// The status report decoded from a document's fields: every required field
/// must be present with the required type, extra fields are ignored.
pub open spec fn report_of_fields(m: Map<Seq<char>, JsonField>) -> Option<SensorReportV> {
    if field_str(m, "device"@) is Some && field_num_text(m, "internal_temp_c"@) is Some
        && field_u64(m, "current_time"@) is Some {
        Some(
            SensorReportV {
                device: field_str(m, "device"@)->Some_0,
                internal_temp_c: field_num_text(m, "internal_temp_c"@)->Some_0,
                current_time: field_u64(m, "current_time"@)->Some_0,
            },
        )
    } else {
        None
    }
}

/// What classification yields for a topic and payload.
pub ghost enum ClassifyOutcome {
    /// The topic matches none of the recognized shapes; the payload is not
    /// even looked at.
    Ignored,
    /// The topic matches a shape but the payload fails structured decoding.
    Malformed,
    /// The identity the observation belongs to, and the observation.
    Observed(Seq<char>, SensorValueV),
}

/// The classification of one published message. The topic shape alone picks
/// the payload shape; the identity comes from the payload's own embedded
/// field (`address` for readings, `device` for status reports).
pub open spec fn classify_spec(topic: Seq<char>, payload: Seq<u8>) -> ClassifyOutcome {
    if is_reading_topic(topic) {
        match json_doc(payload) {
            Some(m) => match reading_of_fields(m) {
                Some(d) => ClassifyOutcome::Observed(d.address, SensorValueV::Data(d)),
                None => ClassifyOutcome::Malformed,
            },
            None => ClassifyOutcome::Malformed,
        }
    } else if is_report_topic(topic) {
        match json_doc(payload) {
            Some(m) => match report_of_fields(m) {
                Some(r) => ClassifyOutcome::Observed(r.device, SensorValueV::Report(r)),
                None => ClassifyOutcome::Malformed,
            },
            None => ClassifyOutcome::Malformed,
        }
    } else {
        ClassifyOutcome::Ignored
    }
}

/// Maps one published message to the entity it belongs to and a typed
/// observation; to `Ok(None)` when the topic matches no recognized shape;
/// and to an error when a matched shape's payload fails decoding.
pub fn classify(topic: &str, payload: &[u8]) -> (r: Result<
    Option<(String, SensorValue)>,
    ParseError,
>)
    ensures
        match classify_spec(topic@, payload@) {
            ClassifyOutcome::Ignored => r matches Ok(None),
            ClassifyOutcome::Malformed => r matches Err(ParseError::MalformedPayload),
            ClassifyOutcome::Observed(id, v) => r matches Ok(Some(p)) && p.0@ == id && p.1@ == v,
        },
{
    if str_ends_with(topic, "/data") || str_ends_with(topic, "/status") {
        let doc = match json_parse(payload) {
            Some(doc) => doc,
            None => { return Err(ParseError::MalformedPayload) },
        };
        let address = match json_get_str(&doc, "address") {
            Some(s) => s,
            None => { return Err(ParseError::MalformedPayload) },
        };
        let temp_c = match json_get_num_text(&doc, "temp_c") {
            Some(s) => s,
            None => { return Err(ParseError::MalformedPayload) },
        };
        let temp_f = match json_get_num_text(&doc, "temp_f") {
            Some(s) => s,
            None => { return Err(ParseError::MalformedPayload) },
        };
        let humidity_raw = match json_get_i64(&doc, "humidity_pct") {
            Some(x) => x,
            None => { return Err(ParseError::MalformedPayload) },
        };
        if humidity_raw < -128 || humidity_raw > 127 {
            return Err(ParseError::MalformedPayload);
        }
        let voltage = match json_get_num_text(&doc, "voltage") {
            Some(s) => s,
            None => { return Err(ParseError::MalformedPayload) },
        };
        let rssi_raw = match json_get_i64(&doc, "rssi") {
            Some(x) => x,
            None => { return Err(ParseError::MalformedPayload) },
        };
        if rssi_raw < -128 || rssi_raw > 127 {
            return Err(ParseError::MalformedPayload);
        }
        let identity = address.clone();
        let data = SensorData {
            address,
            temp_c,
            temp_f,
            humidity_pct: humidity_raw as i8,
            voltage,
            rssi: rssi_raw as i8,
        };
        Ok(Some((identity, SensorValue::Data(data))))
    } else if str_ends_with(topic, "/device") {
        let doc = match json_parse(payload) {
            Some(doc) => doc,
            None => { return Err(ParseError::MalformedPayload) },
        };
        let device = match json_get_str(&doc, "device") {
            Some(s) => s,
            None => { return Err(ParseError::MalformedPayload) },
        };
        let internal_temp_c = match json_get_num_text(&doc, "internal_temp_c") {
            Some(s) => s,
            None => { return Err(ParseError::MalformedPayload) },
        };
        let current_time = match json_get_u64(&doc, "current_time") {
            Some(x) => x,
            None => { return Err(ParseError::MalformedPayload) },
        };
        let identity = device.clone();
        let report = SensorReport { device, internal_temp_c, current_time };
        Ok(Some((identity, SensorValue::Report(report))))
    } else {
        Ok(None)
    }
}

/// Routes one published message: a classified observation is upserted under
/// the current wall-clock second `now`; an unrecognized topic or a malformed
/// payload leaves the store unchanged.
pub fn with_parsed(topic: &str, payload: &[u8], store: &mut SensorMap, now: u64)
    ensures
        match classify_spec(topic@, payload@) {
            ClassifyOutcome::Observed(id, v) => final(store)@ == old(store)@.insert(
                id,
                StoredEntryV { value: v, observed_at: now as int },
            ),
            _ => final(store)@ == old(store)@,
        },
{
    match classify(topic, payload) {
        Ok(Some((identity, value))) => {
            store.upsert(identity, value, now);
        },
        Ok(None) => {},
        Err(_) => {},
    }
}

/// One event from the broker transport, as the loop sees it.
pub enum BrokerEvent {
    /// The broker acknowledged a (re)connection.
    ConnAck,
    /// An incoming published message: topic and raw payload.
    Publish(String, Vec<u8>),
    /// Any other recognized transport event.
    OtherIncoming,
    /// A transport-level error; the transport reconnects on its own.
    TransportError,
}

/// What the loop must do after a step, besides polling again.
pub enum LoopAction {
    /// Issue one subscription per listed topic filter.
    Subscribe(Vec<String>),
    /// Nothing; poll for the next event.
    Continue,
    /// Wait this many seconds before polling again.
    Wait(u64),
}

/// The three topic filters, one per recognized topic shape.
pub open spec fn subscription_filters_spec() -> Seq<Seq<char>> {
    seq!["home/sensor/+/status"@, "home/sensor/+/+/data"@, "home/sensor/+/device"@]
}

/// The three topic filters the loop subscribes to on every (re)connection.
pub fn subscription_filters() -> (r: Vec<String>)
    ensures
        r@.map_values(|s: String| s@) == subscription_filters_spec(),
{
    let mut v: Vec<String> = Vec::new();
    v.push("home/sensor/+/status".to_owned());
    v.push("home/sensor/+/+/data".to_owned());
    v.push("home/sensor/+/device".to_owned());
    proof {
        assert(v@.map_values(|s: String| s@) =~= subscription_filters_spec());
    }
    v
}

/// One step of the ingestion state machine: routes a publish into the store
/// under the current wall-clock second `now`, answers a connection
/// acknowledgement with the three subscriptions (they are not assumed to
/// persist across reconnects), and answers a transport error with a bounded,
/// non-zero recovery delay. No event ever ends the loop.
pub fn ingest_step(store: &mut SensorMap, event: BrokerEvent, now: u64) -> (a: LoopAction)
    ensures
        event matches BrokerEvent::ConnAck ==> final(store)@ == old(store)@ && (
        a matches LoopAction::Subscribe(fs) && fs@.map_values(|s: String| s@)
            == subscription_filters_spec()),
        event matches BrokerEvent::Publish(topic, payload) ==> a matches LoopAction::Continue
            && match classify_spec(topic@, payload@) {
            ClassifyOutcome::Observed(id, v) => final(store)@ == old(store)@.insert(
                id,
                StoredEntryV { value: v, observed_at: now as int },
            ),
            _ => final(store)@ == old(store)@,
        },
        event matches BrokerEvent::OtherIncoming ==> final(store)@ == old(store)@
            && a matches LoopAction::Continue,
        event matches BrokerEvent::TransportError ==> final(store)@ == old(store)@ && (
        a matches LoopAction::Wait(d) && d == RECOVERY_DELAY_SECS && d > 0),
{
    match event {
        BrokerEvent::ConnAck => LoopAction::Subscribe(subscription_filters()),
        BrokerEvent::Publish(topic, payload) => {
            with_parsed(topic.as_str(), payload.as_slice(), store, now);
            LoopAction::Continue
        },
        BrokerEvent::OtherIncoming => LoopAction::Continue,
        BrokerEvent::TransportError => LoopAction::Wait(RECOVERY_DELAY_SECS),
    }
}

} // verus!

//! Data model: the two observation shapes a device can report, the tagged
//! union over them, and the stored entry pairing an observation with the
//! wall-clock second at which it was accepted.
//!
//! Numeric sensor fields that the system only ever reports verbatim are held
//! as their decimal text, exactly as they appeared in the payload's number
//! token; small integer fields are held as integers.

use vstd::prelude::*;

verus! {

/// A sensor reading: the payload carries its own device address.
#[derive(Debug, Clone, PartialEq)]
pub struct SensorData {
    pub address: String,
    pub temp_c: String,
    pub temp_f: String,
    pub humidity_pct: i8,
    pub voltage: String,
    pub rssi: i8,
}

/// A device self-report: internal temperature and device-local clock.
#[derive(Debug, Clone, PartialEq)]
pub struct SensorReport {
    pub device: String,
    pub internal_temp_c: String,
    pub current_time: u64,
}

/// The tagged union over the two observation shapes; which variant applies
/// is decided once, by the topic shape, at classification time.
#[derive(Debug, Clone, PartialEq)]
pub enum SensorValue {
    Data(SensorData),
    Report(SensorReport),
}

/// An observation together with the ingestion wall-clock second (seconds
/// since the Unix epoch) at which it was accepted into the store.
#[derive(Debug, Clone, PartialEq)]
pub struct StoredEntry {
    pub value: SensorValue,
    pub observed_at: u64,
}

/// Mathematical image of `SensorData`.
pub ghost struct SensorDataV {
    pub address: Seq<char>,
    pub temp_c: Seq<char>,
    pub temp_f: Seq<char>,
    pub humidity_pct: int,
    pub voltage: Seq<char>,
    pub rssi: int,
}

/// Mathematical image of `SensorReport`.
pub ghost struct SensorReportV {
    pub device: Seq<char>,
    pub internal_temp_c: Seq<char>,
    pub current_time: int,
}

/// Mathematical image of `SensorValue`.
pub ghost enum SensorValueV {
    Data(SensorDataV),
    Report(SensorReportV),
}

/// Mathematical image of `StoredEntry`.
pub ghost struct StoredEntryV {
    pub value: SensorValueV,
    pub observed_at: int,
}

impl View for SensorData {
    type V = SensorDataV;

    open spec fn view(&self) -> SensorDataV {
        SensorDataV {
            address: self.address@,
            temp_c: self.temp_c@,
            temp_f: self.temp_f@,
            humidity_pct: self.humidity_pct as int,
            voltage: self.voltage@,
            rssi: self.rssi as int,
        }
    }
}

impl View for SensorReport {
    type V = SensorReportV;

    open spec fn view(&self) -> SensorReportV {
        SensorReportV {
            device: self.device@,
            internal_temp_c: self.internal_temp_c@,
            current_time: self.current_time as int,
        }
    }
}

impl View for SensorValue {
    type V = SensorValueV;

    open spec fn view(&self) -> SensorValueV {
        match *self {
            SensorValue::Data(ref d) => SensorValueV::Data(d@),
            SensorValue::Report(ref r) => SensorValueV::Report(r@),
        }
    }
}

impl View for StoredEntry {
    type V = StoredEntryV;

    open spec fn view(&self) -> StoredEntryV {
        StoredEntryV { value: self.value@, observed_at: self.observed_at as int }
    }
}

} // verus!

//! The renderer: turns the store into the scrape-response text. Stale
//! entries are pruned first, then each live entity contributes one metric
//! line per scalar field of its observation, tagged with the entity identity
//! as a label. No entity ordering is guaranteed; within one entity the line
//! order is fixed.

use crate::store::{pruned, SensorMap};
use crate::text::{dec_str, int_dec_str, i8_to_string, u64_to_string};
use crate::types::{SensorDataV, SensorReportV, SensorValue, SensorValueV, StoredEntry, StoredEntryV};
use crate::STALE_THRESHOLD_SECS;
use vstd::prelude::*;
use vstd::string::StringExecFns;

verus! {

/// One exposition-format line: `name{address="identity"} value` and a
/// newline.
pub open spec fn metric_line(name: Seq<char>, address: Seq<char>, value: Seq<char>) -> Seq<char> {
    name + "{address=\""@ + address + "\"} "@ + value + "\n"@
}

/// The six lines of a sensor reading, in their fixed order.
pub open spec fn reading_lines(address: Seq<char>, d: SensorDataV, observed_at: int) -> Seq<
    char,
> {
    metric_line("xiaomi_temperature_c"@, address, d.temp_c) + metric_line(
        "xiaomi_temperature_f"@,
        address,
        d.temp_f,
    ) + metric_line("xiaomi_humidity_pct"@, address, int_dec_str(d.humidity_pct)) + metric_line(
        "xiaomi_battery_volts"@,
        address,
        d.voltage,
    ) + metric_line("xiaomi_rssi_dbm"@, address, int_dec_str(d.rssi)) + metric_line(
        "xiaomi_update_time"@,
        address,
        dec_str(observed_at),
    )
}

/// The two lines of a device status report, in their fixed order.
pub open spec fn report_lines(address: Seq<char>, r: SensorReportV) -> Seq<char> {
    metric_line("xiaomi_internal_temp_c"@, address, r.internal_temp_c) + metric_line(
        "xiaomi_internal_uptime"@,
        address,
        dec_str(r.current_time),
    )
}

/// The lines of one stored entry.
pub open spec fn entry_lines(address: Seq<char>, e: StoredEntryV) -> Seq<char> {
    match e.value {
        SensorValueV::Data(d) => reading_lines(address, d, e.observed_at),
        SensorValueV::Report(r) => report_lines(address, r),
    }
}

/// The whole response text for a sequence of entries, in the sequence's
/// order.
pub open spec fn render_lines(entries: Seq<(Seq<char>, StoredEntryV)>) -> Seq<char>
    decreases entries.len(),
{
    if entries.len() == 0 {
        Seq::empty()
    } else {
        render_lines(entries.drop_last()) + entry_lines(entries.last().0, entries.last().1)
    }
}

/// `entries` enumerates exactly the entries of `m`, each once, in some
/// order.
pub open spec fn enumerates(entries: Seq<(Seq<char>, StoredEntryV)>, m: Map<Seq<char>, StoredEntryV>) -> bool {
    &&& forall|i: int|
        0 <= i < entries.len() ==> m.dom().contains(#[trigger] entries[i].0) && m[entries[i].0]
            == entries[i].1
    &&& forall|k: Seq<char>|
        m.dom().contains(k) ==> exists|i: int| 0 <= i < entries.len() && #[trigger] entries[i].0
            == k
    &&& forall|i: int, j: int| 0 <= i < j < entries.len() ==> entries[i].0 != entries[j].0
}

/// Presence law: the lines of each entry of an enumeration stand in the
/// rendered text — the text splits as some prefix, the entry's lines, and
/// some suffix. With `enumerates`, every live entity is in this sense
/// present in a render.
pub proof fn lemma_entry_lines_in_render(entries: Seq<(Seq<char>, StoredEntryV)>, i: int)
    requires
        0 <= i < entries.len(),
    ensures
        exists|a: Seq<char>, b: Seq<char>|
            render_lines(entries) == a + entry_lines(entries[i].0, entries[i].1) + b,
    decreases entries.len(),
{
    let lines = entry_lines(entries[i].0, entries[i].1);
    if i == entries.len() - 1 {
        let a = render_lines(entries.drop_last());
        let b = Seq::<char>::empty();
        assert(render_lines(entries) =~= a + lines + b);
    } else {
        lemma_entry_lines_in_render(entries.drop_last(), i);
        let front = entries.drop_last();
        let (a, b) = choose|a: Seq<char>, b: Seq<char>|
            render_lines(front) == a + entry_lines(front[i].0, front[i].1) + b;
        assert(front[i] == entries[i]);
        let b2 = b + entry_lines(entries.last().0, entries.last().1);
        assert(render_lines(entries) =~= a + lines + b2);
    }
}

/// Appends one exposition-format line to `buf`.
pub fn push_metric(buf: &mut String, name: &str, address: &str, value: &str)
    ensures
        final(buf)@ == old(buf)@ + metric_line(name@, address@, value@),
{
    buf.append(name);
    buf.append("{address=\"");
    buf.append(address);
    buf.append("\"} ");
    buf.append(value);
    buf.append("\n");
    proof {
        assert(old(buf)@ + metric_line(name@, address@, value@) =~= ((((old(buf)@ + name@)
            + "{address=\""@) + address@) + "\"} "@ + value@) + "\n"@);
    }
}

/// Appends the lines of one stored entry to `buf`.
fn push_entry(buf: &mut String, address: &str, entry: &StoredEntry)
    ensures
        final(buf)@ == old(buf)@ + entry_lines(address@, entry@),
{
    match &entry.value {
        SensorValue::Data(d) => {
            let humidity = i8_to_string(d.humidity_pct);
            let rssi = i8_to_string(d.rssi);
            let update_time = u64_to_string(entry.observed_at);
            push_metric(buf, "xiaomi_temperature_c", address, d.temp_c.as_str());
            push_metric(buf, "xiaomi_temperature_f", address, d.temp_f.as_str());
            push_metric(buf, "xiaomi_humidity_pct", address, humidity.as_str());
            push_metric(buf, "xiaomi_battery_volts", address, d.voltage.as_str());
            push_metric(buf, "xiaomi_rssi_dbm", address, rssi.as_str());
            push_metric(buf, "xiaomi_update_time", address, update_time.as_str());
            proof {
                assert(final(buf)@ =~= old(buf)@ + entry_lines(address@, entry@));
            }
        },
        SensorValue::Report(r) => {
            let uptime = u64_to_string(r.current_time);
            push_metric(buf, "xiaomi_internal_temp_c", address, r.internal_temp_c.as_str());
            push_metric(buf, "xiaomi_internal_uptime", address, uptime.as_str());
            proof {
                assert(final(buf)@ =~= old(buf)@ + entry_lines(address@, entry@));
            }
        },
    }
}

/// The response text for the given entries, in the given order.
pub fn render_entries(entries: &Vec<(String, StoredEntry)>) -> (r: String)
    ensures
        r@ == render_lines(entries@.map_values(|p: (String, StoredEntry)| (p.0@, p.1@))),
{
    let ghost view_entries = entries@.map_values(|p: (String, StoredEntry)| (p.0@, p.1@));
    let mut buf = String::new();
    let mut i: usize = 0;
    while i < entries.len()
        invariant
            i <= entries.len(),
            view_entries == entries@.map_values(|p: (String, StoredEntry)| (p.0@, p.1@)),
            buf@ == render_lines(view_entries.take(i as int)),
        decreases entries.len() - i,
    {
        let pair = &entries[i];
        push_entry(&mut buf, pair.0.as_str(), &pair.1);
        proof {
            assert(view_entries.take(i + 1 as int).drop_last() =~= view_entries.take(i as int));
            assert(view_entries.take(i + 1 as int).last() == view_entries[i as int]);
        }
        i += 1;
    }
    proof {
        assert(view_entries.take(entries@.len() as int) =~= view_entries);
    }
    buf
}

/// Renders the store at wall-clock second `now`: prunes every entry that is
/// `STALE_THRESHOLD_SECS` or more seconds old, then emits the lines of each
/// surviving entry, in some enumeration order of the store. Every entity in
/// the output is fresh at `now`; stale entries are removed from the store
/// itself, not merely hidden.
pub fn render(store: &mut SensorMap, now: u64) -> (r: String)
    ensures
        final(store)@ == pruned(old(store)@, now as int, STALE_THRESHOLD_SECS as int),
        exists|entries: Seq<(Seq<char>, StoredEntryV)>|
            enumerates(entries, final(store)@) && r@ == render_lines(entries),
{
    store.prune_stale(now, STALE_THRESHOLD_SECS);
    let snap = store.snapshot();
    let r = render_entries(&snap);
    proof {
        let entries = snap@.map_values(|p: (String, StoredEntry)| (p.0@, p.1@));
        assert forall|i: int| 0 <= i < entries.len() implies store@.dom().contains(
            #[trigger] entries[i].0,
        ) && store@[entries[i].0] == entries[i].1 by {
            assert(entries[i] == (snap@[i].0@, snap@[i].1@));
        };
        assert forall|k: Seq<char>| store@.dom().contains(k) implies exists|i: int|
            0 <= i < entries.len() && #[trigger] entries[i].0 == k by {
            let i = choose|i: int| 0 <= i < snap@.len() && #[trigger] snap@[i].0@ == k;
            assert(entries[i] == (snap@[i].0@, snap@[i].1@));
            assert(entries[i].0 == k);
        };
        assert forall|i: int, j: int| 0 <= i < j < entries.len() implies entries[i].0
            != entries[j].0 by {
            assert(entries[i] == (snap@[i].0@, snap@[i].1@));
            assert(entries[j] == (snap@[j].0@, snap@[j].1@));
        };
        assert(enumerates(entries, store@));
    }
    r
}

} // verus!

//! Reconciling observed traffic with the quotas of the endpoints.
//!
//! Once per tick the poller asks the engine, for every enabled record, how
//! many bytes went up and down since the last question. This module decides
//! what follows from the answers: the new counters, whether the record has
//! reached its quota and is switched off, and whether the configuration has
//! to be built again. Asking, storing and waiting are the caller's part.

use crate::inbound::Inbound;
use crate::stats::{parse_stat_output, stat_value};
use crate::text::concat;
use vstd::prelude::*;

verus! {

/// Address of the engine's control interface.
pub const CONTROL_SERVER: &'static str = "127.0.0.1:10085";

/// Direction of traffic through an endpoint.
#[derive(Debug, Clone, Copy, PartialEq, Eq, Structural)]
pub enum Direction {
    Uplink,
    Downlink,
}

impl Direction {
    /// The direction as the engine's statistics name it.
    pub open spec fn text(self) -> Seq<char> {
        match self {
            Direction::Uplink => "uplink"@,
            Direction::Downlink => "downlink"@,
        }
    }

    /// The direction as the engine's statistics name it.
    pub fn name(self) -> (name: &'static str)
        ensures
            name@ == self.text(),
    {
        match self {
            Direction::Uplink => "uplink",
            Direction::Downlink => "downlink",
        }
    }
}

/// The name of the counter for one direction of one endpoint:
/// `inbound>>>{tag}>>>traffic>>>{direction}`.
pub open spec fn stat_name_text(tag: Seq<char>, direction: Direction) -> Seq<char> {
    "inbound>>>"@ + tag + ">>>traffic>>>"@ + direction.text()
}

/// The name of the counter for one direction of one endpoint.
pub fn stat_name(tag: &str, direction: Direction) -> (name: String)
    ensures
        name@ == stat_name_text(tag@, direction),
{
    let mut name = concat("inbound>>>", tag);
    name.append(">>>traffic>>>");
    name.append(direction.name());
    name
}

/// The arguments of the engine's command that reads one counter and resets
/// it: `api statsquery --server=127.0.0.1:10085 pattern={name} reset=true`.
pub open spec fn stats_query_texts(tag: Seq<char>, direction: Direction) -> Seq<Seq<char>> {
    seq![
        "api"@,
        "statsquery"@,
        "--server="@ + CONTROL_SERVER@,
        "pattern="@ + stat_name_text(tag, direction),
        "reset=true"@,
    ]
}

/// The arguments of the engine's command that reads one counter and resets
/// it.
pub fn stats_query_args(tag: &str, direction: Direction) -> (args: Vec<String>)
    ensures
        args@.map_values(|s: String| s@) == stats_query_texts(tag@, direction),
{
    let mut args: Vec<String> = Vec::new();
    args.push("api".to_owned());
    args.push("statsquery".to_owned());
    args.push(concat("--server=", CONTROL_SERVER));
    let name = stat_name(tag, direction);
    args.push(concat("pattern=", name.as_str()));
    args.push("reset=true".to_owned());
    assert(args@.map_values(|s: String| s@) =~= stats_query_texts(tag@, direction));
    args
}

/// The bytes that one query reports. A query that did not end well, an
/// output without a reading and a reading below zero all count as nothing.
pub open spec fn reading(ended_well: bool, output: Seq<char>) -> u64 {
    if ended_well && stat_value(output) > 0 {
        stat_value(output) as u64
    } else {
        0
    }
}

/// The bytes that one query reports: `ended_well` says whether the command
/// ran and ended with success, `output` is what it printed.
pub fn stat_reading(ended_well: bool, output: &str) -> (bytes: u64)
    ensures
        bytes == reading(ended_well, output@),
{
    if !ended_well {
        return 0;
    }
    let value = parse_stat_output(output);
    if value > 0 {
        value as u64
    } else {
        0
    }
}

/// What one tick changes in a record.
#[derive(Debug, Clone, Copy, PartialEq, Eq, Structural)]
pub struct TrafficUpdate {
    /// Bytes up, after the tick.
    pub up: u64,
    /// Bytes down, after the tick.
    pub down: u64,
    /// Whether the record is enabled after the tick.
    pub enable: bool,
    /// Whether the record has to be stored again.
    pub persist: bool,
    /// Whether this tick switched the record off.
    pub newly_disabled: bool,
}

/// A counter after `delta` more bytes. A counter that would pass the
/// largest value it can hold stays there.
pub open spec fn counted(counter: u64, delta: u64) -> u64 {
    if counter + delta > u64::MAX {
        u64::MAX
    } else {
        (counter + delta) as u64
    }
}

/// Whether traffic of `up` and `down` bytes has used up a quota of `total`
/// bytes. A quota of `0` is no quota and is never used up; a sum that lands
/// on the quota has used it up.
pub open spec fn quota_reached(up: u64, down: u64, total: u64) -> bool {
    total > 0 && up + down >= total
}

/// What a tick with the readings `uplink` and `downlink` changes in
/// `record`. Two readings of zero change nothing. Otherwise the counters
/// grow by the readings and the record is stored again; it stays enabled
/// only if it was and its quota is not used up.
pub open spec fn traffic_update(record: Inbound, uplink: u64, downlink: u64) -> TrafficUpdate {
    if uplink == 0 && downlink == 0 {
        TrafficUpdate {
            up: record.up,
            down: record.down,
            enable: record.enable,
            persist: false,
            newly_disabled: false,
        }
    } else {
        let up = counted(record.up, uplink);
        let down = counted(record.down, downlink);
        let reached = quota_reached(up, down, record.total);
        TrafficUpdate {
            up,
            down,
            enable: record.enable && !reached,
            persist: true,
            newly_disabled: record.enable && reached,
        }
    }
}

/// Whether a quota of `total` bytes is used up by `up` and `down` bytes.
pub fn is_quota_reached(up: u64, down: u64, total: u64) -> (reached: bool)
    ensures
        reached == quota_reached(up, down, total),
{
    total > 0 && up as u128 + down as u128 >= total as u128
}

/// Decides what a tick with the readings `uplink` and `downlink` changes in
/// `record`.
pub fn account_traffic(record: &Inbound, uplink: u64, downlink: u64) -> (update: TrafficUpdate)
    ensures
        update == traffic_update(*record, uplink, downlink),
{
    if uplink == 0 && downlink == 0 {
        TrafficUpdate {
            up: record.up,
            down: record.down,
            enable: record.enable,
            persist: false,
            newly_disabled: false,
        }
    } else {
        let up = record.up.saturating_add(uplink);
        let down = record.down.saturating_add(downlink);
        let reached = is_quota_reached(up, down, record.total);
        TrafficUpdate {
            up,
            down,
            enable: record.enable && !reached,
            persist: true,
            newly_disabled: record.enable && reached,
        }
    }
}

/// The flag of a record after the outcome of a tick is written into it. The
/// write only ever switches a record off: a record that is disabled when
/// the write arrives stays so, whatever the tick saw when it began.
pub open spec fn written_enable(current: bool, update: TrafficUpdate) -> bool {
    current && update.enable
}

/// Writes the outcome of a tick into the record. The counters are taken
/// over; the flag goes from enabled to disabled or stays as it is.
pub fn apply_update(record: &mut Inbound, update: &TrafficUpdate)
    ensures
        final(record).up == update.up,
        final(record).down == update.down,
        final(record).enable == written_enable(old(record).enable, *update),
        final(record).total == old(record).total,
        final(record).id == old(record).id,
        final(record).tag == old(record).tag,
        final(record).protocol == old(record).protocol,
        final(record).port == old(record).port,
        final(record).listen == old(record).listen,
        final(record).settings == old(record).settings,
        final(record).stream_settings == old(record).stream_settings,
        final(record).sniffing == old(record).sniffing,
        final(record).allocate == old(record).allocate,
        final(record).remark == old(record).remark,
{
    record.up = update.up;
    record.down = update.down;
    record.enable = record.enable && update.enable;
}

/// Writing the outcome of a tick never switches a record on: whatever the
/// tick decided, and on whatever record it decided it, a record that is
/// disabled when the write arrives is disabled after it.
pub proof fn lemma_write_is_one_way(
    current: bool,
    loaded: Inbound,
    uplink: u64,
    downlink: u64,
)
    ensures
        written_enable(current, traffic_update(loaded, uplink, downlink)) ==> current,
        !current ==> !written_enable(current, traffic_update(loaded, uplink, downlink)),
{
}

/// Whether any record was switched off during the tick.
pub open spec fn any_newly_disabled(updates: Seq<TrafficUpdate>) -> bool {
    exists|i: int| 0 <= i < updates.len() && (#[trigger] updates[i]).newly_disabled
}

/// Whether the configuration has to be built again after a tick: it has,
/// once and for the whole tick, if any record was switched off.
pub fn needs_reapply(updates: &Vec<TrafficUpdate>) -> (needed: bool)
    ensures
        needed == any_newly_disabled(updates@),
{
    let mut i: usize = 0;
    while i < updates.len()
        invariant
            i <= updates@.len(),
            forall|j: int| 0 <= j < i ==> !(#[trigger] updates@[j]).newly_disabled,
        decreases updates@.len() - i,
    {
        if updates[i].newly_disabled {
            return true;
        }
        i += 1;
    }
    false
}

/// The reading for the record at `i`; a record without a reading counts as
/// one that was read as zero in both directions.
pub open spec fn reading_at(readings: Seq<(u64, u64)>, i: int) -> (u64, u64) {
    if 0 <= i < readings.len() {
        readings[i]
    } else {
        (0, 0)
    }
}

/// The updates of a whole tick: `readings[i]` holds the bytes up and down
/// that were read for `records[i]`.
pub open spec fn tick_updates(records: Seq<Inbound>, readings: Seq<(u64, u64)>) -> Seq<
    TrafficUpdate,
> {
    Seq::new(
        records.len(),
        |i: int| traffic_update(records[i], reading_at(readings, i).0, reading_at(readings, i).1),
    )
}

/// Decides a whole tick at once, for callers that hold every reading: the
/// update of each record, and whether the configuration has to be built
/// again.
pub fn reconcile(records: &Vec<Inbound>, readings: &Vec<(u64, u64)>) -> (plan: (
    Vec<TrafficUpdate>,
    bool,
))
    ensures
        plan.0@ == tick_updates(records@, readings@),
        plan.1 == any_newly_disabled(plan.0@),
{
    let mut updates: Vec<TrafficUpdate> = Vec::new();
    let mut i: usize = 0;
    while i < records.len()
        invariant
            i <= records@.len(),
            updates@.len() == i,
            forall|j: int|
                0 <= j < i ==> #[trigger] updates@[j] == traffic_update(
                    records@[j],
                    reading_at(readings@, j).0,
                    reading_at(readings@, j).1,
                ),
        decreases records@.len() - i,
    {
        let reading: (u64, u64) = if i < readings.len() {
            readings[i]
        } else {
            (0, 0)
        };
        updates.push(account_traffic(&records[i], reading.0, reading.1));
        i += 1;
    }
    assert(updates@ =~= tick_updates(records@, readings@));
    let needed = needs_reapply(&updates);
    (updates, needed)
}

/// A record whose traffic reaches or passes its quota in a tick is switched
/// off by that tick.
pub proof fn lemma_quota_reached_disables(record: Inbound, uplink: u64, downlink: u64)
    requires
        record.enable,
        uplink > 0 || downlink > 0,
        record.total > 0,
        record.up + uplink + record.down + downlink >= record.total,
    ensures
        !traffic_update(record, uplink, downlink).enable,
        traffic_update(record, uplink, downlink).newly_disabled,
{
}

/// A record whose traffic stays below its quota after a tick stays enabled.
pub proof fn lemma_below_quota_stays_enabled(record: Inbound, uplink: u64, downlink: u64)
    requires
        record.enable,
        record.up + uplink + record.down + downlink < record.total,
    ensures
        traffic_update(record, uplink, downlink).enable,
        !traffic_update(record, uplink, downlink).newly_disabled,
{
}

/// A record without a quota is never switched off, whatever its traffic.
pub proof fn lemma_unlimited_never_disabled(record: Inbound, uplink: u64, downlink: u64)
    requires
        record.total == 0,
    ensures
        traffic_update(record, uplink, downlink).enable == record.enable,
        !traffic_update(record, uplink, downlink).newly_disabled,
{
}

/// A tick never switches a record on, and never lowers a counter.
pub proof fn lemma_tick_is_one_way(record: Inbound, uplink: u64, downlink: u64)
    ensures
        traffic_update(record, uplink, downlink).enable ==> record.enable,
        traffic_update(record, uplink, downlink).up >= record.up,
        traffic_update(record, uplink, downlink).down >= record.down,
{
}

} // verus!

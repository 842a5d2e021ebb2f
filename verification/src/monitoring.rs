//! The hardware sensor monitor: its sensor definitions, the translation of a
//! definition into a data-source query string, and the per-tick logic that
//! turns each definition's query outcome into exactly one bus event.
//!
//! Executing the query against the hardware telemetry source is the caller's
//! business; the logic here receives each query's outcome as a value, so one
//! definition's missing data or failed call never aborts the tick.

use vstd::prelude::*;

verus! {

use vstd::string::StringExecFns;

use crate::event_bus::{Event, EventBus, EventKind, Reading};
use crate::module::ModuleCtx;

/// The sensor classes the data source distinguishes.
#[derive(Clone, Copy, Debug, PartialEq, Eq, Structural)]
pub enum SensorType {
    Temperature,
    Load,
    Voltage,
    Clock,
    Fan,
    Flow,
    Control,
    Level,
}

/// How a definition's `query_name` is matched against sensor names: as the
/// whole name, or as a substring.
#[derive(Clone, Copy, Debug, PartialEq, Eq, Structural)]
pub enum MatchMode {
    Exact,
    Substring,
}

/// The data source's name for a sensor class, as it appears in a query.
pub open spec fn sensor_type_text(t: SensorType) -> Seq<char> {
    match t {
        SensorType::Temperature => "Temperature"@,
        SensorType::Load => "Load"@,
        SensorType::Voltage => "Voltage"@,
        SensorType::Clock => "Clock"@,
        SensorType::Fan => "Fan"@,
        SensorType::Flow => "Flow"@,
        SensorType::Control => "Control"@,
        SensorType::Level => "Level"@,
    }
}

impl SensorType {
    pub fn as_str(self) -> (r: &'static str)
        ensures
            r@ == sensor_type_text(self),
    {
        match self {
            SensorType::Temperature => "Temperature",
            SensorType::Load => "Load",
            SensorType::Voltage => "Voltage",
            SensorType::Clock => "Clock",
            SensorType::Fan => "Fan",
            SensorType::Flow => "Flow",
            SensorType::Control => "Control",
            SensorType::Level => "Level",
        }
    }
}

/// Configuration for one hardware sensor: how to query it and how to label
/// the readings. Immutable after construction.
#[derive(Clone, Debug)]
pub struct SensorConfig {
    pub category: String,
    pub name: String,
    pub unit: String,
    pub sensor_type: SensorType,
    pub query_name: String,
    pub match_mode: MatchMode,
}

impl SensorConfig {
    /// The labels copied into readings are never empty.
    pub open spec fn wf(&self) -> bool {
        &&& self.name@.len() > 0
        &&& self.unit@.len() > 0
        &&& self.category@.len() > 0
    }
}

/// The query string owed for a definition, character for character:
/// `SELECT * FROM Sensor WHERE SensorType = '<type>' AND Name <op>
/// '<pattern>'`, where exact matching uses `=` with the literal name and
/// substring matching uses `LIKE` with the name between `%` wildcards.
pub open spec fn query_text(c: SensorConfig) -> Seq<char> {
    let head = "SELECT * FROM Sensor WHERE SensorType = '"@ + sensor_type_text(c.sensor_type);
    match c.match_mode {
        MatchMode::Exact => head + "' AND Name = '"@ + c.query_name@ + "'"@,
        MatchMode::Substring => head + "' AND Name LIKE '%"@ + c.query_name@ + "%"@ + "'"@,
    }
}

/// The message owed when a query returns no rows.
pub open spec fn no_data_text(query_name: Seq<char>) -> Seq<char> {
    "No data found for "@ + query_name + ". Is LibreHardwareMonitor running?"@
}

/// What one sensor query came back with: the matching rows' values (in the
/// data source's order, first match wins), or the rendered failure of the
/// call itself. Values are carried as raw bit patterns.
#[derive(Clone, Debug)]
pub enum QueryOutcome {
    Rows(Vec<u32>),
    Failed(String),
}

/// The event payload owed for one definition and one query outcome: a
/// reading from the first row on success, and otherwise a message — so a
/// failure is reported in-stream and never aborts anything.
pub open spec fn tick_event_matches(
    c: SensorConfig,
    o: QueryOutcome,
    now: u64,
    kind: EventKind,
) -> bool {
    match o {
        QueryOutcome::Failed(msg) => kind matches EventKind::Message(m) && m@ == msg@,
        QueryOutcome::Rows(rows) => if rows@.len() == 0 {
            kind matches EventKind::Message(m) && m@ == no_data_text(c.query_name@)
        } else {
            kind matches EventKind::Reading(r) && r.time == now && r.name@ == c.name@
                && r.value_bits == rows@[0] && r.unit@ == c.unit@ && r.category@ == c.category@
        },
    }
}

/// The three built-in sensor definitions, in order.
pub open spec fn is_default_sensors(s: Seq<SensorConfig>) -> bool {
    &&& s.len() == 3
    &&& s[0].category@ == "computer"@ && s[0].name@ == "CPU Temperature"@ && s[0].unit@ == "°C"@
        && s[0].sensor_type == SensorType::Temperature && s[0].query_name@ == "Core"@
        && s[0].match_mode == MatchMode::Substring
    &&& s[1].category@ == "computer"@ && s[1].name@ == "CPU Usage"@ && s[1].unit@ == "%"@
        && s[1].sensor_type == SensorType::Load && s[1].query_name@ == "CPU Total"@
        && s[1].match_mode == MatchMode::Exact
    &&& s[2].category@ == "computer"@ && s[2].name@ == "Memory Usage"@ && s[2].unit@ == "%"@
        && s[2].sensor_type == SensorType::Load && s[2].query_name@ == "Memory"@
        && s[2].match_mode == MatchMode::Exact
}

/// The hardware monitoring module: an ordered, fixed list of sensor
/// definitions and the context it publishes under. The connection to the
/// telemetry data source stays with the caller that runs the queries.
pub struct Monitoring {
    pub ctx: ModuleCtx,
    pub sensors: Vec<SensorConfig>,
    /// The clock value of the latest tick; ticks never go backwards, so
    /// readings of one definition carry non-decreasing timestamps.
    pub last_tick: u64,
}

impl Monitoring {
    pub open spec fn wf(&self) -> bool {
        &&& self.ctx.wf()
        &&& forall|k: int| 0 <= k < self.sensors@.len() ==> (#[trigger] self.sensors@[k]).wf()
    }

    /// A monitor over the built-in sensor definitions.
    pub fn new(ctx: ModuleCtx) -> (m: Monitoring)
        requires
            ctx.wf(),
        ensures
            m.wf(),
            m.ctx == ctx,
            is_default_sensors(m.sensors@),
            m.last_tick == 0,
    {
        Monitoring { ctx, sensors: Self::sensor_configs(), last_tick: 0 }
    }

    /// The built-in definitions: CPU temperature (any core, by substring),
    /// total CPU load and memory load (by exact name).
    pub fn sensor_configs() -> (s: Vec<SensorConfig>)
        ensures
            is_default_sensors(s@),
            forall|k: int| 0 <= k < s@.len() ==> (#[trigger] s@[k]).wf(),
    {
        let mut s: Vec<SensorConfig> = Vec::new();
        s.push(
            SensorConfig {
                category: String::from_str("computer"),
                name: String::from_str("CPU Temperature"),
                unit: String::from_str("°C"),
                sensor_type: SensorType::Temperature,
                query_name: String::from_str("Core"),
                match_mode: MatchMode::Substring,
            },
        );
        s.push(
            SensorConfig {
                category: String::from_str("computer"),
                name: String::from_str("CPU Usage"),
                unit: String::from_str("%"),
                sensor_type: SensorType::Load,
                query_name: String::from_str("CPU Total"),
                match_mode: MatchMode::Exact,
            },
        );
        s.push(
            SensorConfig {
                category: String::from_str("computer"),
                name: String::from_str("Memory Usage"),
                unit: String::from_str("%"),
                sensor_type: SensorType::Load,
                query_name: String::from_str("Memory"),
                match_mode: MatchMode::Exact,
            },
        );
        proof {
            reveal_strlit("computer");
            reveal_strlit("CPU Temperature");
            reveal_strlit("CPU Usage");
            reveal_strlit("Memory Usage");
            reveal_strlit("°C");
            reveal_strlit("%");
        }
        s
    }

    /// Build the data-source query for one definition, character for
    /// character as [`query_text`] states.
    pub fn build_query(config: &SensorConfig) -> (q: String)
        ensures
            q@ == query_text(*config),
    {
        let mut q = String::from_str("SELECT * FROM Sensor WHERE SensorType = '");
        q.append(config.sensor_type.as_str());
        match config.match_mode {
            MatchMode::Exact => {
                q.append("' AND Name = '");
                q.append(config.query_name.as_str());
            },
            MatchMode::Substring => {
                q.append("' AND Name LIKE '%");
                q.append(config.query_name.as_str());
                q.append("%");
            },
        }
        q.append("'");
        q
    }

    /// Turn one definition's query outcome into the event payload it is
    /// owed: the first returned row wins; no rows, or a failed call, yields
    /// a message and the tick goes on.
    pub fn fetch_event(config: &SensorConfig, outcome: &QueryOutcome, now: u64) -> (kind:
        EventKind)
        requires
            config.wf(),
        ensures
            tick_event_matches(*config, *outcome, now, kind),
            kind.wf(),
    {
        match outcome {
            QueryOutcome::Failed(msg) => EventKind::Message(msg.clone()),
            QueryOutcome::Rows(rows) => {
                if rows.len() == 0 {
                    let m = String::from_str("No data found for ").concat(
                        config.query_name.as_str(),
                    ).concat(". Is LibreHardwareMonitor running?");
                    EventKind::Message(m)
                } else {
                    EventKind::Reading(
                        Reading {
                            time: now,
                            category: config.category.clone(),
                            name: config.name.clone(),
                            unit: config.unit.clone(),
                            value_bits: rows[0],
                        },
                    )
                }
            },
        }
    }

    /// One tick: for every definition in order, independently, publish the
    /// event its query outcome is owed — exactly one event per definition,
    /// reading or message, with no early abort. Returns the published
    /// events, oldest first.
    pub fn tick(&mut self, bus: &mut EventBus, outcomes: &Vec<QueryOutcome>, now: u64) -> (published:
        Vec<Event>)
        requires
            old(self).wf(),
            old(bus).wf(),
            outcomes@.len() == old(self).sensors@.len(),
            now >= old(self).last_tick,
            old(bus)@.total() + outcomes@.len() <= usize::MAX,
        ensures
            final(self).wf(),
            final(self).ctx == old(self).ctx,
            final(self).sensors == old(self).sensors,
            final(self).last_tick == now,
            final(bus).wf(),
            final(bus)@ == old(bus)@.publish_seq(published@),
            published@.len() == outcomes@.len(),
            forall|k: int|
                0 <= k < published@.len() ==> (#[trigger] published@[k]).module@
                    == old(self).ctx.name@ && published@[k].wf() && tick_event_matches(
                    old(self).sensors@[k],
                    outcomes@[k],
                    now,
                    published@[k].inner,
                ),
    {
        let n = outcomes.len();
        let mut published: Vec<Event> = Vec::new();
        let mut k: usize = 0;
        while k < n
            invariant
                self == old(self),
                self.wf(),
                n == outcomes@.len(),
                n == self.sensors@.len(),
                k <= n,
                published@.len() == k,
                forall|j: int|
                    0 <= j < k ==> (#[trigger] published@[j]).module@ == self.ctx.name@
                        && published@[j].wf() && tick_event_matches(
                        self.sensors@[j],
                        outcomes@[j],
                        now,
                        published@[j].inner,
                    ),
            decreases n - k,
        {
            let kind = Self::fetch_event(&self.sensors[k], &outcomes[k], now);
            published.push(Event { module: self.ctx.name.clone(), inner: kind });
            k = k + 1;
        }
        bus.publish_all(&published);
        self.last_tick = now;
        published
    }
}

} // verus!

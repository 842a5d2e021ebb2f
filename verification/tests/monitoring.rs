use telemetry_agent::event_bus::{EventBus, EventKind, RecvResult};
use telemetry_agent::module::ModuleCtx;
use telemetry_agent::monitoring::{
    MatchMode, Monitoring, QueryOutcome, SensorConfig, SensorType,
};

fn config(
    name: &str,
    unit: &str,
    sensor_type: SensorType,
    query_name: &str,
    match_mode: MatchMode,
) -> SensorConfig {
    SensorConfig {
        category: "computer".to_string(),
        name: name.to_string(),
        unit: unit.to_string(),
        sensor_type,
        query_name: query_name.to_string(),
        match_mode,
    }
}

#[test]
fn build_query_exact() {
    let c = config("CPU Usage", "%", SensorType::Load, "CPU Total", MatchMode::Exact);
    assert_eq!(
        Monitoring::build_query(&c),
        "SELECT * FROM Sensor WHERE SensorType = 'Load' AND Name = 'CPU Total'"
    );
}

#[test]
fn build_query_substring() {
    let c = config(
        "CPU Temperature",
        "°C",
        SensorType::Temperature,
        "Core",
        MatchMode::Substring,
    );
    assert_eq!(
        Monitoring::build_query(&c),
        "SELECT * FROM Sensor WHERE SensorType = 'Temperature' AND Name LIKE '%Core%'"
    );
}

#[test]
fn build_query_all_sensor_types() {
    let kinds = [
        (SensorType::Temperature, "Temperature"),
        (SensorType::Load, "Load"),
        (SensorType::Voltage, "Voltage"),
        (SensorType::Clock, "Clock"),
        (SensorType::Fan, "Fan"),
        (SensorType::Flow, "Flow"),
        (SensorType::Control, "Control"),
        (SensorType::Level, "Level"),
    ];
    for (kind, label) in kinds {
        let c = config("X", "u", kind, "N", MatchMode::Exact);
        assert_eq!(
            Monitoring::build_query(&c),
            format!("SELECT * FROM Sensor WHERE SensorType = '{}' AND Name = 'N'", label)
        );
    }
}

#[test]
fn default_sensor_configs() {
    let s = Monitoring::sensor_configs();
    assert_eq!(s.len(), 3);
    assert_eq!(s[0].name, "CPU Temperature");
    assert_eq!(s[0].unit, "°C");
    assert_eq!(s[0].query_name, "Core");
    assert_eq!(s[0].sensor_type, SensorType::Temperature);
    assert_eq!(s[0].match_mode, MatchMode::Substring);
    assert_eq!(s[1].name, "CPU Usage");
    assert_eq!(s[1].unit, "%");
    assert_eq!(s[1].query_name, "CPU Total");
    assert_eq!(s[1].sensor_type, SensorType::Load);
    assert_eq!(s[1].match_mode, MatchMode::Exact);
    assert_eq!(s[2].name, "Memory Usage");
    assert_eq!(s[2].unit, "%");
    assert_eq!(s[2].query_name, "Memory");
    assert_eq!(s[2].sensor_type, SensorType::Load);
    assert_eq!(s[2].match_mode, MatchMode::Exact);
    for c in [&s[0], &s[1], &s[2]] {
        assert_eq!(c.category, "computer");
    }
}

#[test]
fn new_monitor_uses_default_sensors() {
    let mut bus = EventBus::new();
    let ctx = ModuleCtx::new("monitoring", &mut bus);
    let m = Monitoring::new(ctx);
    assert_eq!(m.sensors.len(), 3);
    assert_eq!(m.last_tick, 0);
    assert_eq!(m.ctx.name, "monitoring");
}

#[test]
fn partial_failure_isolation() {
    let mut bus = EventBus::new();
    let listener = bus.subscribe();
    let ctx = ModuleCtx::new("monitoring", &mut bus);
    let sensors = vec![
        config("CPU Usage", "%", SensorType::Load, "CPU Total", MatchMode::Exact),
        config("Memory Usage", "%", SensorType::Load, "Memory", MatchMode::Exact),
    ];
    let mut m = Monitoring { ctx, sensors, last_tick: 0 };
    let outcomes = vec![
        QueryOutcome::Rows(vec![55.5f32.to_bits()]),
        QueryOutcome::Rows(vec![]),
    ];
    let published = m.tick(&mut bus, &outcomes, 1000);
    // exactly one reading and one failure message, in definition order
    assert_eq!(published.len(), 2);
    let mut readings = 0;
    let mut messages = 0;
    match bus.recv(listener) {
        RecvResult::Received(e) => {
            assert_eq!(e.module, "monitoring");
            match e.inner {
                EventKind::Reading(r) => {
                    readings += 1;
                    assert_eq!(r.name, "CPU Usage");
                    assert_eq!(f32::from_bits(r.value_bits), 55.5);
                    assert_eq!(r.time, 1000);
                }
                EventKind::Message(m) => panic!("first definition should succeed, got {}", m),
            }
        }
        _ => panic!("expected the reading"),
    }
    match bus.recv(listener) {
        RecvResult::Received(e) => {
            assert_eq!(e.module, "monitoring");
            match e.inner {
                EventKind::Message(text) => {
                    messages += 1;
                    assert_eq!(text, "No data found for Memory. Is LibreHardwareMonitor running?");
                }
                EventKind::Reading(_) => panic!("second definition returned no rows"),
            }
        }
        _ => panic!("expected the failure message"),
    }
    // the tick emitted nothing else: it neither aborted early nor doubled up
    assert!(matches!(bus.recv(listener), RecvResult::Empty));
    assert_eq!((readings, messages), (1, 1));
}

#[test]
fn failed_query_call_is_reported_in_stream() {
    let mut bus = EventBus::new();
    let listener = bus.subscribe();
    let ctx = ModuleCtx::new("monitoring", &mut bus);
    let sensors = vec![config("CPU Usage", "%", SensorType::Load, "CPU Total", MatchMode::Exact)];
    let mut m = Monitoring { ctx, sensors, last_tick: 0 };
    let outcomes = vec![QueryOutcome::Failed("Failed to query sensor data".to_string())];
    let published = m.tick(&mut bus, &outcomes, 5);
    assert_eq!(published.len(), 1);
    match bus.recv(listener) {
        RecvResult::Received(e) => match e.inner {
            EventKind::Message(text) => assert_eq!(text, "Failed to query sensor data"),
            EventKind::Reading(_) => panic!("a failed call must not yield a reading"),
        },
        _ => panic!("expected the failure message"),
    }
}

#[test]
fn first_row_wins() {
    let mut bus = EventBus::new();
    let listener = bus.subscribe();
    let ctx = ModuleCtx::new("monitoring", &mut bus);
    let sensors = vec![
        config("CPU Temperature", "°C", SensorType::Temperature, "Core", MatchMode::Substring),
    ];
    let mut m = Monitoring { ctx, sensors, last_tick: 0 };
    let outcomes = vec![QueryOutcome::Rows(vec![
        61.0f32.to_bits(),
        59.5f32.to_bits(),
        64.25f32.to_bits(),
    ])];
    m.tick(&mut bus, &outcomes, 7);
    match bus.recv(listener) {
        RecvResult::Received(e) => match e.inner {
            EventKind::Reading(r) => assert_eq!(f32::from_bits(r.value_bits), 61.0),
            EventKind::Message(m) => panic!("expected a reading, got {}", m),
        },
        _ => panic!("expected the reading"),
    }
}

#[test]
fn tick_timestamps_do_not_go_backwards() {
    let mut bus = EventBus::new();
    let listener = bus.subscribe();
    let ctx = ModuleCtx::new("monitoring", &mut bus);
    let sensors = vec![config("CPU Usage", "%", SensorType::Load, "CPU Total", MatchMode::Exact)];
    let mut m = Monitoring { ctx, sensors, last_tick: 0 };
    let one_row = vec![QueryOutcome::Rows(vec![10.0f32.to_bits()])];
    m.tick(&mut bus, &one_row, 100);
    assert_eq!(m.last_tick, 100);
    m.tick(&mut bus, &one_row, 250);
    assert_eq!(m.last_tick, 250);
    let mut times = Vec::new();
    while let RecvResult::Received(e) = bus.recv(listener) {
        if let EventKind::Reading(r) = e.inner {
            times.push(r.time);
        }
    }
    assert_eq!(times, vec![100, 250]);
}

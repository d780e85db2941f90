use llmtrain_monitor::logtail::LogReport;
use llmtrain_monitor::snapshot::{
    accelerator_row, accelerator_rows, build_snapshot, DeviceReading, HostReading, MemoryReading,
    MemoryUsage, ProcessUsage, TickError,
};

fn host(cpu: u64, used: u64, total: u64) -> Option<HostReading> {
    Some(HostReading {
        cpu_hundredths: cpu,
        memory: MemoryReading { used_bytes: used, total_bytes: total },
    })
}

fn no_log() -> LogReport {
    LogReport { metrics: Vec::new(), open_failed: false }
}

#[test]
fn memory_usage_keeps_a_consistent_pair() {
    let m = MemoryUsage::new(3, 8);
    assert_eq!(m.used_bytes(), 3);
    assert_eq!(m.total_bytes(), 8);
    let m = MemoryUsage::new(8, 8);
    assert_eq!(m.used_bytes(), 8);
}

#[test]
fn memory_usage_cuts_an_excess_down_to_the_total() {
    let m = MemoryUsage::new(9, 8);
    assert_eq!(m.used_bytes(), 8);
    assert_eq!(m.total_bytes(), 8);
    let m = MemoryUsage::new(u64::MAX, 0);
    assert_eq!(m.used_bytes(), 0);
    assert_eq!(m.total_bytes(), 0);
}

#[test]
fn missing_host_reading_fails_the_tick() {
    let r = build_snapshot(None, None, &Vec::new(), no_log());
    assert_eq!(r.err(), Some(TickError::HostProbeFailed));
    let devices = vec![DeviceReading {
        utilization_percent: Some(1),
        memory: None,
        temperature_celsius: None,
    }];
    let r = build_snapshot(
        None,
        Some(devices),
        &vec![ProcessUsage { cpu_hundredths: 1, memory_bytes: 1 }],
        no_log(),
    );
    assert_eq!(r.err(), Some(TickError::HostProbeFailed));
}

#[test]
fn snapshot_memory_never_exceeds_total() {
    let devices = vec![
        DeviceReading {
            utilization_percent: Some(50),
            memory: Some(MemoryReading { used_bytes: 500, total_bytes: 400 }),
            temperature_celsius: Some(60),
        },
        DeviceReading {
            utilization_percent: None,
            memory: Some(MemoryReading { used_bytes: 100, total_bytes: 400 }),
            temperature_celsius: None,
        },
    ];
    let s = build_snapshot(host(1234, 900, 800), Some(devices), &Vec::new(), no_log()).unwrap();
    assert_eq!(s.memory().used_bytes(), 800);
    assert_eq!(s.memory().total_bytes(), 800);
    let rows = s.accelerators().unwrap();
    assert_eq!(rows.len(), 2);
    for row in rows.iter() {
        let m = row.memory.unwrap();
        assert!(m.used_bytes() <= m.total_bytes());
    }
    assert_eq!(rows[0].memory.unwrap().used_bytes(), 400);
    assert_eq!(rows[1].memory.unwrap().used_bytes(), 100);
}

#[test]
fn absent_process_leaves_the_field_empty() {
    let s = build_snapshot(host(10, 1, 2), None, &Vec::new(), no_log()).unwrap();
    assert_eq!(s.process(), None);
    assert_eq!(s.cpu_hundredths(), 10);
    assert!(s.accelerators().is_none());
}

#[test]
fn first_process_of_the_name_wins() {
    let candidates = vec![
        ProcessUsage { cpu_hundredths: 150, memory_bytes: 1000 },
        ProcessUsage { cpu_hundredths: 999, memory_bytes: 5 },
    ];
    let s = build_snapshot(host(10, 1, 2), None, &candidates, no_log()).unwrap();
    assert_eq!(s.process(), Some(ProcessUsage { cpu_hundredths: 150, memory_bytes: 1000 }));
}

#[test]
fn failed_device_queries_leave_partial_rows() {
    let reading = DeviceReading {
        utilization_percent: None,
        memory: None,
        temperature_celsius: Some(71),
    };
    let row = accelerator_row(3, &reading);
    assert_eq!(row.index, 3);
    assert_eq!(row.utilization_percent, None);
    assert_eq!(row.memory, None);
    assert_eq!(row.temperature_celsius, Some(71));
}

#[test]
fn rows_are_numbered_in_device_order() {
    let readings = vec![
        DeviceReading { utilization_percent: Some(1), memory: None, temperature_celsius: None },
        DeviceReading { utilization_percent: Some(2), memory: None, temperature_celsius: None },
        DeviceReading { utilization_percent: Some(3), memory: None, temperature_celsius: None },
    ];
    let rows = accelerator_rows(&readings);
    assert_eq!(rows.len(), 3);
    for (i, row) in rows.iter().enumerate() {
        assert_eq!(row.index, i);
        assert_eq!(row.utilization_percent, Some(i as u32 + 1));
    }
}

#[test]
fn present_subsystem_without_devices_gives_an_empty_list() {
    let s = build_snapshot(host(10, 1, 2), Some(Vec::new()), &Vec::new(), no_log()).unwrap();
    assert_eq!(s.accelerators().map(|rows| rows.len()), Some(0));
}

#[test]
fn every_combination_of_missing_sources_keeps_the_others() {
    let devices = vec![DeviceReading {
        utilization_percent: Some(7),
        memory: None,
        temperature_celsius: None,
    }];
    let process = vec![ProcessUsage { cpu_hundredths: 5, memory_bytes: 6 }];
    for with_devices in [false, true] {
        for with_process in [false, true] {
            for log_failed in [false, true] {
                let d = if with_devices { Some(devices.clone()) } else { None };
                let p = if with_process { process.clone() } else { Vec::new() };
                let log = LogReport { metrics: Vec::new(), open_failed: log_failed };
                let s = build_snapshot(host(4321, 10, 20), d, &p, log).unwrap();
                assert_eq!(s.cpu_hundredths(), 4321);
                assert_eq!(s.memory().used_bytes(), 10);
                assert_eq!(s.memory().total_bytes(), 20);
                assert_eq!(s.accelerators().is_some(), with_devices);
                assert_eq!(s.process().is_some(), with_process);
                assert_eq!(s.log_open_failed(), log_failed);
            }
        }
    }
}

#[test]
fn log_metrics_are_capped_at_ten() {
    let metrics: Vec<String> = (0..14).map(|i| format!("{}", i)).collect();
    let log = LogReport { metrics, open_failed: false };
    let s = build_snapshot(host(1, 1, 2), None, &Vec::new(), log).unwrap();
    let want: Vec<String> = (0..10).map(|i| format!("{}", i)).collect();
    assert_eq!(s.log_metrics(), &want);
}

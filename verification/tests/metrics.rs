use kacemon::metrics::cpu::CpuReading;
use kacemon::metrics::delta::Counters;
use kacemon::metrics::disk::DiskReading;
use kacemon::metrics::memory::MemoryReading;
use kacemon::metrics::network::NetworkReading;
use kacemon::metrics::process::{kill_outcome, ProcessReading, RawStatus};
use kacemon::metrics::system::SystemReading;
use kacemon::platform::PlatformKind;
use kacemon::metrics::temperature::SensorReading;
use kacemon::metrics::{
    CpuCollector, DeltaTracker, DiskCollector, MemoryCollector, NetworkCollector,
    ProcessCollector, Readings, SystemCollector, TemperatureCollector,
};
use kacemon::{
    CoreError, Fixed, MemoryInfo, MetricsCollector, ProcessState, SortKey, TemperatureInfo,
    TemperatureStatus,
};

fn counters(first: u64, second: u64) -> Counters {
    Counters { first, second }
}

fn fixed(thousandths: i64) -> Fixed {
    Fixed::from_thousandths(thousandths)
}

#[test]
fn test_metrics_collector_creation() {
    let collector = MetricsCollector::new(true);
    assert!(collector.memory.estimate_cache);
    assert!(collector.cpu.last_cores.is_empty());
}

#[test]
fn first_sight_of_a_key_gives_no_delta() {
    let mut tracker = DeltaTracker::new();
    assert_eq!(tracker.previous("sda"), None);
    assert_eq!(tracker.update("sda", counters(5000, 70)), counters(0, 0));
    assert_eq!(tracker.previous("sda"), Some(counters(5000, 70)));
}

#[test]
fn a_rising_counter_gives_its_increase() {
    let mut tracker = DeltaTracker::new();
    tracker.update("eth0", counters(100, 1000));
    assert_eq!(tracker.update("eth0", counters(150, 1000)), counters(50, 0));
    assert_eq!(tracker.update("eth0", counters(150, 4000)), counters(0, 3000));
    assert_eq!(tracker.update("eth0", counters(u64::MAX, 4001)), counters(u64::MAX - 150, 1));
}

#[test]
fn a_counter_that_fell_gives_zero() {
    let mut tracker = DeltaTracker::new();
    tracker.update("eth0", counters(1000, 1000));
    assert_eq!(tracker.update("eth0", counters(10, 2000)), counters(0, 1000));
    assert_eq!(tracker.update("eth0", counters(25, 0)), counters(15, 0));
}

#[test]
fn keys_are_tracked_apart() {
    let mut tracker = DeltaTracker::new();
    tracker.update("a", counters(10, 10));
    tracker.update("b", counters(500, 500));
    assert_eq!(tracker.update("a", counters(11, 12)), counters(1, 2));
    assert_eq!(tracker.update("b", counters(501, 502)), counters(1, 2));
    assert_eq!(tracker.update("", counters(9, 9)), counters(0, 0));
    assert_eq!(tracker.update("", counters(10, 9)), counters(1, 0));
}

#[test]
fn a_key_that_stayed_away_resumes_from_what_was_stored() {
    let mut tracker = DeltaTracker::new();
    tracker.update("usb0", counters(100, 100));
    tracker.update("eth0", counters(1, 1));
    tracker.update("eth0", counters(2, 2));
    assert_eq!(tracker.update("usb0", counters(150, 100)), counters(50, 0));
}

#[test]
fn record_stores_without_a_delta() {
    let mut tracker = DeltaTracker::new();
    tracker.record("sda", counters(7, 8));
    tracker.record("sda", counters(9, 10));
    assert_eq!(tracker.previous("sda"), Some(counters(9, 10)));
    assert_eq!(tracker.update("sda", counters(19, 10)), counters(10, 0));
}

fn disk(name: &str, total: u64, available: u64, read: u64, write: u64) -> DiskReading {
    DiskReading {
        name: name.to_string(),
        mount_point: format!("/mnt/{}", name),
        file_system: "ext4".to_string(),
        total_space: total,
        available_space: available,
        read_bytes: read,
        write_bytes: write,
    }
}

#[test]
fn disks_carry_their_deltas_from_poll_to_poll() {
    let mut collector = DiskCollector::new();
    let first = collector.collect(&vec![disk("sda", 1000, 400, 5000, 9000)]);
    assert_eq!(first.len(), 1);
    assert_eq!(first[0].name, "sda");
    assert_eq!(first[0].mount_point, "/mnt/sda");
    assert_eq!(first[0].file_system, "ext4");
    assert_eq!(first[0].total_space, 1000);
    assert_eq!(first[0].available_space, 400);
    assert_eq!(first[0].used_space, 600);
    assert_eq!(first[0].read_bytes, 5000);
    assert_eq!(first[0].write_bytes, 9000);
    assert_eq!(first[0].read_bytes_delta, 0);
    assert_eq!(first[0].write_bytes_delta, 0);
    let second =
        collector.collect(&vec![disk("sda", 1000, 300, 5512, 8000), disk("sdb", 10, 20, 1, 1)]);
    assert_eq!(second[0].read_bytes_delta, 512);
    assert_eq!(second[0].write_bytes_delta, 0);
    assert_eq!(second[0].used_space, 700);
    assert_eq!(second[1].used_space, 0);
    assert_eq!(second[1].read_bytes_delta, 0);
}

#[test]
fn disks_that_were_initialised_have_deltas_at_once() {
    let mut collector = DiskCollector::new();
    collector.init(&vec![disk("sda", 1000, 400, 5000, 9000)]);
    let disks = collector.collect(&vec![disk("sda", 1000, 400, 5100, 9900)]);
    assert_eq!(disks[0].read_bytes_delta, 100);
    assert_eq!(disks[0].write_bytes_delta, 900);
}

#[test]
fn a_disk_named_twice_in_one_poll_is_tracked_in_order() {
    let mut collector = DiskCollector::new();
    let disks = collector.collect(&vec![disk("sda", 1, 1, 100, 100), disk("sda", 1, 1, 130, 90)]);
    assert_eq!(disks[0].read_bytes_delta, 0);
    assert_eq!(disks[1].read_bytes_delta, 30);
    assert_eq!(disks[1].write_bytes_delta, 0);
}

fn interface(name: &str, rx: u64, tx: u64, rx_packets: u64, tx_packets: u64) -> NetworkReading {
    NetworkReading {
        interface_name: name.to_string(),
        rx_bytes: rx,
        tx_bytes: tx,
        rx_packets,
        tx_packets,
        rx_errors: 3,
        tx_errors: 4,
    }
}

#[test]
fn loopback_and_idle_interfaces_are_left_out() {
    let mut collector = NetworkCollector::new();
    let networks = collector.collect(&vec![
        interface("lo", 100, 100, 1, 1),
        interface("eth0", 1000, 2000, 10, 20),
        interface("lo0", 5, 5, 5, 5),
        interface("dummy0", 0, 0, 0, 0),
        interface("wlan0", 0, 0, 0, 1),
        interface("local", 9, 9, 9, 9),
    ]);
    let names: Vec<&str> = networks.iter().map(|n| n.interface_name.as_str()).collect();
    assert_eq!(names, vec!["eth0", "wlan0"]);
    assert_eq!(networks[0].rx_bytes, 1000);
    assert_eq!(networks[0].tx_bytes, 2000);
    assert_eq!(networks[0].rx_packets, 10);
    assert_eq!(networks[0].tx_packets, 20);
    assert_eq!(networks[0].rx_errors, 3);
    assert_eq!(networks[0].tx_errors, 4);
    assert_eq!(networks[0].rx_bytes_delta, 0);
    assert_eq!(networks[0].tx_bytes_delta, 0);
}

#[test]
fn interfaces_that_are_left_out_are_tracked_all_the_same() {
    let mut collector = NetworkCollector::new();
    let first = collector.collect(&vec![interface("tun0", 0, 0, 0, 0)]);
    assert!(first.is_empty());
    let second = collector.collect(&vec![interface("tun0", 700, 30, 2, 1)]);
    assert_eq!(second.len(), 1);
    assert_eq!(second[0].rx_bytes_delta, 700);
    assert_eq!(second[0].tx_bytes_delta, 30);
    let third = collector.collect(&vec![interface("tun0", 100, 40, 3, 2)]);
    assert_eq!(third[0].rx_bytes_delta, 0);
    assert_eq!(third[0].tx_bytes_delta, 10);
}

#[test]
fn aggregate_sums_the_listed_interfaces() {
    let mut collector = NetworkCollector::new();
    collector.init(&vec![interface("eth0", 100, 100, 1, 1), interface("eth1", 50, 50, 1, 1)]);
    let total = collector.get_aggregate_stats(&vec![
        interface("eth0", 300, 150, 5, 6),
        interface("lo", 999, 999, 9, 9),
        interface("eth1", 60, 50, 7, 8),
    ]);
    assert_eq!(total.interface_name, "total");
    assert_eq!(total.rx_bytes, 360);
    assert_eq!(total.tx_bytes, 200);
    assert_eq!(total.rx_bytes_delta, 210);
    assert_eq!(total.tx_bytes_delta, 50);
    assert_eq!(total.rx_packets, 12);
    assert_eq!(total.tx_packets, 14);
    assert_eq!(total.rx_errors, 6);
    assert_eq!(total.tx_errors, 8);
}

#[test]
fn aggregate_holds_at_the_largest_value() {
    let mut collector = NetworkCollector::new();
    let total = collector.get_aggregate_stats(&vec![
        interface("eth0", u64::MAX, 1, 1, 1),
        interface("eth1", 5, 1, 1, 1),
    ]);
    assert_eq!(total.rx_bytes, u64::MAX);
    assert_eq!(total.tx_bytes, 2);
}

fn sensor(label: &str, temperature: i64, critical: Option<i64>, max: i64) -> SensorReading {
    SensorReading {
        label: label.to_string(),
        temperature: fixed(temperature),
        critical: critical.map(fixed),
        max: fixed(max),
    }
}

#[test]
fn sensors_without_a_reading_are_left_out() {
    let mut collector = TemperatureCollector::new();
    let sensors = collector.collect(&vec![
        sensor("cpu", 45_500, Some(95_000), 80_000),
        sensor("dead", 0, None, 0),
        sensor("cold", -5_000, None, 10_000),
        sensor("gpu", 1, None, 0),
        sensor("ssd", 30_000, None, -1),
    ]);
    assert_eq!(
        sensors,
        vec![
            TemperatureInfo {
                label: "cpu".to_string(),
                temperature: fixed(45_500),
                critical: Some(fixed(95_000)),
                max: Some(fixed(80_000)),
            },
            TemperatureInfo {
                label: "gpu".to_string(),
                temperature: fixed(1),
                critical: None,
                max: None,
            },
            TemperatureInfo {
                label: "ssd".to_string(),
                temperature: fixed(30_000),
                critical: None,
                max: None,
            },
        ]
    );
    assert_eq!(collector.get_max_temperature(), Some(fixed(45_500)));
    assert_eq!(collector.get_system_temperature(), Some(fixed(25_167)));
}

#[test]
fn no_sensors_have_no_mean_and_no_maximum() {
    let mut collector = TemperatureCollector::new();
    collector.init(&Vec::new());
    assert_eq!(collector.get_max_temperature(), None);
    assert_eq!(collector.get_system_temperature(), None);
    assert!(collector.collect(&vec![sensor("off", 0, None, 0)]).is_empty());
}

fn reading(temperature: i64, critical: Option<i64>, max: Option<i64>) -> TemperatureInfo {
    TemperatureInfo {
        label: "t".to_string(),
        temperature: fixed(temperature),
        critical: critical.map(fixed),
        max: max.map(fixed),
    }
}

#[test]
fn status_follows_the_critical_temperature() {
    assert_eq!(reading(100_000, Some(100_000), None).get_status(), TemperatureStatus::Critical);
    assert_eq!(reading(99_999, Some(100_000), None).get_status(), TemperatureStatus::Warning);
    assert_eq!(reading(80_000, Some(100_000), None).get_status(), TemperatureStatus::Warning);
    assert_eq!(reading(79_999, Some(100_000), None).get_status(), TemperatureStatus::Warm);
    assert_eq!(reading(60_000, Some(100_000), None).get_status(), TemperatureStatus::Warm);
    assert_eq!(reading(59_999, Some(100_000), None).get_status(), TemperatureStatus::Cool);
    assert_eq!(reading(80_000, None, None).get_status(), TemperatureStatus::Critical);
    assert_eq!(reading(64_000, None, None).get_status(), TemperatureStatus::Warning);
    assert_eq!(reading(48_000, None, None).get_status(), TemperatureStatus::Warm);
    assert_eq!(reading(47_999, None, None).get_status(), TemperatureStatus::Cool);
}

#[test]
fn percentage_is_taken_of_the_ceiling() {
    assert_eq!(reading(45_000, Some(90_000), None).get_percentage(), fixed(50_000));
    assert_eq!(reading(45_000, Some(90_000), Some(60_000)).get_percentage(), fixed(75_000));
    assert_eq!(reading(45_000, None, None).get_percentage(), fixed(45_000));
    assert_eq!(reading(10_000, None, Some(30_000)).get_percentage(), fixed(33_333));
    assert_eq!(reading(120_000, None, None).get_percentage(), fixed(100_000));
    assert_eq!(reading(-5_000, None, None).get_percentage(), fixed(0));
    assert_eq!(reading(0, None, None).get_percentage(), fixed(0));
    assert_eq!(reading(5_000, None, Some(0)).get_percentage(), fixed(100_000));
    assert_eq!(reading(-5_000, None, Some(0)).get_percentage(), fixed(0));
    assert_eq!(reading(5_000, None, Some(-10_000)).get_percentage(), fixed(0));
    assert_eq!(reading(-5_000, None, Some(-10_000)).get_percentage(), fixed(50_000));
}

#[test]
fn cores_are_numbered_in_order() {
    let mut collector = CpuCollector::new();
    assert_eq!(collector.get_overall_usage(), fixed(0));
    let cores = collector.collect(&vec![
        CpuReading { name: "cpu0".to_string(), usage_percent: fixed(10_000), frequency: 2400 },
        CpuReading { name: "cpu1".to_string(), usage_percent: fixed(25_001), frequency: 3000 },
    ]);
    assert_eq!(cores.len(), 2);
    assert_eq!(cores[0].id, 0);
    assert_eq!(cores[1].id, 1);
    assert_eq!(cores[1].name, "cpu1");
    assert_eq!(cores[1].usage_percent, fixed(25_001));
    assert_eq!(cores[1].frequency, 3000);
    assert_eq!(collector.get_overall_usage(), fixed(17_500));
}

#[test]
fn memory_estimates_buffers_and_cache_where_asked() {
    let reading = MemoryReading {
        total: 8_000,
        used: 4_010,
        available: 4_000,
        free: 3_000,
        swap_total: 2_000,
        swap_used: 5,
        swap_free: 1_995,
    };
    let estimated = MemoryCollector::new(true).collect(&reading);
    assert_eq!(
        estimated,
        MemoryInfo {
            total: 8_000,
            used: 4_010,
            available: 4_000,
            free: 3_000,
            buffers: 200,
            cached: 1_000,
            swap_total: 2_000,
            swap_used: 5,
            swap_free: 1_995,
        }
    );
    let plain = MemoryCollector::new(false).collect(&reading);
    assert_eq!(plain.buffers, 0);
    assert_eq!(plain.cached, 0);
    let tight = MemoryCollector::new(true).collect(&MemoryReading { free: 5_000, ..reading });
    assert_eq!(tight.cached, 0);
}

#[test]
fn host_names_fall_back_to_unknown() {
    let mut collector = SystemCollector::new();
    let info = collector.collect(
        &SystemReading {
            hostname: Some("box".to_string()),
            os_name: None,
            os_version: Some("6.1".to_string()),
            uptime: 3600,
            load_avg_1: fixed(500),
            load_avg_5: fixed(400),
            load_avg_15: fixed(300),
        },
        10_000,
    );
    assert_eq!(info.hostname, "box");
    assert_eq!(info.os_name, "unknown");
    assert_eq!(info.os_version, "6.1");
    assert_eq!(info.uptime, 3600);
    assert_eq!(info.boot_time, 6_400);
    assert_eq!(info.load_avg_1, fixed(500));
    assert_eq!(info.load_avg_5, fixed(400));
    assert_eq!(info.load_avg_15, fixed(300));
    let early = collector.collect(
        &SystemReading {
            hostname: None,
            os_name: None,
            os_version: None,
            uptime: 3600,
            load_avg_1: fixed(0),
            load_avg_5: fixed(0),
            load_avg_15: fixed(0),
        },
        100,
    );
    assert_eq!(early.hostname, "unknown");
    assert_eq!(early.boot_time, 0);
}

fn raw_process(pid: u32, name: &str, cpu: i64, memory: u64, status: RawStatus) -> ProcessReading {
    ProcessReading {
        pid,
        name: name.to_string(),
        cmd: vec![name.to_string(), "-x".to_string()],
        cpu_usage: fixed(cpu),
        memory,
        virtual_memory: memory * 4,
        status,
        start_time: 1_000,
        parent: Some(1),
        user_id: Some("1000".to_string()),
    }
}

#[test]
fn a_process_reading_becomes_a_process() {
    let collector = ProcessCollector::new();
    let info = collector.process_to_info(&raw_process(77, "sshd", 1_500, 2048, RawStatus::Run), 8192);
    assert_eq!(info.pid, 77);
    assert_eq!(info.name, "sshd");
    assert_eq!(info.cmd, vec!["sshd".to_string(), "-x".to_string()]);
    assert_eq!(info.user, "1000");
    assert_eq!(info.cpu_percent, fixed(1_500));
    assert_eq!(info.memory_percent, fixed(25_000));
    assert_eq!(info.memory_rss, 2048 * 1024);
    assert_eq!(info.memory_vsz, 8192 * 1024);
    assert_eq!(info.threads, 1);
    assert_eq!(info.state, ProcessState::Running);
    assert_eq!(info.start_time, 1_000);
    assert_eq!(info.parent_pid, Some(1));
    assert_eq!(info.cgroup, None);
}

#[test]
fn a_process_reading_holds_at_the_edges() {
    let collector = ProcessCollector::new();
    let mut reading = raw_process(1, "init", 0, u64::MAX / 4, RawStatus::Sleep);
    reading.user_id = None;
    reading.virtual_memory = u64::MAX;
    let info = collector.process_to_info(&reading, 0);
    assert_eq!(info.user, "unknown");
    assert_eq!(info.memory_percent, fixed(0));
    assert_eq!(info.memory_rss, u64::MAX);
    assert_eq!(info.memory_vsz, u64::MAX);
    let share = collector.process_to_info(&raw_process(1, "a", 0, 1, RawStatus::Run), 3);
    assert_eq!(share.memory_percent, fixed(33_333));
    let huge = collector.process_to_info(&raw_process(1, "a", 0, u64::MAX, RawStatus::Run), 1);
    assert_eq!(huge.memory_percent, fixed(i64::MAX));
}

#[test]
fn every_raw_status_has_its_state() {
    let collector = ProcessCollector::new();
    let pairs = [
        (RawStatus::Idle, ProcessState::Sleeping),
        (RawStatus::Run, ProcessState::Running),
        (RawStatus::Sleep, ProcessState::Sleeping),
        (RawStatus::Stop, ProcessState::Stopped),
        (RawStatus::Zombie, ProcessState::Zombie),
        (RawStatus::Tracing, ProcessState::Waiting),
        (RawStatus::Dead, ProcessState::Dead),
        (RawStatus::Wakekill, ProcessState::Sleeping),
        (RawStatus::Waking, ProcessState::Waiting),
        (RawStatus::Parked, ProcessState::Waiting),
        (RawStatus::LockBlocked, ProcessState::Waiting),
        (RawStatus::UninterruptibleDiskSleep, ProcessState::Waiting),
        (RawStatus::Unknown(99), ProcessState::Unknown),
    ];
    for (status, state) in pairs {
        assert_eq!(collector.convert_process_status(status), state);
    }
    assert_eq!(ProcessState::default(), ProcessState::Unknown);
}

fn raw_list() -> Vec<ProcessReading> {
    vec![
        raw_process(30, "nginx", 2_000, 100, RawStatus::Run),
        raw_process(10, "Postgres", 9_000, 500, RawStatus::Sleep),
        raw_process(20, "node", 2_000, 300, RawStatus::Run),
    ]
}

#[test]
fn collected_processes_can_be_filtered_and_sorted() {
    let mut collector = ProcessCollector::new();
    let all = collector.collect(&raw_list(), 1000);
    assert_eq!(all.iter().map(|p| p.pid).collect::<Vec<_>>(), vec![30, 10, 20]);
    let named = collector.collect_filtered(&raw_list(), 1000, "POST");
    assert_eq!(named.iter().map(|p| p.pid).collect::<Vec<_>>(), vec![10]);
    let by_cpu = collector.collect_sorted(&raw_list(), 1000, SortKey::Cpu, true);
    assert_eq!(by_cpu.iter().map(|p| p.pid).collect::<Vec<_>>(), vec![10, 30, 20]);
    let both = collector.collect_sorted_filtered(&raw_list(), 1000, SortKey::Name, false, "n");
    assert_eq!(both.iter().map(|p| p.pid).collect::<Vec<_>>(), vec![30, 20]);
    let mut list = collector.collect(&raw_list(), 1000);
    collector.sort_processes(&mut list, SortKey::Memory, false);
    assert_eq!(list.iter().map(|p| p.pid).collect::<Vec<_>>(), vec![30, 20, 10]);
}

#[test]
fn a_number_that_names_no_process_is_refused() {
    let collector = ProcessCollector::new();
    assert_eq!(
        collector.kill_process(0),
        Err(CoreError::Platform("Failed to kill process 0: not a process id".to_string()))
    );
    assert_eq!(
        collector.kill_process(u32::MAX),
        Err(CoreError::Platform(
            "Failed to kill process 4294967295: not a process id".to_string()
        ))
    );
    assert_eq!(
        collector.kill_process(2_147_483_648),
        Err(CoreError::Platform(
            "Failed to kill process 2147483648: not a process id".to_string()
        ))
    );
}

#[test]
fn ending_a_process_that_is_not_there_fails_with_the_reason() {
    let collector = ProcessCollector::new();
    match collector.kill_process(2_147_483_647) {
        Err(CoreError::Platform(message)) => {
            assert!(message.starts_with("Failed to kill process 2147483647: "));
            assert!(message.len() > "Failed to kill process 2147483647: ".len());
        }
        other => panic!("{:?}", other),
    }
}

#[test]
fn a_platform_that_cannot_end_a_process_says_so() {
    let collector = ProcessCollector::new();
    for platform in [PlatformKind::Windows, PlatformKind::Generic] {
        assert_eq!(
            collector.kill_process_on(platform, 2_147_483_647),
            Err(CoreError::UnsupportedPlatform(
                "Process termination not supported on this platform".to_string()
            ))
        );
    }
    assert_eq!(
        collector.kill_process_on(PlatformKind::Linux, 0),
        Err(CoreError::Platform("Failed to kill process 0: not a process id".to_string()))
    );
    assert!(matches!(
        collector.kill_process_on(PlatformKind::Macos, 2_147_483_647),
        Err(CoreError::Platform(_))
    ));
}

#[test]
fn the_outcome_of_a_kill_names_the_process_and_the_reason() {
    assert_eq!(kill_outcome(12, Ok(())), Ok(()));
    assert_eq!(
        kill_outcome(12, Err("EPERM: Operation not permitted".to_string())),
        Err(CoreError::Platform(
            "Failed to kill process 12: EPERM: Operation not permitted".to_string()
        ))
    );
}

fn readings() -> Readings {
    Readings {
        system: Some(SystemReading {
            hostname: Some("box".to_string()),
            os_name: Some("Linux".to_string()),
            os_version: Some("6.1".to_string()),
            uptime: 60,
            load_avg_1: fixed(1_000),
            load_avg_5: fixed(2_000),
            load_avg_15: fixed(3_000),
        }),
        cpus: Some(vec![CpuReading {
            name: "cpu0".to_string(),
            usage_percent: fixed(50_000),
            frequency: 1000,
        }]),
        memory: Some(MemoryReading {
            total: 1000,
            used: 400,
            available: 600,
            free: 500,
            swap_total: 0,
            swap_used: 0,
            swap_free: 0,
        }),
        disks: Some(vec![disk("sda", 100, 40, 10, 20)]),
        networks: Some(vec![interface("eth0", 10, 20, 1, 1), interface("lo", 5, 5, 1, 1)]),
        temperatures: Some(vec![sensor("cpu", 50_000, None, 0)]),
        processes: Some(raw_list()),
    }
}

#[test]
fn a_snapshot_joins_all_domains_under_one_timestamp() {
    let mut collector = MetricsCollector::new(true);
    collector.init(&readings());
    let mut next = readings();
    next.disks = Some(vec![disk("sda", 100, 40, 110, 20)]);
    next.networks = Some(vec![interface("eth0", 15, 25, 2, 2)]);
    let snapshot = collector.collect(&next, 1_700_000_000);
    assert_eq!(snapshot.timestamp, 1_700_000_000);
    assert_eq!(snapshot.system.hostname, "box");
    assert_eq!(snapshot.system.boot_time, 1_699_999_940);
    assert_eq!(snapshot.cpu_cores.len(), 1);
    assert_eq!(snapshot.memory.total, 1000);
    assert_eq!(snapshot.memory.buffers, 20);
    assert_eq!(snapshot.memory.cached, 100);
    assert_eq!(snapshot.disks[0].read_bytes_delta, 100);
    assert_eq!(snapshot.networks.len(), 1);
    assert_eq!(snapshot.networks[0].rx_bytes_delta, 5);
    assert_eq!(snapshot.networks[0].tx_bytes_delta, 5);
    assert_eq!(snapshot.temperatures.len(), 1);
    assert_eq!(snapshot.processes.len(), 3);
    assert_eq!(snapshot.processes[1].memory_percent, fixed(50_000));
}

#[test]
fn a_failed_reader_empties_its_own_domain_only() {
    let mut collector = MetricsCollector::new(false);
    let mut partial = readings();
    partial.system = None;
    partial.memory = None;
    partial.disks = None;
    partial.temperatures = None;
    let snapshot = collector.collect(&partial, 5);
    assert_eq!(snapshot.timestamp, 5);
    assert_eq!(snapshot.system.hostname, "");
    assert_eq!(snapshot.system.uptime, 0);
    assert_eq!(snapshot.memory, MemoryCollector::new(false).collect(&MemoryReading {
        total: 0,
        used: 0,
        available: 0,
        free: 0,
        swap_total: 0,
        swap_used: 0,
        swap_free: 0,
    }));
    assert!(snapshot.disks.is_empty());
    assert!(snapshot.temperatures.is_empty());
    assert_eq!(snapshot.cpu_cores.len(), 1);
    assert_eq!(snapshot.networks.len(), 1);
    assert_eq!(snapshot.processes.len(), 3);
    assert_eq!(snapshot.processes[0].memory_percent, fixed(0));
    let nothing = collector.collect(
        &Readings {
            system: None,
            cpus: None,
            memory: None,
            disks: None,
            networks: None,
            temperatures: None,
            processes: None,
        },
        6,
    );
    assert!(nothing.cpu_cores.is_empty());
    assert!(nothing.networks.is_empty());
    assert!(nothing.processes.is_empty());
}

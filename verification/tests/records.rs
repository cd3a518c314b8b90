use host_snapshot::battery::{
    battery_device_info, battery_info, cycle_count, BatteryReading, BatteryState,
};
use host_snapshot::binary::{Binary32, Binary64};
use host_snapshot::component::{component_info, components_info, ComponentReading};
use host_snapshot::cpu::{cpu_info, thread_info, CpuReading, ThreadReading};
use host_snapshot::disk::{disk_info, disks_info, DiskKind, DiskReading};
use host_snapshot::graphics::{graphics_device_info, graphics_info, Brand, GpuReading};
use host_snapshot::network::{network_info, networks_info, NetworkReading};
use host_snapshot::os::{os_info, OsReading};
use host_snapshot::process::{
    disk_usage, parent_pid, process_info, processes_info, DiskTraffic, ProcessReading, NO_PARENT,
};

fn text(s: &str) -> String {
    String::from(s)
}

fn size_in_bytes(shown: &str) -> f64 {
    let mut parts = shown.split(' ');
    let number: f64 = parts.next().unwrap().parse().unwrap();
    let scale = match parts.next().unwrap() {
        "B" => 1.0,
        "KB" => 1e3,
        "MB" => 1e6,
        "GB" => 1e9,
        "TB" => 1e12,
        "PB" => 1e15,
        "EB" => 1e18,
        other => panic!("unit {}", other),
    };
    number * scale
}

fn disk(name: Option<&str>, total: u64, available: u64, kind: DiskKind) -> DiskReading {
    DiskReading {
        name: name.map(String::from),
        total_space: total,
        available_space: available,
        is_removable: false,
        kind,
    }
}

#[test]
fn disk_record() {
    let reading = DiskReading {
        name: Some(text("/dev/sda1")),
        total_space: 500_107_862_016,
        available_space: 120_000_000_000,
        is_removable: true,
        kind: DiskKind::Ssd,
    };
    let info = disk_info(&reading);
    assert_eq!(info.name, "/dev/sda1");
    assert_eq!(info.total_space, "500.11 GB");
    assert_eq!(info.available_space, "120 GB");
    assert!(info.is_removable);
    assert_eq!(info.type_, "SSD");
}

#[test]
fn disk_media_names() {
    assert_eq!(disk_info(&disk(None, 0, 0, DiskKind::Hdd)).type_, "HDD");
    assert_eq!(disk_info(&disk(None, 0, 0, DiskKind::Ssd)).type_, "SSD");
    assert_eq!(disk_info(&disk(None, 0, 0, DiskKind::Unknown)).type_, "Unknown");
    assert_eq!(DiskKind::Hdd.name_text(), "HDD");
}

#[test]
fn disk_name_that_is_no_text_reads_as_empty() {
    let info = disk_info(&disk(None, 1000, 10, DiskKind::Hdd));
    assert_eq!(info.name, "");
    assert_eq!(info.total_space, "1 KB");
    assert_eq!(info.available_space, "10 B");
    assert!(!info.is_removable);
}

#[test]
fn disk_records_in_order() {
    let readings = vec![
        disk(Some("a"), 2_000_000, 1_000_000, DiskKind::Hdd),
        disk(Some("b"), 3_000, 2_000, DiskKind::Ssd),
        disk(None, 5, 5, DiskKind::Unknown),
    ];
    let infos = disks_info(&readings);
    assert_eq!(infos.len(), 3);
    assert_eq!(infos[0], disk_info(&readings[0]));
    assert_eq!(infos[1], disk_info(&readings[1]));
    assert_eq!(infos[2], disk_info(&readings[2]));
    assert_eq!(infos[0].name, "a");
    assert_eq!(infos[1].total_space, "3 KB");
    assert_eq!(infos[2].type_, "Unknown");
    assert!(disks_info(&Vec::new()).is_empty());
}

#[test]
fn available_space_shown_within_total() {
    let pairs = [
        (500_107_862_016u64, 120_000_000_000u64),
        (1_000_000, 999_999),
        (1000, 999),
        (64, 64),
        (u64::MAX, 1),
    ];
    for (total, available) in pairs {
        let info = disk_info(&disk(None, total, available, DiskKind::Hdd));
        assert!(size_in_bytes(&info.available_space) <= size_in_bytes(&info.total_space));
    }
}

fn interface(received: u64, total_received: u64) -> NetworkReading {
    NetworkReading {
        name: text("eth0"),
        received,
        total_received,
        transmitted: 2,
        total_transmitted: 20,
        packets_received: 3,
        packets_transmitted: 4,
        total_packets_transmitted: 40,
        errors_on_received: 5,
        total_errors_on_received: 50,
        errors_on_transmitted: 6,
        total_errors_on_transmitted: 60,
    }
}

#[test]
fn network_record() {
    let info = network_info(&interface(1, 10));
    assert_eq!(info.name, "eth0");
    assert_eq!(info.received, 1);
    assert_eq!(info.total_received, 10);
    assert_eq!(info.transmitted, 2);
    assert_eq!(info.total_transmitted, 20);
    assert_eq!(info.packets_received, 3);
    assert_eq!(info.packets_transmitted, 4);
    assert_eq!(info.total_packets_transmitted, 40);
    assert_eq!(info.errors_on_received, 5);
    assert_eq!(info.total_errors_on_received, 50);
    assert_eq!(info.errors_on_transmitted, 6);
    assert_eq!(info.total_errors_on_transmitted, 60);
}

#[test]
fn network_counts_stay_within_totals() {
    for reading in [interface(0, 0), interface(7, 7), interface(1, i64::MAX as u64)] {
        let info = network_info(&reading);
        assert!(info.received <= info.total_received);
        assert!(info.transmitted <= info.total_transmitted);
        assert!(info.packets_transmitted <= info.total_packets_transmitted);
        assert!(info.errors_on_received <= info.total_errors_on_received);
        assert!(info.errors_on_transmitted <= info.total_errors_on_transmitted);
    }
    let both_high = network_info(&interface((1u64 << 63) + 1, u64::MAX));
    assert!(both_high.received <= both_high.total_received);
}

#[test]
fn network_total_past_the_signed_range_wraps() {
    let info = network_info(&interface(1, 1u64 << 63));
    assert_eq!(info.received, 1);
    assert_eq!(info.total_received, i64::MIN);
    assert!(info.received > info.total_received);
}

#[test]
fn network_records_in_order() {
    let readings = vec![interface(1, 2), interface(3, 4)];
    let infos = networks_info(&readings);
    assert_eq!(infos.len(), 2);
    assert_eq!(infos[0], network_info(&readings[0]));
    assert_eq!(infos[1].total_received, 4);
    assert!(networks_info(&Vec::new()).is_empty());
}

#[test]
fn os_record() {
    let reading = OsReading {
        name: Some(text("Debian GNU/Linux")),
        kernel_version: Some(text("6.1.0")),
        os_version: Some(text("12")),
        host_name: Some(text("box")),
    };
    let info = os_info(&reading);
    assert_eq!(info.name, "Debian GNU/Linux");
    assert_eq!(info.kernel_version, "6.1.0");
    assert_eq!(info.os_version, "12");
    assert_eq!(info.host_name, "box");
}

#[test]
fn os_items_not_known_read_unknown() {
    let reading = OsReading {
        name: None,
        kernel_version: Some(text("6.1.0")),
        os_version: None,
        host_name: None,
    };
    let info = os_info(&reading);
    assert_eq!(info.name, "Unknown");
    assert_eq!(info.kernel_version, "6.1.0");
    assert_eq!(info.os_version, "Unknown");
    assert_eq!(info.host_name, "Unknown");
}

fn process(parent: Option<u32>) -> ProcessReading {
    ProcessReading {
        name: text("cat"),
        cmd: vec![text("cat"), text("-n"), text("notes.txt")],
        exe: Some(text("/usr/bin/cat")),
        pid: 4242,
        parent,
        environ: vec![text("HOME=/root"), text("LANG=C")],
        cwd: Some(text("/root")),
        root: None,
        memory: 1_048_576,
        virtual_memory: u64::MAX,
        run_time: 90,
        status: text("Sleeping"),
        disk_usage: DiskTraffic {
            read_bytes: 1,
            written_bytes: 2,
            total_read_bytes: 3,
            total_written_bytes: 1u64 << 63,
        },
        cpu_usage: Binary32 { bits: 12.75f32.to_bits() },
    }
}

#[test]
fn process_record() {
    let info = process_info(&process(Some(1)));
    assert_eq!(info.name, "cat");
    assert_eq!(info.cmd, "cat -n notes.txt");
    assert_eq!(info.path, "/usr/bin/cat");
    assert_eq!(info.pid, 4242);
    assert_eq!(info.ppid, 1);
    assert_eq!(info.env_var, vec![text("HOME=/root"), text("LANG=C")]);
    assert_eq!(info.cwd, "/root");
    assert_eq!(info.root, "");
    assert_eq!(info.memory, 1_048_576);
    assert_eq!(info.virtual_memory, -1);
    assert_eq!(info.running_time, 90);
    assert_eq!(info.status, "Sleeping");
    assert_eq!(info.disk_usage.read_bytes, 1);
    assert_eq!(info.disk_usage.written_bytes, 2);
    assert_eq!(info.disk_usage.total_read_bytes, 3);
    assert_eq!(info.disk_usage.total_written_bytes, i64::MIN);
    assert_eq!(info.cpu_usage, 12);
}

#[test]
fn process_without_parent_holds_the_sentinel() {
    let info = process_info(&process(None));
    assert_eq!(info.ppid, NO_PARENT);
    assert_eq!(info.ppid, u32::MAX);
    assert_eq!(info.ppid as i32, -1);
    assert_eq!(parent_pid(None), u32::MAX);
    assert_eq!(parent_pid(Some(0)), 0);
    assert_eq!(parent_pid(Some(77)), 77);
}

#[test]
fn process_without_command_line() {
    let mut reading = process(Some(1));
    reading.cmd = Vec::new();
    reading.environ = Vec::new();
    reading.exe = None;
    reading.cwd = None;
    let info = process_info(&reading);
    assert_eq!(info.cmd, "");
    assert!(info.env_var.is_empty());
    assert_eq!(info.path, "");
    assert_eq!(info.cwd, "");
}

#[test]
fn process_disk_traffic_read_as_signed() {
    let usage = disk_usage(&DiskTraffic {
        read_bytes: 0,
        written_bytes: i64::MAX as u64,
        total_read_bytes: u64::MAX,
        total_written_bytes: 5,
    });
    assert_eq!(usage.read_bytes, 0);
    assert_eq!(usage.written_bytes, i64::MAX);
    assert_eq!(usage.total_read_bytes, -1);
    assert_eq!(usage.total_written_bytes, 5);
}

#[test]
fn process_records_in_order() {
    let readings = vec![process(None), process(Some(9))];
    let infos = processes_info(&readings);
    assert_eq!(infos.len(), 2);
    assert_eq!(infos[0], process_info(&readings[0]));
    assert_eq!(infos[1].ppid, 9);
    assert!(processes_info(&Vec::new()).is_empty());
}

fn battery(state: BatteryState) -> BatteryReading {
    BatteryReading {
        vendor: Some(text("ACME")),
        model: None,
        state,
        temperature: text("26.85"),
        cycle_count: Some(312),
        energy_full_design: text("180000"),
        energy_full: text("171000.5"),
        energy: text("90000"),
        energy_rate: text("12.5"),
        voltage: text("11.4"),
        state_of_charge: text("45.23"),
        state_of_health: text("95"),
    }
}

#[test]
fn battery_record() {
    let info = battery_device_info(&battery(BatteryState::Discharging));
    assert_eq!(info.vendor, "ACME");
    assert_eq!(info.model, "Unknown");
    assert_eq!(info.state, "discharging");
    assert_eq!(info.temperature, "26.85°C");
    assert_eq!(info.cycle_count, 312);
    assert_eq!(info.energy_full_design, "180000 Joule");
    assert_eq!(info.energy_full, "171000.5 Joule");
    assert_eq!(info.energy, "90000 Joule");
    assert_eq!(info.energy_rate, "12.5 Watt");
    assert_eq!(info.voltage, "11.4 Volt");
    assert_eq!(info.state_of_charge, "45.23%");
    assert_eq!(info.state_of_health, "95%");
}

#[test]
fn battery_state_names() {
    assert_eq!(battery_device_info(&battery(BatteryState::Unknown)).state, "unknown");
    assert_eq!(battery_device_info(&battery(BatteryState::Charging)).state, "charging");
    assert_eq!(battery_device_info(&battery(BatteryState::Discharging)).state, "discharging");
    assert_eq!(battery_device_info(&battery(BatteryState::Empty)).state, "empty");
    assert_eq!(battery_device_info(&battery(BatteryState::Full)).state, "full");
}

#[test]
fn battery_missing_items_take_their_fallbacks() {
    let mut reading = battery(BatteryState::Full);
    reading.vendor = None;
    reading.cycle_count = None;
    let info = battery_device_info(&reading);
    assert_eq!(info.vendor, "Unknown");
    assert_eq!(info.model, "Unknown");
    assert_eq!(info.cycle_count, 0);
    assert_eq!(cycle_count(Some(3)), 3);
    assert_eq!(cycle_count(None), 0);
}

#[test]
fn no_batteries_give_no_records() {
    let infos = battery_info(&Vec::new());
    assert!(infos.is_empty());
}

#[test]
fn battery_records_in_order() {
    let readings = vec![battery(BatteryState::Charging), battery(BatteryState::Empty)];
    let infos = battery_info(&readings);
    assert_eq!(infos.len(), 2);
    assert_eq!(infos[0], battery_device_info(&readings[0]));
    assert_eq!(infos[0].state, "charging");
    assert_eq!(infos[1].state, "empty");
}

fn gpu(brand: Brand) -> GpuReading {
    GpuReading {
        brand,
        name: text("RTX"),
        fan_speed: 35,
        power_limit: 250_000,
        memory_total: 8_589_934_592,
        memory_free: 2_147_483_648,
        memory_ratio: text("400"),
        temperature: 61,
        gpu_utilization: 97,
        memory_utilization: 0,
    }
}

#[test]
fn graphics_record() {
    let info = graphics_device_info(&gpu(Brand::GeForce));
    assert_eq!(info.brand, "GeForce");
    assert_eq!(info.name, "RTX");
    assert_eq!(info.fan_speed, "35 RPM");
    assert_eq!(info.power_limit, "250000 Watts");
    assert_eq!(info.memory.total, "8589934592 Bytes");
    assert_eq!(info.memory.free, "2147483648 Bytes");
    assert_eq!(info.memory.used, "400%");
    assert_eq!(info.temperature, "61°C");
    assert_eq!(info.utilization.gpu, "97%");
    assert_eq!(info.utilization.memory, "0%");
}

#[test]
fn graphics_memory_ratio_is_total_over_free() {
    let mut reading = gpu(Brand::Tesla);
    let ratio = ((reading.memory_total as f64 / reading.memory_free as f64) * 100.0).trunc();
    reading.memory_ratio = ratio.to_string();
    assert_eq!(graphics_device_info(&reading).memory.used, "400%");
    reading.memory_free = 0;
    let ratio = ((reading.memory_total as f64 / reading.memory_free as f64) * 100.0).trunc();
    reading.memory_ratio = ratio.to_string();
    assert_eq!(graphics_device_info(&reading).memory.used, "inf%");
}

#[test]
fn graphics_brand_names() {
    assert_eq!(graphics_device_info(&gpu(Brand::Unknown)).brand, "Unknown");
    assert_eq!(graphics_device_info(&gpu(Brand::Quadro)).brand, "Quadro");
    assert_eq!(graphics_device_info(&gpu(Brand::Tesla)).brand, "Tesla");
    assert_eq!(graphics_device_info(&gpu(Brand::Nvs)).brand, "NVS");
    assert_eq!(graphics_device_info(&gpu(Brand::Grid)).brand, "GRID");
    assert_eq!(graphics_device_info(&gpu(Brand::GeForce)).brand, "GeForce");
    assert_eq!(graphics_device_info(&gpu(Brand::Titan)).brand, "Titan");
    assert_eq!(Brand::Nvs.name_text(), "NVS");
}

#[test]
fn no_graphics_driver_gives_no_records() {
    assert!(graphics_info(&None).is_empty());
}

#[test]
fn graphics_driver_without_devices_gives_no_records() {
    assert!(graphics_info(&Some(Vec::new())).is_empty());
}

#[test]
fn graphics_records_in_order() {
    let readings = vec![gpu(Brand::Quadro), gpu(Brand::Titan)];
    let infos = graphics_info(&Some(readings.clone()));
    assert_eq!(infos.len(), 2);
    assert_eq!(infos[0], graphics_device_info(&readings[0]));
    assert_eq!(infos[0].brand, "Quadro");
    assert_eq!(infos[1].brand, "Titan");
}

#[test]
fn component_record() {
    let reading = ComponentReading { label: text("coretemp Core 0"), temperature: text("48.5") };
    let info = component_info(&reading);
    assert_eq!(info.label, "coretemp Core 0");
    assert_eq!(info.temperature, "48.5°C");
}

#[test]
fn component_records_in_order() {
    let readings = vec![
        ComponentReading { label: text("a"), temperature: 40.0f32.to_string() },
        ComponentReading { label: text("b"), temperature: f32::NAN.to_string() },
    ];
    let infos = components_info(&readings);
    assert_eq!(infos.len(), 2);
    assert_eq!(infos[0].temperature, "40°C");
    assert_eq!(infos[1].label, "b");
    assert_eq!(infos[1].temperature, "NaN°C");
    assert!(components_info(&Vec::new()).is_empty());
}

fn thread(name: &str, usage: f64, frequency: u64) -> ThreadReading {
    ThreadReading {
        name: text(name),
        cpu_usage: Binary64 { bits: usage.to_bits() },
        frequency,
        vendor_id: text("GenuineIntel"),
        brand: text("Core i7"),
    }
}

#[test]
fn thread_record() {
    let info = thread_info(&thread("cpu0", 12.5, 3600));
    assert_eq!(info.name, "cpu0");
    assert_eq!(f64::from_bits(info.cpu_usage.bits), 12.5);
    assert_eq!(info.frequency, 3600);
    assert_eq!(info.vendor_id, "GenuineIntel");
    assert_eq!(info.brand, "Core i7");
    assert_eq!(thread_info(&thread("cpu0", 0.0, (1u64 << 32) + 7)).frequency, 7);
}

#[test]
fn cpu_record_has_one_thread_per_logical_core() {
    let reading = CpuReading {
        global: thread("cpu", 50.25, 3400),
        physical_core_count: Some(2),
        threads: vec![
            thread("cpu0", 1.0, 3401),
            thread("cpu1", 2.0, 3402),
            thread("cpu2", 3.0, 3403),
            thread("cpu3", 4.0, 3404),
        ],
    };
    let info = cpu_info(&reading);
    assert_eq!(info.name, "cpu");
    assert_eq!(f64::from_bits(info.cpu_usage.bits), 50.25);
    assert_eq!(info.frequency, 3400);
    assert_eq!(info.vendor_id, "GenuineIntel");
    assert_eq!(info.brand, "Core i7");
    assert_eq!(info.physical_core_count, 2);
    assert_eq!(info.threads.len(), 4);
    assert_eq!(info.threads[0], thread_info(&reading.threads[0]));
    assert_eq!(info.threads[3].name, "cpu3");
    assert_eq!(info.threads[3].frequency, 3404);
}

#[test]
fn cpu_core_count_not_known_reads_zero() {
    let reading = CpuReading {
        global: thread("cpu", 0.0, 0),
        physical_core_count: None,
        threads: Vec::new(),
    };
    let info = cpu_info(&reading);
    assert_eq!(info.physical_core_count, 0);
    assert!(info.threads.is_empty());
}

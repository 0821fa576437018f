use docktopus::compose::HostSettings;
use docktopus::container::Error;
use docktopus::requirements::SystemRequirements;
use docktopus::requirements::parse_memory_string;
use docktopus::requirements::u64_to_string;

fn no_limits() -> SystemRequirements {
    SystemRequirements {
        min_memory_gb: 0,
        min_disk_gb: 0,
        min_bandwidth_mbps: 0,
        required_ports: Vec::new(),
        data_directory: String::from("/var/lib/data"),
        nano_cpus: None,
        memory_limit: None,
        memory_swap: None,
        memory_reservation: None,
        cpu_shares: None,
        cpuset_cpus: None,
    }
}

#[test]
fn test_memory_string_parsing() {
    assert_eq!(parse_memory_string("512M").unwrap(), 512 * 1024 * 1024);
    assert_eq!(parse_memory_string("1G").unwrap(), 1024 * 1024 * 1024);
    assert!(parse_memory_string("invalid").is_err());
}

#[test]
fn test_invalid_resource_limits() {
    let memory_tests = vec![
        ("1X", "Invalid memory unit: X"),
        ("abc", "Invalid memory value: abc"),
        ("12.5G", "Invalid memory value: 12.5G"),
    ];

    for (input, expected_error) in memory_tests {
        let result = parse_memory_string(input);
        assert!(matches!(
            result,
            Err(Error::InvalidResourceLimit(msg)) if msg.contains(expected_error)
        ));
    }
}

#[test]
fn parse_units_are_case_insensitive() {
    assert_eq!(parse_memory_string("2K").unwrap(), 2048);
    assert_eq!(parse_memory_string("2k").unwrap(), 2048);
    assert_eq!(parse_memory_string("3m").unwrap(), 3 * 1024 * 1024);
    assert_eq!(parse_memory_string("7g").unwrap(), 7 * 1024 * 1024 * 1024);
}

#[test]
fn parse_rejects_empty_and_bare_unit() {
    assert!(matches!(
        parse_memory_string(""),
        Err(Error::InvalidResourceLimit(msg)) if msg == "Invalid memory value: "
    ));
    assert!(matches!(
        parse_memory_string("G"),
        Err(Error::InvalidResourceLimit(msg)) if msg == "Invalid memory value: G"
    ));
}

#[test]
fn parse_rejects_values_out_of_range() {
    // The digits alone exceed a 64-bit count.
    assert!(matches!(
        parse_memory_string("99999999999999999999K"),
        Err(Error::InvalidResourceLimit(msg)) if msg.contains("Invalid memory value")
    ));
    // The digits fit, the multiplier pushes the count out of range.
    assert!(matches!(
        parse_memory_string("18446744073709551615G"),
        Err(Error::InvalidResourceLimit(msg)) if msg.contains("Invalid memory value")
    ));
}

#[test]
fn decimal_printing() {
    assert_eq!(u64_to_string(0), "0");
    assert_eq!(u64_to_string(7), "7");
    assert_eq!(u64_to_string(8080), "8080");
    assert_eq!(u64_to_string(18446744073709551615), "18446744073709551615");
}

#[test]
fn check_passes_when_everything_suffices() {
    let mut req = no_limits();
    req.min_memory_gb = 4;
    req.min_disk_gb = 10;
    req.required_ports = vec![80, 443];
    req.memory_limit = Some(String::from("2G"));
    let total_memory = 8 * 1024 * 1024 * 1024;
    let disk = Some(100 * 1024 * 1024 * 1024);
    let free = vec![true, true];
    assert!(req.check(total_memory, disk, &free).is_ok());
}

#[test]
fn check_reports_insufficient_memory() {
    let mut req = no_limits();
    req.min_memory_gb = 16;
    let total_memory = 8 * 1024 * 1024 * 1024;
    let r = req.check(total_memory, None, &Vec::new());
    assert!(matches!(
        r,
        Err(Error::ValidationError(msg))
            if msg == "Insufficient memory: 8 GB available, 16 GB required"
    ));
}

#[test]
fn check_reports_limit_exceeding_memory() {
    let mut req = no_limits();
    req.memory_limit = Some(String::from("16G"));
    let total_memory = 8 * 1024 * 1024 * 1024;
    let r = req.check(total_memory, None, &Vec::new());
    assert!(matches!(
        r,
        Err(Error::ValidationError(msg))
            if msg == "Memory limit 16G exceeds available memory 8GB"
    ));
}

#[test]
fn check_propagates_bad_limit_string() {
    let mut req = no_limits();
    req.memory_limit = Some(String::from("1X"));
    let total_memory = 8 * 1024 * 1024 * 1024;
    let r = req.check(total_memory, None, &Vec::new());
    assert!(matches!(
        r,
        Err(Error::InvalidResourceLimit(msg)) if msg == "Invalid memory unit: X"
    ));
}

#[test]
fn check_reports_insufficient_disk() {
    let mut req = no_limits();
    req.min_disk_gb = 100;
    let total_memory = 8 * 1024 * 1024 * 1024;
    let disk = Some(50 * 1024 * 1024 * 1024);
    let r = req.check(total_memory, disk, &Vec::new());
    assert!(matches!(
        r,
        Err(Error::ValidationError(msg))
            if msg == "Insufficient disk space: 50 GB available, 100 GB required"
    ));
}

#[test]
fn check_skips_disk_when_no_disk_matched() {
    let mut req = no_limits();
    req.min_disk_gb = 100;
    let total_memory = 8 * 1024 * 1024 * 1024;
    assert!(req.check(total_memory, None, &Vec::new()).is_ok());
}

#[test]
fn check_reports_taken_port() {
    let mut req = no_limits();
    req.required_ports = vec![80, 8080, 443];
    let total_memory = 8 * 1024 * 1024 * 1024;
    let free = vec![true, false, true];
    let r = req.check(total_memory, None, &free);
    assert!(matches!(
        r,
        Err(Error::ValidationError(msg)) if msg == "Port 8080 is already in use"
    ));
}

#[test]
fn host_config_carries_parsed_limits() {
    let mut req = no_limits();
    req.memory_limit = Some(String::from("1G"));
    req.memory_swap = Some(String::from("2G"));
    req.memory_reservation = Some(String::from("512M"));
    req.cpu_shares = Some(512);
    req.cpuset_cpus = Some(String::from("0-3"));
    req.nano_cpus = Some(1_500_000_000);
    let hc: HostSettings = req.to_host_config();
    assert_eq!(hc.memory, Some(1024 * 1024 * 1024));
    assert_eq!(hc.memory_swap, Some(2 * 1024 * 1024 * 1024));
    assert_eq!(hc.memory_reservation, Some(512 * 1024 * 1024));
    assert_eq!(hc.cpu_shares, Some(512));
    assert_eq!(hc.cpuset_cpus, Some(String::from("0-3")));
    assert_eq!(hc.nano_cpus, Some(1_500_000_000));
    assert_eq!(hc.binds, None);
    assert_eq!(hc.runtime, None);
}

#[test]
fn host_config_drops_unparseable_limit() {
    let mut req = no_limits();
    req.memory_limit = Some(String::from("abc"));
    let hc = req.to_host_config();
    assert_eq!(hc.memory, None);
}

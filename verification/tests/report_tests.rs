use camctrl::clock::{datetime_to_naive, clock_mismatch, CivilDateTime, DateTimeFields};
use camctrl::report::{
    device_info_report, device_time_report, time_report_at_offset, network_host_to_string, network_report, time_report,
    users_report, DeviceInformation, InterfaceInfo, Ipv4Config, NetworkHost, NetworkInterface,
    NtpInformation, ReportRun, ReportStep, SystemTime, UserAccount,
};

fn host(dns: Option<&str>, v4: Option<&str>, v6: Option<&str>) -> NetworkHost {
    NetworkHost {
        dns_name: dns.map(|s| s.to_string()),
        ipv4_address: v4.map(|s| s.to_string()),
        ipv6_address: v6.map(|s| s.to_string()),
    }
}

fn fields(y: i32, mo: i32, d: i32, h: i32, mi: i32, s: i32) -> DateTimeFields {
    DateTimeFields { year: y, month: mo, day: d, hour: h, minute: mi, second: s }
}

#[test]
fn host_text_lists_present_parts() {
    assert_eq!(network_host_to_string(&host(Some("ntp.example"), Some("10.0.0.1"), None)), "ntp.example 10.0.0.1 ");
    assert_eq!(network_host_to_string(&host(None, None, Some("fe80::1"))), "fe80::1 ");
    assert_eq!(network_host_to_string(&host(None, None, None)), "");
}

#[test]
fn identity_block() {
    let info = DeviceInformation {
        manufacturer: "Acme".to_string(),
        model: "Cam1".to_string(),
        firmware_version: "1.2".to_string(),
        serial_number: "SN9".to_string(),
        hardware_id: "HW7".to_string(),
    };
    assert_eq!(
        device_info_report(&info),
        "Device Info:\n  Serial\tSN9\n  Make\t\tAcme\n  Model\t\tCam1\n  Firmware\t1.2\n  Hardware ID\tHW7\n"
    );
}

#[test]
fn clock_block_with_everything_set() {
    let time = SystemTime {
        source: "Ntp".to_string(),
        daylight_savings: true,
        time_zone: Some("CET-1".to_string()),
        utc: Some(fields(2024, 3, 5, 7, 8, 9)),
        local: Some(fields(2024, 3, 5, 8, 8, 9)),
    };
    let ntp = NtpInformation {
        from_dhcp: true,
        ntp_from_dhcp: vec![host(None, Some("10.0.0.1"), None)],
        ntp_manual: vec![host(Some("pool.ntp.org"), None, None), host(None, Some("10.0.0.2"), None)],
    };
    assert_eq!(
        time_report(&time, &ntp, false),
        "Device Time:\n  Source\tNtp\n  DST\t\ttrue\n  TimeZone\tCET-1\n  UTC\t\t2024-03-05 07:08:09\n  Local\t\t2024-03-05 08:08:09\n  DHCP NTP\t10.0.0.1 \n  NTP\t\tpool.ntp.org 10.0.0.2 \n"
    );
    assert!(time_report(&time, &ntp, true).contains("  UTC\t\t2024-03-05 07:08:09 *DOES NOT MATCH SYSTEM*\n"));
}

#[test]
fn clock_block_with_nothing_set() {
    let time = SystemTime {
        source: "Manual".to_string(),
        daylight_savings: false,
        time_zone: None,
        utc: None,
        local: None,
    };
    let ntp = NtpInformation { from_dhcp: false, ntp_from_dhcp: vec![host(Some("x"), None, None)], ntp_manual: vec![] };
    assert_eq!(
        time_report(&time, &ntp, true),
        "Device Time:\n  Source\tManual\n  DST\t\tfalse\n  TimeZone\tNot Set\n  UTC\t\tNot Set\n  Local\t\tNot Set\n  NTP\t\t\n"
    );
}

#[test]
fn far_off_camera_clock_is_marked() {
    let time = SystemTime {
        source: "Manual".to_string(),
        daylight_savings: false,
        time_zone: None,
        utc: Some(fields(2001, 1, 1, 0, 0, 0)),
        local: None,
    };
    let ntp = NtpInformation { from_dhcp: false, ntp_from_dhcp: vec![], ntp_manual: vec![] };
    let text = device_time_report(&time, &ntp);
    assert!(text.contains("  UTC\t\t2001-01-01 00:00:00 *DOES NOT MATCH SYSTEM*\n"));
}

#[test]
fn years_outside_four_digits_carry_a_sign() {
    let time = SystemTime {
        source: "Manual".to_string(),
        daylight_savings: false,
        time_zone: None,
        utc: Some(fields(12345, 12, 31, 23, 59, 59)),
        local: Some(fields(-4, 2, 29, 0, 0, 0)),
    };
    assert!(time.has_valid_times());
    let ntp = NtpInformation { from_dhcp: false, ntp_from_dhcp: vec![], ntp_manual: vec![] };
    let text = time_report(&time, &ntp, false);
    assert!(text.contains("  UTC\t\t+12345-12-31 23:59:59\n"));
    assert!(text.contains("  Local\t\t-0004-02-29 00:00:00\n"));
}

#[test]
fn invalid_dates_are_detected() {
    let bad = SystemTime {
        source: "Manual".to_string(),
        daylight_savings: false,
        time_zone: None,
        utc: Some(fields(2023, 2, 29, 0, 0, 0)),
        local: None,
    };
    assert!(!bad.has_valid_times());
    let leap = SystemTime { utc: Some(fields(2024, 2, 29, 0, 0, 0)), ..bad };
    assert!(leap.has_valid_times());
    let negative = SystemTime { utc: Some(fields(2024, -1, 1, 0, 0, 0)), ..leap };
    assert!(!negative.has_valid_times());
    let bce = SystemTime { utc: Some(fields(-5, 2, 29, 0, 0, 0)), ..negative };
    assert!(!bce.has_valid_times());
    let century = SystemTime { utc: Some(fields(1900, 2, 29, 0, 0, 0)), ..bce };
    assert!(!century.has_valid_times());
    let quad = SystemTime { utc: Some(fields(2000, 2, 29, 23, 59, 59)), local: Some(fields(2000, 1, 1, 24, 0, 0)), ..century };
    assert!(!quad.has_valid_times());
}

#[test]
fn negative_fields_become_zero() {
    let c = datetime_to_naive(&fields(2020, -3, 4, -1, 6, -7));
    assert_eq!((c.year, c.month, c.day, c.hour, c.minute, c.second), (2020, 0, 4, 0, 6, 0));
    let v = CivilDateTime { year: 2020, month: 1, day: 31, hour: 0, minute: 0, second: 0 };
    assert!(v.is_valid());
    let w = CivilDateTime { month: 4, ..v };
    assert!(!w.is_valid());
    let far = CivilDateTime { year: 262143, ..v };
    assert!(!far.is_valid());
}

#[test]
fn mismatch_threshold_is_fifteen_seconds() {
    assert!(!clock_mismatch(15));
    assert!(!clock_mismatch(-15));
    assert!(!clock_mismatch(0));
    assert!(clock_mismatch(16));
    assert!(clock_mismatch(-16));
    assert!(clock_mismatch(i64::MIN));
}

#[test]
fn network_block() {
    let ifaces = vec![
        NetworkInterface {
            token: "eth0".to_string(),
            enabled: true,
            info: Some(InterfaceInfo { name: Some("wired".to_string()), hw_address: "00:11:22:33:44:55".to_string(), mtu: Some(1500) }),
            ipv4: vec![Ipv4Config { dhcp: true, from_dhcp: vec!["10.0.0.5".to_string()], manual: vec!["192.168.1.5".to_string()] }],
            ssids: None,
        },
        NetworkInterface {
            token: "wlan0".to_string(),
            enabled: false,
            info: Some(InterfaceInfo { name: None, hw_address: "aa".to_string(), mtu: Some(-1) }),
            ipv4: vec![Ipv4Config { dhcp: false, from_dhcp: vec!["10.9.9.9".to_string()], manual: vec![] }],
            ssids: Some(vec!["home".to_string(), "guest".to_string()]),
        },
        NetworkInterface { token: "lo".to_string(), enabled: true, info: None, ipv4: vec![], ssids: Some(vec![]) },
    ];
    assert_eq!(
        network_report(&ifaces),
        "Interface wired enabled=true\n  HW Addr\t00:11:22:33:44:55\n  MTU\t\t1500\n  DHCP IP\t10.0.0.5\n  IP\t\t192.168.1.5\n\
         Interface wlan0 enabled=false\n  HW Addr\taa\n  MTU\t\t-1\n  SSID\t\thome\n  SSID\t\tguest\n\
         Interface lo enabled=true\n"
    );
    assert_eq!(network_report(&vec![]), "");
}

#[test]
fn users_block() {
    let users = vec![
        UserAccount { username: "admin".to_string(), level: "Administrator".to_string() },
        UserAccount { username: "op".to_string(), level: "Operator".to_string() },
    ];
    assert_eq!(users_report(&users), "Users:\n  User\t\tadmin (Administrator)\n  User\t\top (Operator)\n");
    assert_eq!(users_report(&vec![]), "Users:\n");
}

#[test]
fn clock_block_from_offset() {
    let time = SystemTime {
        source: "Manual".to_string(),
        daylight_savings: false,
        time_zone: None,
        utc: Some(fields(2024, 1, 2, 3, 4, 5)),
        local: None,
    };
    let ntp = NtpInformation { from_dhcp: false, ntp_from_dhcp: vec![], ntp_manual: vec![] };
    assert!(time_report_at_offset(&time, &ntp, Some(16)).contains("05 *DOES NOT MATCH SYSTEM*\n"));
    assert!(time_report_at_offset(&time, &ntp, Some(-16)).contains("05 *DOES NOT MATCH SYSTEM*\n"));
    assert!(time_report_at_offset(&time, &ntp, Some(15)).contains("  UTC\t\t2024-01-02 03:04:05\n"));
    assert!(time_report_at_offset(&time, &ntp, None).contains("  UTC\t\t2024-01-02 03:04:05\n"));
}

fn manual_time() -> SystemTime {
    SystemTime {
        source: "Manual".to_string(),
        daylight_savings: false,
        time_zone: None,
        utc: None,
        local: None,
    }
}

fn info() -> DeviceInformation {
    DeviceInformation {
        manufacturer: "M".to_string(),
        model: "X".to_string(),
        firmware_version: "1".to_string(),
        serial_number: "S".to_string(),
        hardware_id: "H".to_string(),
    }
}

#[test]
fn report_sequence_with_media() {
    let (mut run, action) = ReportRun::start(true);
    assert_eq!(action.output, "");
    assert!(matches!(action.step, ReportStep::FetchInfo));
    let action = run.info_fetched(Ok(info()));
    assert!(action.output.starts_with("Device Info:\n  Serial\tS\n"));
    assert!(matches!(action.step, ReportStep::FetchTime));
    let action = run.time_fetched(Ok(manual_time()));
    assert_eq!(action.output, "");
    assert!(matches!(action.step, ReportStep::FetchNtp));
    let ntp = NtpInformation { from_dhcp: false, ntp_from_dhcp: vec![], ntp_manual: vec![] };
    let action = run.ntp_fetched(Ok(ntp));
    assert!(action.output.starts_with("Device Time:\n  Source\tManual\n"));
    assert!(matches!(action.step, ReportStep::FetchNetwork));
    let action = run.network_fetched(Ok(vec![]));
    assert_eq!(action.output, "");
    assert!(matches!(action.step, ReportStep::FetchProfiles));
    let action = run.profiles_fetched(Ok(()));
    assert!(matches!(action.step, ReportStep::FetchUsers));
    let action = run.users_fetched(Ok(vec![UserAccount { username: "a".to_string(), level: "User".to_string() }]));
    assert_eq!(action.output, "Users:\n  User\t\ta (User)\n");
    assert!(matches!(action.step, ReportStep::Done(Ok(0))));
}

#[test]
fn report_sequence_without_media_skips_profiles() {
    let (mut run, _) = ReportRun::start(false);
    run.info_fetched(Ok(info()));
    run.time_fetched(Ok(manual_time()));
    run.ntp_fetched(Ok(NtpInformation { from_dhcp: false, ntp_from_dhcp: vec![], ntp_manual: vec![] }));
    let action = run.network_fetched(Ok(vec![]));
    assert!(matches!(action.step, ReportStep::FetchUsers));
}

#[test]
fn report_stops_at_first_failure() {
    let (mut run, _) = ReportRun::start(true);
    run.info_fetched(Ok(info()));
    let action = run.time_fetched(Err(camctrl::error::DeviceError::Transport("down".to_string())));
    assert_eq!(action.output, "");
    assert!(matches!(action.step, ReportStep::Done(Err(camctrl::error::DeviceError::Transport(_)))));
}

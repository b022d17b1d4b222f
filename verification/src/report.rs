//! The device report: the text shown for a camera's identity, clock,
//! network configuration and users.

use vstd::prelude::*;
use crate::clock::{
    civil_text,
    clock_mismatch,
    datetime_to_naive,
    chrono_seconds_between,
    civil_of,
    naive_datetime_text,
    parts,
    seconds_between,
    utc_now,
    CivilDateTime,
    DateTimeFields,
};
use crate::error::DeviceError;
use crate::text::{contains_text, lemma_contains_extend, lemma_contains_itself, push_signed_decimal, signed_decimal};

verus! {

/// Identity of a camera.
#[derive(Debug)]
pub struct DeviceInformation {
    pub manufacturer: String,
    pub model: String,
    pub firmware_version: String,
    pub serial_number: String,
    pub hardware_id: String,
}

/// A network host: any of a DNS name, an IPv4 and an IPv6 address.
#[derive(Debug)]
pub struct NetworkHost {
    pub dns_name: Option<String>,
    pub ipv4_address: Option<String>,
    pub ipv6_address: Option<String>,
}

/// The clock settings of a camera. `source` is the name of the time source
/// (manual or NTP) as the camera's schema spells it.
#[derive(Debug)]
pub struct SystemTime {
    pub source: String,
    pub daylight_savings: bool,
    pub time_zone: Option<String>,
    pub utc: Option<DateTimeFields>,
    pub local: Option<DateTimeFields>,
}

/// The NTP settings of a camera.
#[derive(Debug)]
pub struct NtpInformation {
    pub from_dhcp: bool,
    pub ntp_from_dhcp: Vec<NetworkHost>,
    pub ntp_manual: Vec<NetworkHost>,
}

/// Details of a network interface.
#[derive(Debug)]
pub struct InterfaceInfo {
    pub name: Option<String>,
    pub hw_address: String,
    pub mtu: Option<i32>,
}

/// The IPv4 configuration of a network interface: addresses from DHCP and
/// addresses set by hand.
#[derive(Debug)]
pub struct Ipv4Config {
    pub dhcp: bool,
    pub from_dhcp: Vec<String>,
    pub manual: Vec<String>,
}

/// A network interface of a camera; `ssids` holds the SSIDs of its 802.11
/// configurations when it has an extension.
#[derive(Debug)]
pub struct NetworkInterface {
    pub token: String,
    pub enabled: bool,
    pub info: Option<InterfaceInfo>,
    pub ipv4: Vec<Ipv4Config>,
    pub ssids: Option<Vec<String>>,
}

/// A user account of a camera; `level` is the name of its user level.
#[derive(Debug)]
pub struct UserAccount {
    pub username: String,
    pub level: String,
}

/// The text of a boolean, as Rust writes it.
pub open spec fn bool_text(b: bool) -> Seq<char> {
    if b {
        "true"@
    } else {
        "false"@
    }
}

fn push_bool(out: &mut String, b: bool)
    ensures
        final(out)@ == old(out)@ + bool_text(b),
{
    if b {
        out.append("true");
    } else {
        out.append("false");
    }
}

// ---------------------------------------------------------------- identity

/// The identity block of the report.
pub open spec fn device_info_text(info: DeviceInformation) -> Seq<char> {
    "Device Info:\n  Serial\t"@ + info.serial_number@ + "\n  Make\t\t"@ + info.manufacturer@
        + "\n  Model\t\t"@ + info.model@ + "\n  Firmware\t"@ + info.firmware_version@
        + "\n  Hardware ID\t"@ + info.hardware_id@ + "\n"@
}

/// Renders the identity block of the report.
pub fn device_info_report(info: &DeviceInformation) -> (res: String)
    ensures
        res@ == device_info_text(*info),
{
    let mut out = String::from_str("Device Info:\n  Serial\t");
    out.append(info.serial_number.as_str());
    out.append("\n  Make\t\t");
    out.append(info.manufacturer.as_str());
    out.append("\n  Model\t\t");
    out.append(info.model.as_str());
    out.append("\n  Firmware\t");
    out.append(info.firmware_version.as_str());
    out.append("\n  Hardware ID\t");
    out.append(info.hardware_id.as_str());
    out.append("\n");
    out
}

// ---------------------------------------------------------------- hosts

/// A text followed by a space, or nothing.
pub open spec fn word_text(word: Option<String>) -> Seq<char> {
    match word {
        Some(w) => w@ + " "@,
        None => Seq::empty(),
    }
}

/// The text of a network host: its DNS name, IPv4 and IPv6 address, those it
/// has, each followed by a space.
pub open spec fn host_text(host: NetworkHost) -> Seq<char> {
    word_text(host.dns_name) + word_text(host.ipv4_address) + word_text(host.ipv6_address)
}

/// The texts of several hosts, one after the other.
pub open spec fn hosts_text(hosts: Seq<NetworkHost>) -> Seq<char>
    decreases hosts.len(),
{
    if hosts.len() == 0 {
        Seq::empty()
    } else {
        hosts_text(hosts.drop_last()) + host_text(hosts.last())
    }
}

fn push_word(out: &mut String, word: &Option<String>)
    ensures
        final(out)@ == old(out)@ + word_text(*word),
{
    match word {
        Some(w) => {
            out.append(w.as_str());
            out.append(" ");
        },
        None => {},
    }
}

fn push_host(out: &mut String, host: &NetworkHost)
    ensures
        final(out)@ == old(out)@ + host_text(*host),
{
    push_word(out, &host.dns_name);
    push_word(out, &host.ipv4_address);
    push_word(out, &host.ipv6_address);
}

/// Converts a network host to its display text.
pub fn network_host_to_string(network_host: &NetworkHost) -> (res: String)
    ensures
        res@ == host_text(*network_host),
{
    let mut display = String::new();
    push_host(&mut display, network_host);
    display
}

fn push_hosts(out: &mut String, hosts: &Vec<NetworkHost>)
    ensures
        final(out)@ == old(out)@ + hosts_text(hosts@),
{
    let ghost start = out@;
    let n = hosts.len();
    let mut i: usize = 0;
    while i < n
        invariant
            n == hosts@.len(),
            i <= n,
            out@ == start + hosts_text(hosts@.take(i as int)),
        decreases n - i,
    {
        push_host(out, &hosts[i]);
        proof {
            let t = hosts@.take(i + 1);
            assert(t.drop_last() =~= hosts@.take(i as int));
            assert(t.last() == hosts@[i as int]);
        }
        i = i + 1;
    }
    proof {
        assert(hosts@.take(n as int) =~= hosts@);
    }
}

// ---------------------------------------------------------------- clock

/// Whether a reported date and time names an existing instant.
pub open spec fn fields_valid(dt: DateTimeFields) -> bool {
    civil_of(dt).valid()
}

/// The text of a reported date and time.
pub open spec fn fields_text(dt: DateTimeFields) -> Seq<char> {
    civil_text(civil_of(dt))
}

impl SystemTime {
    /// Whether the UTC and local times, where present, name existing
    /// instants (the report cannot show them otherwise).
    pub open spec fn times_valid(&self) -> bool {
        &&& self.utc matches Some(dt) ==> fields_valid(dt)
        &&& self.local matches Some(dt) ==> fields_valid(dt)
    }

    /// Tests `times_valid`.
    pub fn has_valid_times(&self) -> (res: bool)
        ensures
            res == self.times_valid(),
    {
        let utc_ok = match &self.utc {
            Some(dt) => datetime_to_naive(dt).is_valid(),
            None => true,
        };
        let local_ok = match &self.local {
            Some(dt) => datetime_to_naive(dt).is_valid(),
            None => true,
        };
        utc_ok && local_ok
    }
}

/// The time zone line of the clock block.
pub open spec fn time_zone_text(tz: Option<String>) -> Seq<char> {
    match tz {
        Some(tz) => "  TimeZone\t"@ + tz@ + "\n"@,
        None => "  TimeZone\tNot Set\n"@,
    }
}

/// The UTC line of the clock block, marked when it is off the system clock.
pub open spec fn utc_text(utc: Option<DateTimeFields>, utc_mismatch: bool) -> Seq<char> {
    match utc {
        Some(dt) => "  UTC\t\t"@ + fields_text(dt) + if utc_mismatch {
            " *DOES NOT MATCH SYSTEM*\n"@
        } else {
            "\n"@
        },
        None => "  UTC\t\tNot Set\n"@,
    }
}

/// The local time line of the clock block.
pub open spec fn local_text(local: Option<DateTimeFields>) -> Seq<char> {
    match local {
        Some(dt) => "  Local\t\t"@ + fields_text(dt) + "\n"@,
        None => "  Local\t\tNot Set\n"@,
    }
}

/// The NTP lines of the clock block: the servers from DHCP when DHCP is
/// used, then the servers set by hand.
pub open spec fn ntp_text(ntp: NtpInformation) -> Seq<char> {
    (if ntp.from_dhcp {
        "  DHCP NTP\t"@ + hosts_text(ntp.ntp_from_dhcp@) + "\n"@
    } else {
        Seq::empty()
    }) + "  NTP\t\t"@ + hosts_text(ntp.ntp_manual@) + "\n"@
}

/// The clock block of the report. `utc_mismatch` says whether the camera's
/// UTC time is off the system clock by more than 15 seconds.
pub open spec fn time_text(time: SystemTime, ntp: NtpInformation, utc_mismatch: bool) -> Seq<
    char,
> {
    "Device Time:\n  Source\t"@ + time.source@ + "\n  DST\t\t"@ + bool_text(time.daylight_savings)
        + "\n"@ + time_zone_text(time.time_zone) + utc_text(time.utc, utc_mismatch) + local_text(
        time.local,
    ) + ntp_text(ntp)
}

fn push_time_zone(out: &mut String, tz: &Option<String>)
    ensures
        final(out)@ == old(out)@ + time_zone_text(*tz),
{
    match tz {
        Some(tz) => {
            out.append("  TimeZone\t");
            out.append(tz.as_str());
            out.append("\n");
        },
        None => {
            out.append("  TimeZone\tNot Set\n");
        },
    }
}

fn push_utc(out: &mut String, utc: &Option<DateTimeFields>, utc_mismatch: bool)
    requires
        *utc matches Some(dt) ==> fields_valid(dt),
    ensures
        final(out)@ == old(out)@ + utc_text(*utc, utc_mismatch),
{
    match utc {
        Some(dt) => {
            out.append("  UTC\t\t");
            let text = naive_datetime_text(&datetime_to_naive(dt));
            out.append(text.as_str());
            if utc_mismatch {
                out.append(" *DOES NOT MATCH SYSTEM*\n");
            } else {
                out.append("\n");
            }
        },
        None => {
            out.append("  UTC\t\tNot Set\n");
        },
    }
}

fn push_local(out: &mut String, local: &Option<DateTimeFields>)
    requires
        *local matches Some(dt) ==> fields_valid(dt),
    ensures
        final(out)@ == old(out)@ + local_text(*local),
{
    match local {
        Some(dt) => {
            out.append("  Local\t\t");
            let text = naive_datetime_text(&datetime_to_naive(dt));
            out.append(text.as_str());
            out.append("\n");
        },
        None => {
            out.append("  Local\t\tNot Set\n");
        },
    }
}

fn push_ntp(out: &mut String, ntp: &NtpInformation)
    ensures
        final(out)@ == old(out)@ + ntp_text(*ntp),
{
    let ghost start = out@;
    if ntp.from_dhcp {
        out.append("  DHCP NTP\t");
        push_hosts(out, &ntp.ntp_from_dhcp);
        out.append("\n");
    }
    out.append("  NTP\t\t");
    push_hosts(out, &ntp.ntp_manual);
    out.append("\n");
    proof {
        assert(out@ =~= start + ntp_text(*ntp));
    }
}

/// Renders the clock block of the report, given whether the camera's UTC
/// time is off the system clock by more than 15 seconds.
pub fn time_report(time: &SystemTime, ntp: &NtpInformation, utc_mismatch: bool) -> (res: String)
    requires
        time.times_valid(),
    ensures
        res@ == time_text(*time, *ntp, utc_mismatch),
{
    let mut out = String::from_str("Device Time:\n  Source\t");
    out.append(time.source.as_str());
    out.append("\n  DST\t\t");
    push_bool(&mut out, time.daylight_savings);
    out.append("\n");
    push_time_zone(&mut out, &time.time_zone);
    push_utc(&mut out, &time.utc, utc_mismatch);
    push_local(&mut out, &time.local);
    push_ntp(&mut out, ntp);
    out
}

/// Whether a camera clock that is `utc_offset` seconds ahead of the system
/// clock (when known) is off by more than 15 seconds.
pub open spec fn utc_mismatch_of(utc_offset: Option<i64>) -> bool {
    match utc_offset {
        Some(offset) => offset > 15 || offset < -15,
        None => false,
    }
}

/// Renders the clock block of the report, given how many seconds the
/// camera's UTC time is ahead of the system clock (`None` when the camera
/// reports no UTC time): the UTC line is marked when the offset exceeds 15
/// seconds either way.
pub fn time_report_at_offset(
    time: &SystemTime,
    ntp: &NtpInformation,
    utc_offset: Option<i64>,
) -> (res: String)
    requires
        time.times_valid(),
    ensures
        res@ == time_text(*time, *ntp, utc_mismatch_of(utc_offset)),
{
    let mismatch = match utc_offset {
        Some(offset) => clock_mismatch(offset),
        None => false,
    };
    time_report(time, ntp, mismatch)
}

/// The offset, in whole seconds, of the camera's UTC time (if it reports
/// one) from the system clock reading `now` with `now_nanos` nanoseconds.
pub open spec fn utc_offset_spec(time: SystemTime, now: CivilDateTime, now_nanos: u32) -> Option<
    i64,
> {
    match time.utc {
        Some(dt) => Some(chrono_seconds_between(parts(civil_of(dt)), parts(now), now_nanos)),
        None => None,
    }
}

/// Whether `text` is the clock block for the settings against some valid
/// reading of the system clock (none when the camera reports no UTC time).
pub open spec fn clock_block(time: SystemTime, ntp: NtpInformation, text: Seq<char>) -> bool {
    &&& time.utc is None ==> text == time_text(time, ntp, false)
    &&& time.utc is Some ==> exists|now: CivilDateTime, now_nanos: u32|
        now.valid() && now_nanos < 1_000_000_000 && text == time_text(
            time,
            ntp,
            utc_mismatch_of(utc_offset_spec(time, now, now_nanos)),
        )
}

/// Renders the clock block of the report, checking the camera's UTC time
/// against the system clock: the UTC line is marked when the camera's UTC
/// time differs from the clock reading by more than 15 whole seconds. The
/// reading itself depends on the system clock; the text is the one for some
/// valid reading (no reading is made when the camera reports no UTC time).
pub fn device_time_report(time: &SystemTime, ntp: &NtpInformation) -> (res: String)
    requires
        time.times_valid(),
    ensures
        clock_block(*time, *ntp, res@),
{
    match &time.utc {
        Some(dt) => {
            let (now, now_nanos) = utc_now();
            let offset = seconds_between(&datetime_to_naive(dt), &now, now_nanos);
            let res = time_report_at_offset(time, ntp, Some(offset));
            assert(utc_offset_spec(*time, now, now_nanos) == Some(offset));
            res
        },
        None => time_report_at_offset(time, ntp, None),
    }
}

// ---------------------------------------------------------------- network

/// One line per item: the prefix, the item, a line break.
pub open spec fn prefixed_lines(prefix: Seq<char>, items: Seq<String>) -> Seq<char>
    decreases items.len(),
{
    if items.len() == 0 {
        Seq::empty()
    } else {
        prefixed_lines(prefix, items.drop_last()) + prefix + items.last()@ + "\n"@
    }
}

fn push_prefixed_lines(out: &mut String, prefix: &str, items: &Vec<String>)
    ensures
        final(out)@ == old(out)@ + prefixed_lines(prefix@, items@),
{
    let ghost start = out@;
    let n = items.len();
    let mut i: usize = 0;
    while i < n
        invariant
            n == items@.len(),
            i <= n,
            out@ == start + prefixed_lines(prefix@, items@.take(i as int)),
        decreases n - i,
    {
        out.append(prefix);
        out.append(items[i].as_str());
        out.append("\n");
        proof {
            let t = items@.take(i + 1);
            assert(t.drop_last() =~= items@.take(i as int));
            assert(t.last() == items@[i as int]);
        }
        i = i + 1;
    }
    proof {
        assert(items@.take(n as int) =~= items@);
    }
}

/// The lines of one IPv4 configuration: the DHCP addresses when DHCP is on,
/// then the addresses set by hand.
pub open spec fn ipv4_text(config: Ipv4Config) -> Seq<char> {
    (if config.dhcp {
        prefixed_lines("  DHCP IP\t"@, config.from_dhcp@)
    } else {
        Seq::empty()
    }) + prefixed_lines("  IP\t\t"@, config.manual@)
}

/// The lines of several IPv4 configurations.
pub open spec fn ipv4s_text(configs: Seq<Ipv4Config>) -> Seq<char>
    decreases configs.len(),
{
    if configs.len() == 0 {
        Seq::empty()
    } else {
        ipv4s_text(configs.drop_last()) + ipv4_text(configs.last())
    }
}

/// The name shown for an interface: the name in its details where it has
/// one, else its token.
pub open spec fn interface_name(iface: NetworkInterface) -> Seq<char> {
    match iface.info {
        Some(info) => match info.name {
            Some(name) => name@,
            None => iface.token@,
        },
        None => iface.token@,
    }
}

/// The details lines of an interface: hardware address and MTU.
pub open spec fn details_text(info: Option<InterfaceInfo>) -> Seq<char> {
    match info {
        Some(info) => "  HW Addr\t"@ + info.hw_address@ + "\n"@ + match info.mtu {
            Some(mtu) => "  MTU\t\t"@ + signed_decimal(mtu as int) + "\n"@,
            None => Seq::empty(),
        },
        None => Seq::empty(),
    }
}

/// The SSID lines of an interface.
pub open spec fn ssids_text(ssids: Option<Vec<String>>) -> Seq<char> {
    match ssids {
        Some(ssids) => prefixed_lines("  SSID\t\t"@, ssids@),
        None => Seq::empty(),
    }
}

/// The block of one network interface.
pub open spec fn interface_text(iface: NetworkInterface) -> Seq<char> {
    "Interface "@ + interface_name(iface) + " enabled="@ + bool_text(iface.enabled) + "\n"@
        + details_text(iface.info) + ipv4s_text(iface.ipv4@) + ssids_text(iface.ssids)
}

/// The blocks of several network interfaces.
pub open spec fn interfaces_text(ifaces: Seq<NetworkInterface>) -> Seq<char>
    decreases ifaces.len(),
{
    if ifaces.len() == 0 {
        Seq::empty()
    } else {
        interfaces_text(ifaces.drop_last()) + interface_text(ifaces.last())
    }
}

fn push_ipv4(out: &mut String, config: &Ipv4Config)
    ensures
        final(out)@ == old(out)@ + ipv4_text(*config),
{
    if config.dhcp {
        push_prefixed_lines(out, "  DHCP IP\t", &config.from_dhcp);
    }
    push_prefixed_lines(out, "  IP\t\t", &config.manual);
}

fn push_ipv4s(out: &mut String, configs: &Vec<Ipv4Config>)
    ensures
        final(out)@ == old(out)@ + ipv4s_text(configs@),
{
    let ghost start = out@;
    let n = configs.len();
    let mut i: usize = 0;
    while i < n
        invariant
            n == configs@.len(),
            i <= n,
            out@ == start + ipv4s_text(configs@.take(i as int)),
        decreases n - i,
    {
        push_ipv4(out, &configs[i]);
        proof {
            let t = configs@.take(i + 1);
            assert(t.drop_last() =~= configs@.take(i as int));
            assert(t.last() == configs@[i as int]);
        }
        i = i + 1;
    }
    proof {
        assert(configs@.take(n as int) =~= configs@);
    }
}

fn push_details(out: &mut String, info: &Option<InterfaceInfo>)
    ensures
        final(out)@ == old(out)@ + details_text(*info),
{
    let ghost start = out@;
    match info {
        Some(info) => {
            out.append("  HW Addr\t");
            out.append(info.hw_address.as_str());
            out.append("\n");
            match info.mtu {
                Some(mtu) => {
                    out.append("  MTU\t\t");
                    push_signed_decimal(out, mtu as i64);
                    out.append("\n");
                },
                None => {},
            }
        },
        None => {},
    }
    proof {
        assert(out@ =~= start + details_text(*info));
    }
}

fn push_interface(out: &mut String, iface: &NetworkInterface)
    ensures
        final(out)@ == old(out)@ + interface_text(*iface),
{
    out.append("Interface ");
    match &iface.info {
        Some(info) => match &info.name {
            Some(name) => out.append(name.as_str()),
            None => out.append(iface.token.as_str()),
        },
        None => out.append(iface.token.as_str()),
    }
    out.append(" enabled=");
    push_bool(out, iface.enabled);
    out.append("\n");
    push_details(out, &iface.info);
    push_ipv4s(out, &iface.ipv4);
    match &iface.ssids {
        Some(ssids) => push_prefixed_lines(out, "  SSID\t\t", ssids),
        None => {},
    }
}

/// Renders the network block of the report: one block per interface.
pub fn network_report(ifaces: &Vec<NetworkInterface>) -> (res: String)
    ensures
        res@ == interfaces_text(ifaces@),
{
    let mut out = String::new();
    let n = ifaces.len();
    let mut i: usize = 0;
    while i < n
        invariant
            n == ifaces@.len(),
            i <= n,
            out@ == interfaces_text(ifaces@.take(i as int)),
        decreases n - i,
    {
        push_interface(&mut out, &ifaces[i]);
        proof {
            let t = ifaces@.take(i + 1);
            assert(t.drop_last() =~= ifaces@.take(i as int));
            assert(t.last() == ifaces@[i as int]);
        }
        i = i + 1;
    }
    proof {
        assert(ifaces@.take(n as int) =~= ifaces@);
    }
    out
}

// ---------------------------------------------------------------- users

/// The lines of several user accounts, each with its level in brackets.
pub open spec fn accounts_text(users: Seq<UserAccount>) -> Seq<char>
    decreases users.len(),
{
    if users.len() == 0 {
        Seq::empty()
    } else {
        accounts_text(users.drop_last()) + "  User\t\t"@ + users.last().username@ + " ("@
            + users.last().level@ + ")\n"@
    }
}

/// Renders the users block of the report.
pub fn users_report(users: &Vec<UserAccount>) -> (res: String)
    ensures
        res@ == "Users:\n"@ + accounts_text(users@),
{
    let mut out = String::from_str("Users:\n");
    let n = users.len();
    let mut i: usize = 0;
    while i < n
        invariant
            n == users@.len(),
            i <= n,
            out@ == "Users:\n"@ + accounts_text(users@.take(i as int)),
        decreases n - i,
    {
        out.append("  User\t\t");
        out.append(users[i].username.as_str());
        out.append(" (");
        out.append(users[i].level.as_str());
        out.append(")\n");
        proof {
            let t = users@.take(i + 1);
            assert(t.drop_last() =~= users@.take(i as int));
            assert(t.last() == users@[i as int]);
        }
        i = i + 1;
    }
    proof {
        assert(users@.take(n as int) =~= users@);
    }
    out
}

// ---------------------------------------------------------------- sequence

/// Where the device report stands: which answer it waits for.
#[derive(Debug)]
pub enum ReportPhase {
    AwaitInfo,
    AwaitTime,
    AwaitNtp,
    AwaitNetwork,
    AwaitProfiles,
    AwaitUsers,
    Finished,
}

/// The query that the program sends next for the device report, or the end
/// of the report with its outcome.
#[derive(Debug)]
pub enum ReportStep {
    /// Ask for the device information; report with `info_fetched`.
    FetchInfo,
    /// Ask for the system date and time; report with `time_fetched`.
    FetchTime,
    /// Ask for the NTP settings; report with `ntp_fetched`.
    FetchNtp,
    /// Ask for the network interfaces; report with `network_fetched`.
    FetchNetwork,
    /// Ask the media service for its profiles; report with `profiles_fetched`.
    FetchProfiles,
    /// Ask for the users; report with `users_fetched`.
    FetchUsers,
    /// The report ends with this outcome.
    Done(Result<i32, DeviceError>),
}

/// What the program does next: print `output`, then take `step`.
#[derive(Debug)]
pub struct ReportAction {
    pub output: String,
    pub step: ReportStep,
}

/// A run of the device report. `has_media` says whether the camera offers a
/// media service; `time` holds the clock settings until the NTP settings
/// arrive.
#[derive(Debug)]
pub struct ReportRun {
    pub phase: ReportPhase,
    pub has_media: bool,
    pub time: Option<SystemTime>,
}

/// Whether `action` prints nothing and ends the report with the error `e`.
pub open spec fn report_fails(action: ReportAction, e: DeviceError) -> bool {
    action.output@ == Seq::<char>::empty() && action.step == ReportStep::Done(
        Err::<i32, DeviceError>(e),
    )
}

impl ReportRun {
    /// Starts the device report: it first asks for the device information.
    pub fn start(has_media: bool) -> (res: (ReportRun, ReportAction))
        ensures
            res.0.phase is AwaitInfo,
            res.0.has_media == has_media,
            res.1.output@ == Seq::<char>::empty(),
            res.1.step is FetchInfo,
    {
        (
            ReportRun { phase: ReportPhase::AwaitInfo, has_media, time: None },
            ReportAction { output: String::new(), step: ReportStep::FetchInfo },
        )
    }

    /// The device information arrived (or the query failed): it is printed,
    /// then the clock settings are asked for.
    pub fn info_fetched(&mut self, answer: Result<DeviceInformation, DeviceError>) -> (res:
        ReportAction)
        requires
            old(self).phase is AwaitInfo,
        ensures
            final(self).has_media == old(self).has_media,
            match answer {
                Err(e) => final(self).phase is Finished && report_fails(res, e),
                Ok(info) => final(self).phase is AwaitTime && res.output@ == device_info_text(info)
                    && res.step is FetchTime,
            },
    {
        match answer {
            Err(e) => {
                self.phase = ReportPhase::Finished;
                ReportAction { output: String::new(), step: ReportStep::Done(Err(e)) }
            },
            Ok(info) => {
                self.phase = ReportPhase::AwaitTime;
                ReportAction { output: device_info_report(&info), step: ReportStep::FetchTime }
            },
        }
    }

    /// The clock settings arrived (or the query failed): they are kept, and
    /// the NTP settings are asked for.
    pub fn time_fetched(&mut self, answer: Result<SystemTime, DeviceError>) -> (res: ReportAction)
        requires
            old(self).phase is AwaitTime,
        ensures
            final(self).has_media == old(self).has_media,
            match answer {
                Err(e) => final(self).phase is Finished && report_fails(res, e),
                Ok(time) => final(self).phase is AwaitNtp && final(self).time == Some(time)
                    && res.output@ == Seq::<char>::empty() && res.step is FetchNtp,
            },
    {
        match answer {
            Err(e) => {
                self.phase = ReportPhase::Finished;
                ReportAction { output: String::new(), step: ReportStep::Done(Err(e)) }
            },
            Ok(time) => {
                self.phase = ReportPhase::AwaitNtp;
                self.time = Some(time);
                ReportAction { output: String::new(), step: ReportStep::FetchNtp }
            },
        }
    }

    /// The NTP settings arrived (or the query failed): the clock block is
    /// printed, then the network interfaces are asked for. The kept clock
    /// settings must name existing dates when the query succeeded.
    pub fn ntp_fetched(&mut self, answer: Result<NtpInformation, DeviceError>) -> (res: ReportAction)
        requires
            old(self).phase is AwaitNtp,
            old(self).time is Some,
            answer is Ok ==> old(self).time->0.times_valid(),
        ensures
            final(self).has_media == old(self).has_media,
            match answer {
                Err(e) => final(self).phase is Finished && report_fails(res, e),
                Ok(ntp) => final(self).phase is AwaitNetwork && clock_block(
                    old(self).time->0,
                    ntp,
                    res.output@,
                ) && res.step is FetchNetwork,
            },
    {
        match answer {
            Err(e) => {
                self.phase = ReportPhase::Finished;
                ReportAction { output: String::new(), step: ReportStep::Done(Err(e)) }
            },
            Ok(ntp) => {
                self.phase = ReportPhase::AwaitNetwork;
                let output = match &self.time {
                    Some(time) => device_time_report(time, &ntp),
                    None => String::new(),
                };
                ReportAction { output, step: ReportStep::FetchNetwork }
            },
        }
    }

    /// The network interfaces arrived (or the query failed): they are
    /// printed, then the media profiles are asked for when the camera has a
    /// media service, the users otherwise.
    pub fn network_fetched(&mut self, answer: Result<Vec<NetworkInterface>, DeviceError>) -> (res:
        ReportAction)
        requires
            old(self).phase is AwaitNetwork,
        ensures
            final(self).has_media == old(self).has_media,
            match answer {
                Err(e) => final(self).phase is Finished && report_fails(res, e),
                Ok(ifaces) => res.output@ == interfaces_text(ifaces@) && if old(self).has_media {
                    final(self).phase is AwaitProfiles && res.step is FetchProfiles
                } else {
                    final(self).phase is AwaitUsers && res.step is FetchUsers
                },
            },
    {
        match answer {
            Err(e) => {
                self.phase = ReportPhase::Finished;
                ReportAction { output: String::new(), step: ReportStep::Done(Err(e)) }
            },
            Ok(ifaces) => {
                let output = network_report(&ifaces);
                if self.has_media {
                    self.phase = ReportPhase::AwaitProfiles;
                    ReportAction { output, step: ReportStep::FetchProfiles }
                } else {
                    self.phase = ReportPhase::AwaitUsers;
                    ReportAction { output, step: ReportStep::FetchUsers }
                }
            },
        }
    }

    /// The media profiles were fetched (or the query failed); they are not
    /// shown. Then the users are asked for.
    pub fn profiles_fetched(&mut self, answer: Result<(), DeviceError>) -> (res: ReportAction)
        requires
            old(self).phase is AwaitProfiles,
        ensures
            final(self).has_media == old(self).has_media,
            match answer {
                Err(e) => final(self).phase is Finished && report_fails(res, e),
                Ok(()) => final(self).phase is AwaitUsers && res.output@ == Seq::<char>::empty()
                    && res.step is FetchUsers,
            },
    {
        match answer {
            Err(e) => {
                self.phase = ReportPhase::Finished;
                ReportAction { output: String::new(), step: ReportStep::Done(Err(e)) }
            },
            Ok(()) => {
                self.phase = ReportPhase::AwaitUsers;
                ReportAction { output: String::new(), step: ReportStep::FetchUsers }
            },
        }
    }

    /// The users arrived (or the query failed): they are printed and the
    /// report ends with status 0.
    pub fn users_fetched(&mut self, answer: Result<Vec<UserAccount>, DeviceError>) -> (res:
        ReportAction)
        requires
            old(self).phase is AwaitUsers,
        ensures
            final(self).has_media == old(self).has_media,
            final(self).phase is Finished,
            match answer {
                Err(e) => report_fails(res, e),
                Ok(users) => res.output@ == "Users:\n"@ + accounts_text(users@) && res.step
                    == ReportStep::Done(Ok::<i32, DeviceError>(0)),
            },
    {
        self.phase = ReportPhase::Finished;
        match answer {
            Err(e) => ReportAction { output: String::new(), step: ReportStep::Done(Err(e)) },
            Ok(users) => ReportAction { output: users_report(&users), step: ReportStep::Done(Ok(0)) },
        }
    }
}

// ---------------------------------------------------------------- laws

/// The camera clock counts as off exactly when its offset from the system
/// clock is above 15 seconds or below -15 seconds; with no UTC time there is
/// no offset and nothing is off.
pub proof fn lemma_mismatch_exactly_beyond_15_seconds(offset: i64)
    ensures
        utc_mismatch_of(Some(offset)) <==> (offset > 15 || offset < -15),
        !utc_mismatch_of(None),
{
}

/// When the camera reports a UTC time, the clock block for a given offset
/// shows the UTC line followed by ` *DOES NOT MATCH SYSTEM*` when the offset
/// is above 15 or below -15 seconds, and is exactly that mark longer than
/// the unmarked block; otherwise it is the unmarked block.
pub proof fn lemma_offset_marks_utc_line(time: SystemTime, ntp: NtpInformation, offset: i64)
    requires
        time.utc is Some,
    ensures
        (offset > 15 || offset < -15) ==> contains_text(
            time_text(time, ntp, utc_mismatch_of(Some(offset))),
            "  UTC\t\t"@ + fields_text(time.utc->0) + " *DOES NOT MATCH SYSTEM*\n"@,
        ),
        time_text(time, ntp, utc_mismatch_of(Some(offset))).len() == time_text(
            time,
            ntp,
            false,
        ).len() + if offset > 15 || offset < -15 {
            24int
        } else {
            0int
        },
        !(offset > 15 || offset < -15) ==> time_text(time, ntp, utc_mismatch_of(Some(offset)))
            == time_text(time, ntp, false),
{
    reveal_strlit(" *DOES NOT MATCH SYSTEM*\n");
    reveal_strlit("\n");
    let m = utc_mismatch_of(Some(offset));
    let head = "Device Time:\n  Source\t"@ + time.source@ + "\n  DST\t\t"@ + bool_text(
        time.daylight_savings,
    ) + "\n"@ + time_zone_text(time.time_zone);
    let tail = local_text(time.local) + ntp_text(ntp);
    assert(time_text(time, ntp, m) =~= head + utc_text(time.utc, m) + tail);
    assert(time_text(time, ntp, false) =~= head + utc_text(time.utc, false) + tail);
    if m {
        lemma_contains_itself(utc_text(time.utc, m));
        lemma_contains_extend(head, utc_text(time.utc, m), tail, utc_text(time.utc, m));
    }
}

proof fn lemma_prefixed_lines_show_each(prefix: Seq<char>, items: Seq<String>, k: int)
    requires
        0 <= k < items.len(),
    ensures
        contains_text(prefixed_lines(prefix, items), prefix + items[k]@ + "\n"@),
    decreases items.len(),
{
    let init = items.drop_last();
    let line = prefix + items.last()@ + "\n"@;
    assert(prefixed_lines(prefix, items) =~= prefixed_lines(prefix, init) + line + Seq::empty());
    if k == items.len() - 1 {
        lemma_contains_itself(line);
        lemma_contains_extend(prefixed_lines(prefix, init), line, Seq::empty(), line);
    } else {
        assert(init[k] == items[k]);
        lemma_prefixed_lines_show_each(prefix, init, k);
        lemma_contains_extend(
            Seq::empty(),
            prefixed_lines(prefix, init),
            line,
            prefix + items[k]@ + "\n"@,
        );
        assert(Seq::<char>::empty() + prefixed_lines(prefix, init) + line =~= prefixed_lines(
            prefix,
            items,
        ));
    }
}

/// Every address set by hand in an IPv4 configuration is shown on an
/// `IP` line, whether DHCP is on or off; every address from DHCP is shown on
/// a `DHCP IP` line when DHCP is on.
pub proof fn lemma_ipv4_addresses_shown(config: Ipv4Config)
    ensures
        forall|k: int|
            0 <= k < config.manual@.len() ==> contains_text(
                ipv4_text(config),
                "  IP\t\t"@ + (#[trigger] config.manual@[k])@ + "\n"@,
            ),
        config.dhcp ==> forall|k: int|
            0 <= k < config.from_dhcp@.len() ==> contains_text(
                ipv4_text(config),
                "  DHCP IP\t"@ + (#[trigger] config.from_dhcp@[k])@ + "\n"@,
            ),
{
    let dhcp_part = if config.dhcp {
        prefixed_lines("  DHCP IP\t"@, config.from_dhcp@)
    } else {
        Seq::empty()
    };
    let manual_part = prefixed_lines("  IP\t\t"@, config.manual@);
    assert forall|k: int| 0 <= k < config.manual@.len() implies contains_text(
        ipv4_text(config),
        "  IP\t\t"@ + (#[trigger] config.manual@[k])@ + "\n"@,
    ) by {
        lemma_prefixed_lines_show_each("  IP\t\t"@, config.manual@, k);
        lemma_contains_extend(
            dhcp_part,
            manual_part,
            Seq::empty(),
            "  IP\t\t"@ + config.manual@[k]@ + "\n"@,
        );
        assert(dhcp_part + manual_part + Seq::empty() =~= ipv4_text(config));
    }
    if config.dhcp {
        assert forall|k: int| 0 <= k < config.from_dhcp@.len() implies contains_text(
            ipv4_text(config),
            "  DHCP IP\t"@ + (#[trigger] config.from_dhcp@[k])@ + "\n"@,
        ) by {
            lemma_prefixed_lines_show_each("  DHCP IP\t"@, config.from_dhcp@, k);
            lemma_contains_extend(
                Seq::empty(),
                dhcp_part,
                manual_part,
                "  DHCP IP\t"@ + config.from_dhcp@[k]@ + "\n"@,
            );
            assert(Seq::<char>::empty() + dhcp_part + manual_part =~= ipv4_text(config));
        }
    }
}

proof fn lemma_ipv4s_show_manual(configs: Seq<Ipv4Config>, j: int, k: int)
    requires
        0 <= j < configs.len(),
        0 <= k < configs[j].manual@.len(),
    ensures
        contains_text(ipv4s_text(configs), "  IP\t\t"@ + configs[j].manual@[k]@ + "\n"@),
    decreases configs.len(),
{
    let init = configs.drop_last();
    let x = "  IP\t\t"@ + configs[j].manual@[k]@ + "\n"@;
    if j == configs.len() - 1 {
        lemma_ipv4_addresses_shown(configs.last());
        assert(configs.last().manual@[k] == configs[j].manual@[k]);
        lemma_contains_extend(ipv4s_text(init), ipv4_text(configs.last()), Seq::empty(), x);
        assert(ipv4s_text(init) + ipv4_text(configs.last()) + Seq::empty() =~= ipv4s_text(
            configs,
        ));
    } else {
        assert(init[j] == configs[j]);
        lemma_ipv4s_show_manual(init, j, k);
        lemma_contains_extend(Seq::empty(), ipv4s_text(init), ipv4_text(configs.last()), x);
        assert(Seq::<char>::empty() + ipv4s_text(init) + ipv4_text(configs.last()) =~= ipv4s_text(
            configs,
        ));
    }
}

/// The network block shows every address set by hand on every interface,
/// each on an `IP` line, whatever the DHCP setting of its configuration.
pub proof fn lemma_network_report_shows_manual_addresses(
    ifaces: Seq<NetworkInterface>,
    i: int,
    j: int,
    k: int,
)
    requires
        0 <= i < ifaces.len(),
        0 <= j < ifaces[i].ipv4@.len(),
        0 <= k < ifaces[i].ipv4@[j].manual@.len(),
    ensures
        contains_text(
            interfaces_text(ifaces),
            "  IP\t\t"@ + ifaces[i].ipv4@[j].manual@[k]@ + "\n"@,
        ),
    decreases ifaces.len(),
{
    let init = ifaces.drop_last();
    let x = "  IP\t\t"@ + ifaces[i].ipv4@[j].manual@[k]@ + "\n"@;
    if i == ifaces.len() - 1 {
        let iface = ifaces.last();
        lemma_ipv4s_show_manual(iface.ipv4@, j, k);
        let head = "Interface "@ + interface_name(iface) + " enabled="@ + bool_text(iface.enabled)
            + "\n"@ + details_text(iface.info);
        lemma_contains_extend(head, ipv4s_text(iface.ipv4@), ssids_text(iface.ssids), x);
        assert(head + ipv4s_text(iface.ipv4@) + ssids_text(iface.ssids) =~= interface_text(iface));
        lemma_contains_extend(interfaces_text(init), interface_text(iface), Seq::empty(), x);
        assert(interfaces_text(init) + interface_text(iface) + Seq::empty() =~= interfaces_text(
            ifaces,
        ));
    } else {
        assert(init[i] == ifaces[i]);
        lemma_network_report_shows_manual_addresses(init, i, j, k);
        lemma_contains_extend(Seq::empty(), interfaces_text(init), interface_text(ifaces.last()), x);
        assert(Seq::<char>::empty() + interfaces_text(init) + interface_text(ifaces.last())
            =~= interfaces_text(ifaces));
    }
}

/// The users block shows every account of the camera, each on its own
/// line with its level in brackets.
pub proof fn lemma_users_report_shows_each(users: Seq<UserAccount>, k: int)
    requires
        0 <= k < users.len(),
    ensures
        contains_text(
            "Users:\n"@ + accounts_text(users),
            "  User\t\t"@ + users[k].username@ + " ("@ + users[k].level@ + ")\n"@,
        ),
    decreases users.len(),
{
    let init = users.drop_last();
    let line = "  User\t\t"@ + users.last().username@ + " ("@ + users.last().level@ + ")\n"@;
    let x = "  User\t\t"@ + users[k].username@ + " ("@ + users[k].level@ + ")\n"@;
    assert("Users:\n"@ + accounts_text(users) =~= "Users:\n"@ + accounts_text(init) + line);
    if k == users.len() - 1 {
        lemma_contains_itself(line);
        lemma_contains_extend("Users:\n"@ + accounts_text(init), line, Seq::empty(), line);
        assert("Users:\n"@ + accounts_text(init) + line + Seq::empty() =~= "Users:\n"@
            + accounts_text(users));
    } else {
        assert(init[k] == users[k]);
        lemma_users_report_shows_each(init, k);
        lemma_contains_extend(Seq::empty(), "Users:\n"@ + accounts_text(init), line, x);
        assert(Seq::<char>::empty() + ("Users:\n"@ + accounts_text(init)) + line =~= "Users:\n"@
            + accounts_text(users));
    }
}

/// The NTP lines show every server set by hand, and every server from DHCP
/// when DHCP is used.
pub proof fn lemma_ntp_servers_shown(ntp: NtpInformation)
    ensures
        forall|k: int|
            0 <= k < ntp.ntp_manual@.len() ==> contains_text(
                ntp_text(ntp),
                host_text(#[trigger] ntp.ntp_manual@[k]),
            ),
        ntp.from_dhcp ==> forall|k: int|
            0 <= k < ntp.ntp_from_dhcp@.len() ==> contains_text(
                ntp_text(ntp),
                host_text(#[trigger] ntp.ntp_from_dhcp@[k]),
            ),
{
    let dhcp = if ntp.from_dhcp {
        "  DHCP NTP\t"@ + hosts_text(ntp.ntp_from_dhcp@) + "\n"@
    } else {
        Seq::empty()
    };
    assert forall|k: int| 0 <= k < ntp.ntp_manual@.len() implies contains_text(
        ntp_text(ntp),
        host_text(#[trigger] ntp.ntp_manual@[k]),
    ) by {
        lemma_hosts_show_each(ntp.ntp_manual@, k);
        lemma_contains_extend(
            dhcp + "  NTP\t\t"@,
            hosts_text(ntp.ntp_manual@),
            "\n"@,
            host_text(ntp.ntp_manual@[k]),
        );
        assert(dhcp + "  NTP\t\t"@ + hosts_text(ntp.ntp_manual@) + "\n"@ =~= ntp_text(ntp));
    }
    if ntp.from_dhcp {
        assert forall|k: int| 0 <= k < ntp.ntp_from_dhcp@.len() implies contains_text(
            ntp_text(ntp),
            host_text(#[trigger] ntp.ntp_from_dhcp@[k]),
        ) by {
            lemma_hosts_show_each(ntp.ntp_from_dhcp@, k);
            lemma_contains_extend(
                "  DHCP NTP\t"@,
                hosts_text(ntp.ntp_from_dhcp@),
                "\n"@ + "  NTP\t\t"@ + hosts_text(ntp.ntp_manual@) + "\n"@,
                host_text(ntp.ntp_from_dhcp@[k]),
            );
            assert("  DHCP NTP\t"@ + hosts_text(ntp.ntp_from_dhcp@) + ("\n"@ + "  NTP\t\t"@
                + hosts_text(ntp.ntp_manual@) + "\n"@) =~= ntp_text(ntp));
        }
    }
}

proof fn lemma_hosts_show_each(hosts: Seq<NetworkHost>, k: int)
    requires
        0 <= k < hosts.len(),
    ensures
        contains_text(hosts_text(hosts), host_text(hosts[k])),
    decreases hosts.len(),
{
    let init = hosts.drop_last();
    let last = host_text(hosts.last());
    if k == hosts.len() - 1 {
        lemma_contains_itself(last);
        lemma_contains_extend(hosts_text(init), last, Seq::empty(), last);
        assert(hosts_text(init) + last + Seq::empty() =~= hosts_text(hosts));
    } else {
        assert(init[k] == hosts[k]);
        lemma_hosts_show_each(init, k);
        lemma_contains_extend(Seq::empty(), hosts_text(init), last, host_text(hosts[k]));
        assert(Seq::<char>::empty() + hosts_text(init) + last =~= hosts_text(hosts));
    }
}

} // verus!

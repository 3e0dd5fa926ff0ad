//! Scenario tests for the documented behaviour of each component.

use simple_server_status::cpu::CpuCounters;
use simple_server_status::parse::{next, parse_u64};
use simple_server_status::ram::RamStatus;
use simple_server_status::{sanitize_division, Error, Ratio, SimpleServerStatus, Sources};

const CPU_1: &str = "cpu  100 50 150 1000 200 10 20 30 40 50\n";
const CPU_2: &str = "cpu  200 100 300 2000 400 20 40 60 80 100\n";

const NET_HEADER: &str = "Inter-|   Receive                                                |  Transmit\n face |bytes    packets errs drop fifo frame compressed multicast|bytes    packets errs drop fifo colls carrier compressed\n";

const RAM: &str = "MemTotal: 1000000 kB\nMemFree: 400000 kB\nBuffers: 0 kB\nCached: 100000 kB\nSReclaimable: 0 kB\nSwapTotal: 100000 kB\nSwapFree: 50000 kB\n";

const TCP: &str = "  sl  local_address rem_address\n   0: 0100007F;1538 00000000;0000\n   1: 0100007F;0050 00000000;0000\n";

const UDP: &str = "   sl  local_address rem_address\n  100: 0100007F;0035 00000000;0000\n";

const CONNTRACK: &str = "ipv4 2 tcp 6 431999 ESTABLISHED src=10.0.0.2 dst=10.0.0.1\nipv4 2 udp 17 29 src=10.0.0.2 dst=10.0.0.3\n";

fn net_text(rx_bytes: u64, tx_bytes: u64) -> String {
    format!(
        "{}  eth0: {} 1000 0 0 0 0 0 0 {} 600 0 0 0 0 0 0\n",
        NET_HEADER, rx_bytes, tx_bytes
    )
}

fn sources(
    cpu: Option<&str>,
    net: Option<&str>,
    ram: Option<&str>,
    tcp: Option<&str>,
    udp: Option<&str>,
    conntrack: Option<&str>,
    now_millis: u64,
) -> Sources {
    Sources {
        cpu: cpu.map(|s| s.as_bytes().to_vec()),
        net: net.map(|s| s.as_bytes().to_vec()),
        ram: ram.map(|s| s.as_bytes().to_vec()),
        tcp: tcp.map(|s| s.as_bytes().to_vec()),
        udp: udp.map(|s| s.as_bytes().to_vec()),
        conntrack: conntrack.map(|s| s.as_bytes().to_vec()),
        now_millis,
    }
}

fn ratio_f32(r: Ratio) -> f32 {
    (r.num as f64 / r.den as f64) as f32
}

#[test]
fn delta_metrics_absent_then_present() {
    let net1 = net_text(1000000, 500000);
    let net2 = net_text(2000000, 500000);
    let mut status = SimpleServerStatus::new();

    assert_eq!(status.cpu_usage(), None);
    assert_eq!(status.net_bandwidth(), None);

    let first = sources(
        Some(CPU_1),
        Some(&net1),
        Some(RAM),
        Some(TCP),
        Some(UDP),
        Some(CONNTRACK),
        1000,
    );
    status.update(&first).unwrap();

    assert!(status.cpu_usage().is_none());
    assert!(status.cpu_local_usage().is_none());
    assert!(status.cpu_stolen_usage().is_none());
    assert!(status.cpu_idle_fraction().is_none());
    assert!(status.net_bandwidth().is_none());
    assert!(status.net_reception_bandwidth().is_none());
    assert!(status.net_transmission_bandwidth().is_none());

    let second = sources(
        Some(CPU_2),
        Some(&net2),
        Some(RAM),
        Some(TCP),
        Some(UDP),
        Some(CONNTRACK),
        2000,
    );
    status.update(&second).unwrap();

    assert!(status.cpu_usage().is_some());
    assert!(status.cpu_local_usage().is_some());
    assert!(status.cpu_stolen_usage().is_some());
    assert!(status.cpu_idle_fraction().is_some());
    assert!(status.net_bandwidth().is_some());
    assert!(status.net_reception_bandwidth().is_some());
    assert!(status.net_transmission_bandwidth().is_some());
}

#[test]
fn sanitized_ratio_bounds() {
    assert_eq!(sanitize_division(5, 0), None);
    assert_eq!(sanitize_division(0, 0), None);

    assert_eq!(sanitize_division(1, 2), Some(Ratio { num: 1, den: 2 }));
    assert_eq!(sanitize_division(0, 7), Some(Ratio { num: 0, den: 7 }));

    // A numerator above the denominator clamps to exactly 1.
    assert_eq!(sanitize_division(9, 4), Some(Ratio { num: 4, den: 4 }));
    assert_eq!(ratio_f32(sanitize_division(9, 4).unwrap()), 1.0);
    assert_eq!(
        sanitize_division(u64::MAX, 1),
        Some(Ratio { num: 1, den: 1 })
    );

    let cases: [(u64, u64); 5] = [(1, 2), (3, 3), (7, 2), (0, 9), (u64::MAX, u64::MAX)];
    let mut i: usize = 0;
    while i < cases.len() {
        let (n, d) = cases[i];
        let f = ratio_f32(sanitize_division(n, d).unwrap());
        assert!(f >= 0.0);
        assert!(f <= 1.0);
        i += 1;
    }
}

#[test]
fn cpu_usage_plus_idle_fraction_is_one() {
    let mut status = SimpleServerStatus::new();
    status
        .update(&sources(Some(CPU_1), None, None, None, None, None, 1000))
        .unwrap_err();
    status
        .update(&sources(Some(CPU_2), None, None, None, None, None, 2000))
        .unwrap_err();

    let usage = status.cpu_usage().unwrap();
    let idle = status.cpu_idle_fraction().unwrap();

    // The exact fractions share a denominator and their numerators
    // partition it, so the floating sum is 1 within rounding.
    assert_eq!(usage.den, idle.den);
    assert_eq!(usage.num + idle.num, usage.den);
    let sum = ratio_f32(usage) + ratio_f32(idle);
    assert!((sum - 1.0).abs() < 1e-6);
}

#[test]
fn net_bandwidth_is_reception_plus_transmission() {
    let net1 = net_text(1000000, 500000);
    // 999 ms elapsed and uneven deltas, so the divisions round.
    let net2 = net_text(2000001, 500003);
    let mut status = SimpleServerStatus::new();
    status
        .update(&sources(None, Some(&net1), None, None, None, None, 1000))
        .unwrap_err();
    status
        .update(&sources(None, Some(&net2), None, None, None, None, 1999))
        .unwrap_err();

    let bw = status.net_bandwidth().unwrap();
    let rx = status.net_reception_bandwidth().unwrap();
    let tx = status.net_transmission_bandwidth().unwrap();
    assert!(rx + tx <= bw);
    assert!(bw <= rx + tx + 1);
}

#[test]
fn ram_zero_total_is_malformed() {
    let text = "MemTotal: 0 kB\nMemFree: 0 kB\n";
    assert_eq!(
        RamStatus::sample(text.as_bytes()),
        Err(Error::MalformedSource)
    );
}

#[test]
fn ram_unit_must_be_kb() {
    assert_eq!(
        RamStatus::sample(b"MemTotal: 100 mB\n"),
        Err(Error::MalformedSource)
    );
    // Any capitalization of kB is accepted, and a bare value is too.
    assert!(RamStatus::sample(b"MemTotal: 100 kB\n").is_ok());
    assert!(RamStatus::sample(b"MemTotal: 100 KB\n").is_ok());
    assert!(RamStatus::sample(b"MemTotal: 100 Kb\n").is_ok());
    assert!(RamStatus::sample(b"MemTotal: 100 kb\n").is_ok());
    assert!(RamStatus::sample(b"MemTotal: 100\n").is_ok());
    // Unrecognized labels are ignored, whatever their unit.
    assert!(RamStatus::sample(b"MemTotal: 100 kB\nHugePages: 2 MB\n").is_ok());
}

#[test]
fn cpu_missing_required_field_fails() {
    // The idle column is missing entirely.
    assert_eq!(
        CpuCounters::sample(b"cpu 100 50 150\n"),
        Err(Error::MissingField)
    );
    // A non-numeric steal token degrades to 0 instead.
    let counters = CpuCounters::sample(b"cpu 100 50 150 1000 200 10 20 xyz 40 50\n").unwrap();
    assert_eq!(counters.steal, 0);
    assert_eq!(counters.guest, 40);
}

#[test]
fn cpu_malformed_required_field_fails() {
    assert_eq!(
        CpuCounters::sample(b"cpu 100 abc 150 1000\n"),
        Err(Error::MalformedInteger)
    );
    assert_eq!(
        CpuCounters::sample(b"intr 100 50 150 1000\n"),
        Err(Error::MalformedSource)
    );
    assert_eq!(CpuCounters::sample(b""), Err(Error::MalformedSource));
    // Only the first line is read: required fields may not spill over.
    assert_eq!(
        CpuCounters::sample(b"cpu 100 50\n150 1000\n"),
        Err(Error::MissingField)
    );
}

#[test]
fn ram_usage_concrete_scenario() {
    // used = 1000000 - 400000 - 0 - 100000 - 0 = 500000 kB of 1000000 kB.
    let status = RamStatus::sample(RAM.as_bytes()).unwrap();
    let usage = status.usage().unwrap();
    assert_eq!(
        usage,
        Ratio {
            num: 500000 * 1024,
            den: 1000000 * 1024,
        }
    );
    assert!((ratio_f32(usage) - 0.5).abs() < 1e-6);
}

#[test]
fn net_bandwidth_concrete_scenario() {
    // rx grows by 1,000,000 bytes and tx not at all over a 1000 ms gap.
    let net1 = net_text(1000000, 500000);
    let net2 = net_text(2000000, 500000);
    let mut status = SimpleServerStatus::new();
    status
        .update(&sources(None, Some(&net1), None, None, None, None, 1000))
        .unwrap_err();
    status
        .update(&sources(None, Some(&net2), None, None, None, None, 2000))
        .unwrap_err();

    assert_eq!(status.net_reception_bandwidth(), Some(1000000));
    assert_eq!(status.net_transmission_bandwidth(), Some(0));
    assert_eq!(status.net_bandwidth(), Some(1000000));
}

#[test]
fn unreadable_source_fails_but_others_update() {
    let net1 = net_text(1000000, 500000);
    let mut status = SimpleServerStatus::new();
    let first = sources(
        Some(CPU_1),
        Some(&net1),
        Some(RAM),
        Some(TCP),
        Some(UDP),
        Some(CONNTRACK),
        1000,
    );
    status.update(&first).unwrap();

    // The network source becomes unreadable; everything else stays valid.
    let second = sources(
        Some(CPU_2),
        None,
        Some(RAM),
        Some(TCP),
        Some(UDP),
        Some(CONNTRACK),
        2000,
    );
    assert_eq!(status.update(&second), Err(Error::SourceUnavailable));

    // The domains that could be read reflect the fresh readings.
    assert!(status.cpu_usage().is_some());
    assert!(status.ram_usage().is_some());
    assert_eq!(status.tcp_connections(), Some(2));
    assert_eq!(status.udp_sockets(), Some(1));
    assert_eq!(status.conntrack_sessions(), Some(2));
    // The failed domain has no fresh reading to report.
    assert_eq!(status.net_bandwidth(), None);
}

#[test]
fn update_reports_one_representative_error() {
    // Two domains fail at once; exactly one error comes back, and it is
    // the one of the last domain attempted.
    let mut status = SimpleServerStatus::new();
    let readings = sources(
        Some("intr 1 2 3 4"),
        None,
        Some(RAM),
        Some(TCP),
        Some(UDP),
        Some(CONNTRACK),
        1000,
    );
    assert_eq!(status.update(&readings), Err(Error::SourceUnavailable));
    assert_eq!(status.tcp_connections(), Some(2));
}

#[test]
fn integer_parsing_edges() {
    let max = b"18446744073709551615";
    assert_eq!(parse_u64(max, 0, max.len()), Some(u64::MAX));
    let over = b"18446744073709551616";
    assert_eq!(parse_u64(over, 0, over.len()), None);
    assert_eq!(parse_u64(b"+42", 0, 3), Some(42));
    assert_eq!(parse_u64(b"+", 0, 1), None);
    assert_eq!(parse_u64(b"4x2", 0, 3), None);
    assert_eq!(parse_u64(b"007", 0, 3), Some(7));

    let (p, r) = next(b"  12 34", 0, 7);
    assert_eq!(r, Ok(12));
    let (_p2, r2) = next(b"  12 34", p, 7);
    assert_eq!(r2, Ok(34));
    let (_p3, r3) = next(b"   ", 0, 3);
    assert_eq!(r3, Err(Error::MissingField));
}

#[test]
fn ram_missing_and_malformed_values() {
    // A recognized label with no value is a missing field.
    assert_eq!(
        RamStatus::sample(b"MemTotal:\n"),
        Err(Error::MissingField)
    );
    // A recognized label with a non-numeric value is a malformed integer.
    assert_eq!(
        RamStatus::sample(b"MemTotal: lots kB\n"),
        Err(Error::MalformedInteger)
    );
    // Unrecognized labels never parse their value.
    assert!(RamStatus::sample(b"Bounce: lots kB\nMemTotal: 5 kB\n").is_ok());
}

#[test]
fn counter_reset_clamps_to_zero() {
    // The byte counter goes backwards, as after a counter reset: the
    // saturating delta is 0, not a huge wrapped value.
    let net1 = net_text(1000000, 500000);
    let net2 = net_text(400, 500000);
    let mut status = SimpleServerStatus::new();
    status
        .update(&sources(None, Some(&net1), None, None, None, None, 1000))
        .unwrap_err();
    status
        .update(&sources(None, Some(&net2), None, None, None, None, 2000))
        .unwrap_err();
    assert_eq!(status.net_reception_bandwidth(), Some(0));
}

#[test]
fn loopback_excluded() {
    let text = format!(
        "{}    lo: 7000 70 0 0 0 0 0 0 9000 90 0 0 0 0 0 0\n  eth0: 1000 10 0 0 0 0 0 0 2000 20 0 0 0 0 0 0\n",
        NET_HEADER
    );
    let counters =
        simple_server_status::net::NetCounters::sample(text.as_bytes(), 1000).unwrap();
    assert_eq!(counters.rx_bytes, 1000);
    assert_eq!(counters.tx_bytes, 2000);
    assert_eq!(counters.rx_packets, 10);
}

#[test]
fn net_malformed_field_fails() {
    let text = format!("{}  eth0: 1000 bad 0 0 0 0 0 0 2000 20 0 0 0 0 0 0\n", NET_HEADER);
    assert_eq!(
        simple_server_status::net::NetCounters::sample(text.as_bytes(), 1000),
        Err(Error::MalformedInteger)
    );
    let truncated = format!("{}  eth0: 1000 10 0 0\n", NET_HEADER);
    assert_eq!(
        simple_server_status::net::NetCounters::sample(truncated.as_bytes(), 1000),
        Err(Error::MissingField)
    );
}

#[test]
fn net_interface_sums_saturate() {
    // Two interfaces whose byte counters together exceed the maximum: the
    // sum saturates instead of wrapping.
    let text = format!(
        "{}  eth0: 18446744073709551615 1 0 0 0 0 0 0 5 1 0 0 0 0 0 0\n  eth1: 7 1 0 0 0 0 0 0 5 1 0 0 0 0 0 0\n",
        NET_HEADER
    );
    let counters =
        simple_server_status::net::NetCounters::sample(text.as_bytes(), 1000).unwrap();
    assert_eq!(counters.rx_bytes, u64::MAX);
    assert_eq!(counters.tx_bytes, 10);
}

#[test]
fn empty_sources_behave() {
    let mut status = SimpleServerStatus::new();
    let empty = sources(Some(""), Some(""), Some(""), Some(""), Some(""), Some(""), 1000);
    // The CPU and RAM sources reject empty text; the counts read zero.
    let err = status.update(&empty).unwrap_err();
    assert_eq!(err, Error::MalformedSource);
    assert_eq!(status.tcp_connections(), Some(0));
    assert_eq!(status.udp_sockets(), Some(0));
    assert_eq!(status.conntrack_sessions(), Some(0));
}

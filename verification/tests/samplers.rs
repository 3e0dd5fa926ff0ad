//! The sampler flow, driven by synthetic source texts.

use simple_server_status::cpu::CpuCounters;
use simple_server_status::net::NetCounters;
use simple_server_status::{Ratio, SimpleServerStatus, Sources};

const CPU_1: &str = "cpu  100 50 150 1000 200 10 20 30 40 50\ncpu0 100 50 150 1000 200 10 20 30 40 50\n";
const CPU_2: &str = "cpu  200 100 300 2000 400 20 40 60 80 100\ncpu0 200 100 300 2000 400 20 40 60 80 100\n";

const NET_1: &str = "Inter-|   Receive                                                |  Transmit\n face |bytes    packets errs drop fifo frame compressed multicast|bytes    packets errs drop fifo colls carrier compressed\n    lo:     100      10    0    0    0     0          0         0     100      10    0    0    0     0       0          0\n  eth0: 1000000    1000    0    0    0     0          0         0  500000     600    0    0    0     0       0          0\n";
const NET_2: &str = "Inter-|   Receive                                                |  Transmit\n face |bytes    packets errs drop fifo frame compressed multicast|bytes    packets errs drop fifo colls carrier compressed\n    lo:     200      20    0    0    0     0          0         0     200      20    0    0    0     0       0          0\n  eth0: 2000000    2000    0    0    0     0          0         0  500000     600    0    0    0     0       0          0\n";

const RAM: &str = "MemTotal: 1000000 kB\nMemFree: 400000 kB\nMemAvailable: 500000 kB\nBuffers: 0 kB\nCached: 100000 kB\nSReclaimable: 0 kB\nSwapTotal: 100000 kB\nSwapFree: 50000 kB\n";

const TCP: &str = "  sl  local_address rem_address   st tx_queue rx_queue tr tm when retrnsmt   uid  timeout inode\n   0: 0100007F;1538 00000000;0000 0A 00000000;00000000 00;00000000 00000000   101        0 20011 1 0000000000000000 100 0 0 10 0\n   1: 0100007F;0050 00000000;0000 0A 00000000;00000000 00;00000000 00000000     0        0 20012 1 0000000000000000 100 0 0 10 0\n";

const UDP: &str = "   sl  local_address rem_address   st tx_queue rx_queue tr tm when retrnsmt   uid  timeout inode ref pointer drops\n  100: 0100007F;0035 00000000;0000 07 00000000;00000000 00;00000000 00000000   102        0 20100 2 0000000000000000 0\n";

const CONNTRACK: &str = "ipv4     2 tcp      6 431999 ESTABLISHED src=10.0.0.2 dst=10.0.0.1\nipv4     2 udp     17 29 src=10.0.0.2 dst=10.0.0.3\nipv4     2 tcp      6 120 TIME_WAIT src=10.0.0.4 dst=10.0.0.1\n";

fn sources(
    cpu: Option<&str>,
    net: Option<&str>,
    ram: Option<&str>,
    tcp: Option<&str>,
    udp: Option<&str>,
    conntrack: Option<&str>,
    now_millis: u64,
) -> Sources {
    Sources {
        cpu: cpu.map(|s| s.as_bytes().to_vec()),
        net: net.map(|s| s.as_bytes().to_vec()),
        ram: ram.map(|s| s.as_bytes().to_vec()),
        tcp: tcp.map(|s| s.as_bytes().to_vec()),
        udp: udp.map(|s| s.as_bytes().to_vec()),
        conntrack: conntrack.map(|s| s.as_bytes().to_vec()),
        now_millis,
    }
}

fn first_reading(now_millis: u64) -> Sources {
    sources(
        Some(CPU_1),
        Some(NET_1),
        Some(RAM),
        Some(TCP),
        Some(UDP),
        Some(CONNTRACK),
        now_millis,
    )
}

fn second_reading(now_millis: u64) -> Sources {
    sources(
        Some(CPU_2),
        Some(NET_2),
        Some(RAM),
        Some(TCP),
        Some(UDP),
        Some(CONNTRACK),
        now_millis,
    )
}

fn ratio_f32(r: Ratio) -> f32 {
    (r.num as f64 / r.den as f64) as f32
}

#[test]
fn cpu() {
    let mut status = SimpleServerStatus::new();

    assert_eq!(status.cpu_usage(), None);
    assert_eq!(status.cpu_local_usage(), None);
    assert_eq!(status.cpu_stolen_usage(), None);

    status.update(&first_reading(1000)).unwrap();

    assert!(status.cpu_usage().is_none());
    assert!(status.cpu_local_usage().is_none());
    assert!(status.cpu_stolen_usage().is_none());

    status.update(&second_reading(2000)).unwrap();

    assert!(status.cpu_usage().is_some());
    assert!(status.cpu_local_usage().is_some());
    assert!(status.cpu_stolen_usage().is_some());

    let usage = ratio_f32(status.cpu_usage().unwrap());
    println!("cpu_usage: {}", usage);
    assert!(usage > 0.0);
    assert!(usage <= 1.0);

    let local_usage = ratio_f32(status.cpu_local_usage().unwrap());
    println!("cpu_local_usage: {}", local_usage);
    assert!(local_usage > 0.0);
    assert!(local_usage <= 1.0);

    let stolen_usage = ratio_f32(status.cpu_stolen_usage().unwrap());
    println!("cpu_stolen_usage: {}", stolen_usage);
    assert!(stolen_usage >= 0.0);
    assert!(stolen_usage <= 1.0);
}

#[test]
fn cpu_counters() {
    let counters = CpuCounters::sample(CPU_1.as_bytes()).unwrap();
    println!("cpu_counters: {:?}", counters);
}

#[test]
fn net() {
    let mut status = SimpleServerStatus::default();

    assert_eq!(status.net_bandwidth(), None);
    assert_eq!(status.net_reception_bandwidth(), None);
    assert_eq!(status.net_transmission_bandwidth(), None);

    status.update(&first_reading(1000)).unwrap();

    assert!(status.net_bandwidth().is_none());
    assert!(status.net_reception_bandwidth().is_none());
    assert!(status.net_transmission_bandwidth().is_none());

    status.update(&second_reading(1250)).unwrap();

    let bandwidth = status.net_bandwidth().unwrap();
    println!("net_bandwidth: {}", bandwidth);
    let reception_bandwidth = status.net_reception_bandwidth().unwrap();
    println!("net_reception_bandwidth: {}", reception_bandwidth);
    let transmission_bandwidth = status.net_transmission_bandwidth().unwrap();
    println!("net_transmission_bandwidth: {}", transmission_bandwidth);
}

#[test]
fn net_counters() {
    let counters = NetCounters::sample(NET_1.as_bytes(), 1000).unwrap();
    println!("net_counters: {:?}", counters);
    assert_eq!(counters.rx_bytes, 1000000);
    assert_eq!(counters.tx_bytes, 500000);
}

#[test]
fn ram() {
    let mut status = SimpleServerStatus::new();

    assert_eq!(status.ram_usage(), None);
    assert_eq!(status.ram_swap_usage(), None);

    status.update(&first_reading(1000)).unwrap();

    let usage = ratio_f32(status.ram_usage().unwrap());
    println!("ram_usage: {}", usage);
    assert!(usage > 0.0);
    assert!(usage <= 1.0);

    let swap_usage = ratio_f32(status.ram_swap_usage().unwrap());
    println!("ram_swap_usage: {}", swap_usage);
    assert!(swap_usage >= 0.0);
    assert!(swap_usage <= 1.0);
}

#[test]
fn tcp() {
    let mut status = SimpleServerStatus::new();

    assert_eq!(status.tcp_connections(), None);

    status.update(&first_reading(1000)).unwrap();

    let connections = status.tcp_connections().unwrap();
    println!("tcp_connections: {}", connections);
    assert_eq!(connections, 2);
}

#[test]
fn udp() {
    let mut status = SimpleServerStatus::default();

    assert_eq!(status.udp_sockets(), None);

    status.update(&first_reading(1000)).unwrap();

    let connections = status.udp_sockets().unwrap();
    println!("udp_sockets: {}", connections);
    assert_eq!(connections, 1);
}

#[test]
fn conntrack() {
    let mut status = SimpleServerStatus::default();

    assert_eq!(status.conntrack_sessions(), None);

    status.update(&first_reading(1000)).unwrap();

    let connections = status.conntrack_sessions().unwrap();
    println!("conntrack_sessions: {}", connections);
    assert_eq!(connections, 3);
}

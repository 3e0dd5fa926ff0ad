//! Point-in-time system-metrics sampling for Unix-like hosts.
//!
//! The library parses the text of kernel pseudo-files (CPU statistics,
//! network-device statistics, memory info, connection tables) into counter
//! snapshots, and derives bounded rate/ratio metrics from pairs of
//! snapshots taken at different instants.  Reading the pseudo-files and the
//! wall clock is left to the caller; every function here is a pure
//! computation on the bytes and values it is handed.

use vstd::prelude::*;

pub mod conntrack;
pub mod cpu;
pub mod net;
pub mod parse;
pub mod ram;
pub mod tcp;
pub mod udp;

verus! {

/// Why a sample could not be taken or parsed.
#[derive(Clone, Copy, Debug, PartialEq, Eq, Structural)]
pub enum Error {
    /// The data source could not be opened or read at all.
    SourceUnavailable,
    /// The content does not match the expected structural shape.
    MalformedSource,
    /// A required whitespace-delimited token is absent.
    MissingField,
    /// A required token is present but is not a non-negative base-10 integer.
    MalformedInteger,
}

/// An exact fraction known to lie in `[0, 1]`: `num <= den` and `den > 0`.
///
/// Metrics that conceptually are a clamped floating fraction are returned in
/// this exact form; an embedding layer may convert with
/// `num as f64 / den as f64`.
#[derive(Clone, Copy, Debug, PartialEq, Eq, Structural)]
pub struct Ratio {
    pub num: u64,
    pub den: u64,
}

impl Ratio {
    /// The fraction is well formed: bounded by 1 and with a nonzero denominator.
    pub open spec fn wf(self) -> bool {
        self.num <= self.den && self.den > 0
    }
}

/// What `sanitize_division` returns: nothing on a zero denominator,
/// otherwise the fraction with its numerator clamped down to the denominator.
pub open spec fn spec_sanitize_division(numerator: u64, denominator: u64) -> Option<Ratio> {
    if denominator == 0 {
        None
    } else if numerator > denominator {
        Some(Ratio { num: denominator, den: denominator })
    } else {
        Some(Ratio { num: numerator, den: denominator })
    }
}

/// Turns a numerator and denominator into a bounded fraction, or nothing
/// when the denominator is zero.  Clamping the numerator to the denominator
/// is intentional: counter skew between two reads can transiently push a
/// ratio above 1, and callers want a bounded fraction.  A quotient of two
/// 64-bit naturals with a nonzero denominator is always finite, so the
/// zero denominator is the only absent case.
pub fn sanitize_division(numerator: u64, denominator: u64) -> (r: Option<Ratio>)
    ensures
        r == spec_sanitize_division(numerator, denominator),
        r matches Some(q) ==> q.wf(),
{
    if denominator == 0 {
        None
    } else if numerator > denominator {
        Some(Ratio { num: denominator, den: denominator })
    } else {
        Some(Ratio { num: numerator, den: denominator })
    }
}

/// `a * b`, saturating at `u64::MAX`.
pub open spec fn spec_sat_mul(a: u64, b: u64) -> u64 {
    if a * b > u64::MAX {
        u64::MAX
    } else {
        (a * b) as u64
    }
}

/// Saturating multiplication; counter arithmetic must saturate, never wrap.
pub fn sat_mul(a: u64, b: u64) -> (r: u64)
    ensures
        r == spec_sat_mul(a, b),
{
    if b != 0 && a > u64::MAX / b {
        proof {
            let m = u64::MAX as int;
            let q = m / (b as int);
            vstd::arithmetic::div_mod::lemma_fundamental_div_mod(m, b as int);
            vstd::arithmetic::mul::lemma_mul_inequality(q + 1, a as int, b as int);
            assert((q + 1) * (b as int) == q * (b as int) + b) by (nonlinear_arith);
        }
        u64::MAX
    } else {
        proof {
            if b != 0 {
                let m = u64::MAX as int;
                let q = m / (b as int);
                vstd::arithmetic::div_mod::lemma_fundamental_div_mod(m, b as int);
                vstd::arithmetic::mul::lemma_mul_inequality(a as int, q, b as int);
            } else {
                assert(a * b == 0) by (nonlinear_arith)
                    requires
                        b == 0,
                ;
            }
        }
        a * b
    }
}

/// The core of the delta engine: given the same counter pair extracted from
/// an old and a new snapshot, the ratio of the saturating differences.
/// Clamp-to-zero subtraction treats a counter reset as a zero delta.
pub open spec fn spec_delta_ratio(old_num: u64, new_num: u64, old_den: u64, new_den: u64) -> Option<
    Ratio,
> {
    spec_sanitize_division(new_num.saturating_sub(old_num), new_den.saturating_sub(old_den))
}

/// Computes a bounded ratio from the growth of a numerator counter and a
/// denominator counter between two snapshots of the same kind.
pub fn delta_ratio(old_num: u64, new_num: u64, old_den: u64, new_den: u64) -> (r: Option<Ratio>)
    ensures
        r == spec_delta_ratio(old_num, new_num, old_den, new_den),
        r matches Some(q) ==> q.wf(),
{
    sanitize_division(new_num.saturating_sub(old_num), new_den.saturating_sub(old_den))
}

/// The spec view of an optional source text.
pub open spec fn src_view(src: Option<&[u8]>) -> Option<Seq<u8>> {
    match src {
        None => None,
        Some(t) => Some(t@),
    }
}

/// The spec view of an owned optional source text.
pub open spec fn opt_bytes_view(src: Option<Vec<u8>>) -> Option<Seq<u8>> {
    match src {
        None => None,
        Some(t) => Some(t@),
    }
}

fn as_src(src: &Option<Vec<u8>>) -> (r: Option<&[u8]>)
    ensures
        src_view(r) == opt_bytes_view(*src),
{
    match src {
        None => None,
        Some(v) => Some(v.as_slice()),
    }
}

/// `a.and(b)`: the first argument's error wins, otherwise the second value.
fn and_result(a: Result<(), Error>, b: Result<(), Error>) -> (r: Result<(), Error>)
    ensures
        r == (if a is Err {
            a
        } else {
            b
        }),
{
    match a {
        Err(e) => Err(e),
        Ok(()) => b,
    }
}

/// The raw text of every kernel source for one `update`, read by the
/// caller; `None` stands for a source that could not be read.  The capture
/// time in milliseconds since the epoch timestamps the network reading.
pub struct Sources {
    pub cpu: Option<Vec<u8>>,
    pub net: Option<Vec<u8>>,
    pub ram: Option<Vec<u8>>,
    pub tcp: Option<Vec<u8>>,
    pub udp: Option<Vec<u8>>,
    pub conntrack: Option<Vec<u8>>,
    pub now_millis: u64,
}

/// Simple APIs to measure the status of a Unix-like server: one state per
/// metric domain, each holding what its last two samplings showed.
#[derive(Clone, Copy, Debug, PartialEq, Eq, Structural)]
pub struct SimpleServerStatus {
    pub cpu: cpu::CpuStatus,
    pub net: net::NetStatus,
    pub ram: ram::RamStatus,
    pub tcp: tcp::TcpStatus,
    pub udp: udp::UdpStatus,
    pub conntrack: conntrack::ConntrackStatus,
}

impl Default for SimpleServerStatus {
    /// The state before any sampling: every metric is absent.
    fn default() -> (r: Self)
        ensures
            r.cpu.prev is None,
            r.cpu.curr is None,
            r.net.prev is None,
            r.net.curr is None,
            r.ram == ram::spec_ram_zero(),
            r.tcp.count is None,
            r.udp.count is None,
            r.conntrack.count is None,
    {
        SimpleServerStatus {
            cpu: Default::default(),
            net: Default::default(),
            ram: Default::default(),
            tcp: Default::default(),
            udp: Default::default(),
            conntrack: Default::default(),
        }
    }
}

impl SimpleServerStatus {
    pub fn new() -> (r: Self)
        ensures
            r.cpu.prev is None,
            r.cpu.curr is None,
            r.net.prev is None,
            r.net.curr is None,
            r.ram == ram::spec_ram_zero(),
            r.tcp.count is None,
            r.udp.count is None,
            r.conntrack.count is None,
    {
        Default::default()
    }

    /// What one `update` does: every domain is resampled independently, and
    /// the result is the error of the last domain that failed, if any did.
    pub open spec fn spec_update(
        self,
        cpu_src: Option<Seq<u8>>,
        net_src: Option<Seq<u8>>,
        ram_src: Option<Seq<u8>>,
        tcp_src: Option<Seq<u8>>,
        udp_src: Option<Seq<u8>>,
        conntrack_src: Option<Seq<u8>>,
        now_millis: u64,
    ) -> (SimpleServerStatus, Result<(), Error>) {
        let (cpu2, cpu_r) = self.cpu.spec_update(cpu_src);
        let (net2, net_r) = self.net.spec_update(net_src, now_millis);
        let (ram2, ram_r) = ram::RamStatus::spec_update(ram_src);
        let (tcp2, tcp_r) = self.tcp.spec_update(tcp_src);
        let (udp2, udp_r) = self.udp.spec_update(udp_src);
        let (conntrack2, conntrack_r) = self.conntrack.spec_update(conntrack_src);
        let updated = SimpleServerStatus {
            cpu: cpu2,
            net: net2,
            ram: ram2,
            tcp: tcp2,
            udp: udp2,
            conntrack: conntrack2,
        };
        let combined = if conntrack_r is Err {
            conntrack_r
        } else if udp_r is Err {
            udp_r
        } else if tcp_r is Err {
            tcp_r
        } else if ram_r is Err {
            ram_r
        } else if net_r is Err {
            net_r
        } else {
            cpu_r
        };
        (updated, combined)
    }

    /// Makes a new measurement from the given source texts, clearing the
    /// old one.  Every domain is attempted even when another domain fails;
    /// at most one error is returned, and the domains that succeeded keep
    /// their fresh data.
    pub fn update(&mut self, src: &Sources) -> (r: Result<(), Error>)
        ensures
            (*final(self), r) == old(self).spec_update(
                opt_bytes_view(src.cpu),
                opt_bytes_view(src.net),
                opt_bytes_view(src.ram),
                opt_bytes_view(src.tcp),
                opt_bytes_view(src.udp),
                opt_bytes_view(src.conntrack),
                src.now_millis,
            ),
            r is Ok <==> {
                &&& old(self).cpu.spec_update(opt_bytes_view(src.cpu)).1 is Ok
                &&& old(self).net.spec_update(opt_bytes_view(src.net), src.now_millis).1 is Ok
                &&& ram::RamStatus::spec_update(opt_bytes_view(src.ram)).1 is Ok
                &&& old(self).tcp.spec_update(opt_bytes_view(src.tcp)).1 is Ok
                &&& old(self).udp.spec_update(opt_bytes_view(src.udp)).1 is Ok
                &&& old(self).conntrack.spec_update(opt_bytes_view(src.conntrack)).1 is Ok
            },
    {
        let mut result: Result<(), Error> = Ok(());
        result = and_result(self.cpu.update(as_src(&src.cpu)), result);
        result = and_result(self.net.update(as_src(&src.net), src.now_millis), result);
        result = and_result(self.ram.update(as_src(&src.ram)), result);
        result = and_result(self.tcp.update(as_src(&src.tcp)), result);
        result = and_result(self.udp.update(as_src(&src.udp)), result);
        result = and_result(self.conntrack.update(as_src(&src.conntrack)), result);
        result
    }

    /// Fraction (0..=1) of cpu used between the last two calls to `update`.
    pub fn cpu_usage(&self) -> (r: Option<Ratio>)
        ensures
            r == self.cpu.spec_usage(),
            r matches Some(q) ==> q.wf(),
    {
        self.cpu.usage()
    }

    /// Fraction (0..=1) of cpu used local to the current OS between the
    /// last two calls to `update`.
    pub fn cpu_local_usage(&self) -> (r: Option<Ratio>)
        ensures
            r == self.cpu.spec_local_usage(),
            r matches Some(q) ==> q.wf(),
    {
        self.cpu.local_usage()
    }

    /// Fraction (0..=1) of cpu used outside the current OS (i.e. the
    /// hypervisor) between the last two calls to `update`.
    pub fn cpu_stolen_usage(&self) -> (r: Option<Ratio>)
        ensures
            r == self.cpu.spec_stolen_usage(),
            r matches Some(q) ==> q.wf(),
    {
        self.cpu.stolen_usage()
    }

    /// Fraction (0..=1) of cpu spent idle or waiting on I/O between the
    /// last two calls to `update`.
    pub fn cpu_idle_fraction(&self) -> (r: Option<Ratio>)
        ensures
            r == self.cpu.spec_idle_fraction(),
            r matches Some(q) ==> q.wf(),
    {
        self.cpu.idle_fraction()
    }

    /// Average transmitted plus received bytes per second between the last
    /// two calls to `update`, over all interfaces except `lo`.
    pub fn net_bandwidth(&self) -> (r: Option<u64>)
        ensures
            r == self.net.spec_bandwidth(),
    {
        self.net.bandwidth()
    }

    /// Average received bytes per second between the last two calls to
    /// `update`, over all interfaces except `lo`.
    pub fn net_reception_bandwidth(&self) -> (r: Option<u64>)
        ensures
            r == self.net.spec_reception_bandwidth(),
    {
        self.net.reception_bandwidth()
    }

    /// Average transmitted bytes per second between the last two calls to
    /// `update`, over all interfaces except `lo`.
    pub fn net_transmission_bandwidth(&self) -> (r: Option<u64>)
        ensures
            r == self.net.spec_transmission_bandwidth(),
    {
        self.net.transmission_bandwidth()
    }

    /// Fraction (0..=1) of ram used as of the last call to `update`.
    pub fn ram_usage(&self) -> (r: Option<Ratio>)
        ensures
            r == self.ram.spec_usage(),
            r matches Some(q) ==> q.wf(),
    {
        self.ram.usage()
    }

    /// Fraction (0..=1) of ram swap used as of the last call to `update`.
    pub fn ram_swap_usage(&self) -> (r: Option<Ratio>)
        ensures
            r == self.ram.spec_swap_usage(),
            r matches Some(q) ==> q.wf(),
    {
        self.ram.swap_usage()
    }

    /// The number of TCP connections as of the last call to `update`.
    pub fn tcp_connections(&self) -> (r: Option<usize>)
        ensures
            r == self.tcp.count,
    {
        self.tcp.connections()
    }

    /// The number of UDP sockets as of the last call to `update`.
    pub fn udp_sockets(&self) -> (r: Option<usize>)
        ensures
            r == self.udp.count,
    {
        self.udp.sockets()
    }

    /// The number of tracked sessions as of the last call to `update`.
    pub fn conntrack_sessions(&self) -> (r: Option<usize>)
        ensures
            r == self.conntrack.count,
    {
        self.conntrack.sessions()
    }
}

/// Law: on a state that has never sampled (in particular a fresh one), one
/// `update` leaves every delta-based metric absent, whatever each sampling
/// returned: a single reading gives no interval to take a delta over.
pub proof fn lemma_delta_metrics_absent_after_first_update(
    s: SimpleServerStatus,
    cpu_src: Option<Seq<u8>>,
    net_src: Option<Seq<u8>>,
    ram_src: Option<Seq<u8>>,
    tcp_src: Option<Seq<u8>>,
    udp_src: Option<Seq<u8>>,
    conntrack_src: Option<Seq<u8>>,
    now_millis: u64,
)
    requires
        s.cpu.curr is None,
        s.net.curr is None,
    ensures
        ({
            let (s2, r) = s.spec_update(
                cpu_src,
                net_src,
                ram_src,
                tcp_src,
                udp_src,
                conntrack_src,
                now_millis,
            );
            &&& s2.cpu.spec_usage() is None
            &&& s2.cpu.spec_local_usage() is None
            &&& s2.cpu.spec_stolen_usage() is None
            &&& s2.cpu.spec_idle_fraction() is None
            &&& s2.net.spec_bandwidth() is None
            &&& s2.net.spec_reception_bandwidth() is None
            &&& s2.net.spec_transmission_bandwidth() is None
        }),
{
    cpu::lemma_cpu_metrics_absent_until_second_sample(s.cpu, cpu_src);
    net::lemma_net_metrics_absent_until_second_sample(s.net, net_src, now_millis);
}

} // verus!

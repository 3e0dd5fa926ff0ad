//! Network throughput from the network-device-statistics source.
//!
//! The source has two header lines, then one line per interface holding
//! sixteen counters.  Every interface except the loopback `lo` is summed
//! with saturating addition; bandwidth is the byte delta between two
//! readings scaled to bytes per second over the elapsed milliseconds.

use crate::parse::{line_end, next, next_token, skip_line, spec_line_end, spec_next,
    spec_next_token, spec_skip_line};
use crate::{sat_mul, spec_sat_mul, src_view, Error};
use vstd::prelude::*;

verus! {

broadcast use crate::parse::lemma_line_end_bounds;

/// One reading of the summed interface counters, with its capture time in
/// milliseconds since the epoch.
#[derive(Clone, Copy, Debug, PartialEq, Eq, Structural)]
pub struct NetCounters {
    pub unix_millis: u64,
    pub rx_bytes: u64,
    pub rx_packets: u64,
    pub rx_errors: u64,
    pub rx_dropped: u64,
    pub rx_fifo_errors: u64,
    pub rx_frame_errors: u64,
    pub rx_compressed: u64,
    pub rx_multicast: u64,
    pub tx_bytes: u64,
    pub tx_packets: u64,
    pub tx_errors: u64,
    pub tx_dropped: u64,
    pub tx_fifo_errors: u64,
    pub tx_collisions: u64,
    pub tx_carrier_errors: u64,
    pub tx_compressed: u64,
}

/// A reading with all counters zero, as accumulation starts.
pub open spec fn spec_net_zero(now_millis: u64) -> NetCounters {
    NetCounters {
        unix_millis: now_millis,
        rx_bytes: 0,
        rx_packets: 0,
        rx_errors: 0,
        rx_dropped: 0,
        rx_fifo_errors: 0,
        rx_frame_errors: 0,
        rx_compressed: 0,
        rx_multicast: 0,
        tx_bytes: 0,
        tx_packets: 0,
        tx_errors: 0,
        tx_dropped: 0,
        tx_fifo_errors: 0,
        tx_collisions: 0,
        tx_carrier_errors: 0,
        tx_compressed: 0,
    }
}

/// `n` strict integer tokens starting at `i`, and the position after them.
pub open spec fn spec_parse_n(s: Seq<u8>, i: int, end: int, n: nat) -> Result<
    (int, Seq<u64>),
    Error,
>
    decreases n,
{
    if n == 0 {
        Ok((i, Seq::empty()))
    } else {
        let (p, r) = spec_next(s, i, end);
        match r {
            Err(e) => Err(e),
            Ok(v) => match spec_parse_n(s, p, end, (n - 1) as nat) {
                Err(e) => Err(e),
                Ok((p2, vs)) => Ok((p2, seq![v] + vs)),
            },
        }
    }
}

/// One interface's sixteen counters added onto the accumulator.
pub open spec fn spec_net_add(acc: NetCounters, vs: Seq<u64>) -> NetCounters {
    NetCounters {
        unix_millis: acc.unix_millis,
        rx_bytes: acc.rx_bytes.saturating_add(vs[0]),
        rx_packets: acc.rx_packets.saturating_add(vs[1]),
        rx_errors: acc.rx_errors.saturating_add(vs[2]),
        rx_dropped: acc.rx_dropped.saturating_add(vs[3]),
        rx_fifo_errors: acc.rx_fifo_errors.saturating_add(vs[4]),
        rx_frame_errors: acc.rx_frame_errors.saturating_add(vs[5]),
        rx_compressed: acc.rx_compressed.saturating_add(vs[6]),
        rx_multicast: acc.rx_multicast.saturating_add(vs[7]),
        tx_bytes: acc.tx_bytes.saturating_add(vs[8]),
        tx_packets: acc.tx_packets.saturating_add(vs[9]),
        tx_errors: acc.tx_errors.saturating_add(vs[10]),
        tx_dropped: acc.tx_dropped.saturating_add(vs[11]),
        tx_fifo_errors: acc.tx_fifo_errors.saturating_add(vs[12]),
        tx_collisions: acc.tx_collisions.saturating_add(vs[13]),
        tx_carrier_errors: acc.tx_carrier_errors.saturating_add(vs[14]),
        tx_compressed: acc.tx_compressed.saturating_add(vs[15]),
    }
}

/// What one line `s[i..e)` contributes: nothing for a blank line or the
/// loopback interface, otherwise its sixteen strictly parsed counters.
pub open spec fn spec_net_line(s: Seq<u8>, i: int, e: int, acc: NetCounters) -> Result<
    NetCounters,
    Error,
> {
    match spec_next_token(s, i, e) {
        None => Ok(acc),
        Some((a, b)) => if b - a == 3 && s[a] == 108 && s[a + 1] == 111 && s[a + 2] == 58 {
            Ok(acc)
        } else {
            match spec_parse_n(s, b, e, 16) {
                Err(er) => Err(er),
                Ok((p, vs)) => Ok(spec_net_add(acc, vs)),
            }
        },
    }
}

/// The fold of `spec_net_line` over every line from `i` on.
pub open spec fn spec_net_accumulate(s: Seq<u8>, i: int, acc: NetCounters) -> Result<
    NetCounters,
    Error,
>
    decreases s.len() - i,
{
    if i < 0 || i >= s.len() {
        Ok(acc)
    } else {
        match spec_net_line(s, i, spec_line_end(s, i), acc) {
            Err(e) => Err(e),
            Ok(acc2) => spec_net_accumulate(s, spec_skip_line(s, i), acc2),
        }
    }
}

/// What parsing the whole source yields: two header lines are skipped, the
/// rest are accumulated.
pub open spec fn spec_net_sample(s: Seq<u8>, now_millis: u64) -> Result<NetCounters, Error> {
    spec_net_accumulate(s, spec_skip_line(s, spec_skip_line(s, 0)), spec_net_zero(now_millis))
}

/// Parses `n` strict integer tokens in `s[i..end)`.
fn parse_n(s: &[u8], i: usize, end: usize, n: usize) -> (r: Result<(usize, Vec<u64>), Error>)
    requires
        i <= end <= s@.len(),
    ensures
        match r {
            Ok(t) => {
                &&& spec_parse_n(s@, i as int, end as int, n as nat) == Ok::<_, Error>(
                    (t.0 as int, t.1@),
                )
                &&& i <= t.0 <= end
                &&& t.1@.len() == n
            },
            Err(e) => spec_parse_n(s@, i as int, end as int, n as nat) == Err::<
                (int, Seq<u64>),
                _,
            >(e),
        },
{
    let mut vs: Vec<u64> = Vec::new();
    let mut p = i;
    let mut k: usize = 0;
    while k < n
        invariant
            i <= p <= end <= s@.len(),
            k <= n,
            vs@.len() == k,
            spec_parse_n(s@, i as int, end as int, n as nat) == (match spec_parse_n(
                s@,
                p as int,
                end as int,
                (n - k) as nat,
            ) {
                Ok(t) => Ok::<(int, Seq<u64>), Error>((t.0, vs@ + t.1)),
                Err(e) => Err(e),
            }),
        decreases n - k,
    {
        let ghost old_vs = vs@;
        let ghost pi = p as int;
        let ghost m = (n - k) as nat;
        let (p2, r) = next(s, p, end);
        match r {
            Err(e) => {
                return Err(e);
            },
            Ok(v) => {
                vs.push(v);
                p = p2;
                proof {
                    assert(old_vs.push(v) =~= old_vs + seq![v]);
                    assert(spec_parse_n(s@, pi, end as int, m) == (match spec_parse_n(
                        s@,
                        p as int,
                        end as int,
                        (m - 1) as nat,
                    ) {
                        Ok(t) => Ok::<(int, Seq<u64>), Error>((t.0, seq![v] + t.1)),
                        Err(e) => Err(e),
                    }));
                    if spec_parse_n(s@, p as int, end as int, (m - 1) as nat) is Ok {
                        let t = spec_parse_n(s@, p as int, end as int, (m - 1) as nat)->Ok_0;
                        assert((old_vs + seq![v]) + t.1 =~= old_vs + (seq![v] + t.1));
                    }
                }
            },
        }
        k = k + 1;
    }
    assert(vs@ + Seq::<u64>::empty() =~= vs@);
    Ok((p, vs))
}

impl NetCounters {
    /// Parses one reading from the text of the network-device source,
    /// stamping it with the given capture time.
    pub fn sample(s: &[u8], now_millis: u64) -> (r: Result<NetCounters, Error>)
        ensures
            r == spec_net_sample(s@, now_millis),
    {
        let mut acc = NetCounters {
            unix_millis: now_millis,
            rx_bytes: 0,
            rx_packets: 0,
            rx_errors: 0,
            rx_dropped: 0,
            rx_fifo_errors: 0,
            rx_frame_errors: 0,
            rx_compressed: 0,
            rx_multicast: 0,
            tx_bytes: 0,
            tx_packets: 0,
            tx_errors: 0,
            tx_dropped: 0,
            tx_fifo_errors: 0,
            tx_collisions: 0,
            tx_carrier_errors: 0,
            tx_compressed: 0,
        };
        let mut i = skip_line(s, 0);
        i = skip_line(s, i);
        while i < s.len()
            invariant
                i <= s@.len(),
                spec_net_sample(s@, now_millis) == spec_net_accumulate(s@, i as int, acc),
            decreases s@.len() - i,
        {
            let ghost acc0 = acc;
            let e = line_end(s, i);
            match next_token(s, i, e) {
                None => {},
                Some((a, b)) => {
                    if b - a == 3 && s[a] == 108 && s[a + 1] == 111 && s[a + 2] == 58 {
                    } else {
                        match parse_n(s, b, e, 16) {
                            Err(er) => {
                                return Err(er);
                            },
                            Ok((_p, vs)) => {
                                acc = NetCounters {
                                    unix_millis: acc.unix_millis,
                                    rx_bytes: acc.rx_bytes.saturating_add(vs[0]),
                                    rx_packets: acc.rx_packets.saturating_add(vs[1]),
                                    rx_errors: acc.rx_errors.saturating_add(vs[2]),
                                    rx_dropped: acc.rx_dropped.saturating_add(vs[3]),
                                    rx_fifo_errors: acc.rx_fifo_errors.saturating_add(vs[4]),
                                    rx_frame_errors: acc.rx_frame_errors.saturating_add(vs[5]),
                                    rx_compressed: acc.rx_compressed.saturating_add(vs[6]),
                                    rx_multicast: acc.rx_multicast.saturating_add(vs[7]),
                                    tx_bytes: acc.tx_bytes.saturating_add(vs[8]),
                                    tx_packets: acc.tx_packets.saturating_add(vs[9]),
                                    tx_errors: acc.tx_errors.saturating_add(vs[10]),
                                    tx_dropped: acc.tx_dropped.saturating_add(vs[11]),
                                    tx_fifo_errors: acc.tx_fifo_errors.saturating_add(vs[12]),
                                    tx_collisions: acc.tx_collisions.saturating_add(vs[13]),
                                    tx_carrier_errors: acc.tx_carrier_errors.saturating_add(
                                        vs[14],
                                    ),
                                    tx_compressed: acc.tx_compressed.saturating_add(vs[15]),
                                };
                                assert(acc == spec_net_add(acc0, vs@));
                            },
                        }
                    }
                },
            }
            assert(spec_net_line(s@, i as int, e as int, acc0) == Ok::<_, Error>(acc));
            i = skip_line(s, i);
        }
        Ok(acc)
    }
}

/// Bytes per second from a byte-counter delta over a millisecond delta,
/// or nothing when no time elapsed.  This is a rate, not a ratio, so no
/// clamp to 1 applies.
pub open spec fn spec_rate(old_bytes: u64, new_bytes: u64, old_ms: u64, new_ms: u64) -> Option<
    u64,
> {
    let bytes = new_bytes.saturating_sub(old_bytes);
    let millis = new_ms.saturating_sub(old_ms);
    if millis == 0 {
        None
    } else {
        Some((spec_sat_mul(bytes, 1000) / millis) as u64)
    }
}

fn rate(old_bytes: u64, new_bytes: u64, old_ms: u64, new_ms: u64) -> (r: Option<u64>)
    ensures
        r == spec_rate(old_bytes, new_bytes, old_ms, new_ms),
{
    let bytes = new_bytes.saturating_sub(old_bytes);
    let millis = new_ms.saturating_sub(old_ms);
    sat_mul(bytes, 1000).checked_div(millis)
}

/// The two most recent network readings; bandwidths are deltas between them.
#[derive(Clone, Copy, Debug, PartialEq, Eq, Structural)]
pub struct NetStatus {
    pub prev: Option<NetCounters>,
    pub curr: Option<NetCounters>,
}

impl Default for NetStatus {
    /// The state before any sampling: no data yet.
    fn default() -> (r: Self)
        ensures
            r.prev is None,
            r.curr is None,
    {
        NetStatus { prev: None, curr: None }
    }
}

impl NetStatus {
    /// What one resample does to the state: the latest reading moves into
    /// the old slot, and the new slot is filled only on success.
    pub open spec fn spec_update(self, src: Option<Seq<u8>>, now_millis: u64) -> (
        NetStatus,
        Result<(), Error>,
    ) {
        match src {
            None => (NetStatus { prev: self.curr, curr: None }, Err(Error::SourceUnavailable)),
            Some(text) => match spec_net_sample(text, now_millis) {
                Ok(c) => (NetStatus { prev: self.curr, curr: Some(c) }, Ok(())),
                Err(e) => (NetStatus { prev: self.curr, curr: None }, Err(e)),
            },
        }
    }

    /// Replaces the old reading with the current one, then parses a fresh
    /// reading from `src` taken at `now_millis`; `None` stands for an
    /// unreadable source.
    pub fn update(&mut self, src: Option<&[u8]>, now_millis: u64) -> (r: Result<(), Error>)
        ensures
            (*final(self), r) == old(self).spec_update(src_view(src), now_millis),
    {
        self.prev = self.curr;
        self.curr = None;
        match src {
            None => Err(Error::SourceUnavailable),
            Some(text) => match NetCounters::sample(text, now_millis) {
                Ok(c) => {
                    self.curr = Some(c);
                    Ok(())
                },
                Err(e) => Err(e),
            },
        }
    }

    /// Received plus transmitted bytes per second between the two readings.
    pub open spec fn spec_bandwidth(self) -> Option<u64> {
        match (self.prev, self.curr) {
            (Some(o), Some(n)) => spec_rate(
                o.rx_bytes.saturating_add(o.tx_bytes),
                n.rx_bytes.saturating_add(n.tx_bytes),
                o.unix_millis,
                n.unix_millis,
            ),
            _ => None,
        }
    }

    /// Received bytes per second between the two readings.
    pub open spec fn spec_reception_bandwidth(self) -> Option<u64> {
        match (self.prev, self.curr) {
            (Some(o), Some(n)) => spec_rate(o.rx_bytes, n.rx_bytes, o.unix_millis, n.unix_millis),
            _ => None,
        }
    }

    /// Transmitted bytes per second between the two readings.
    pub open spec fn spec_transmission_bandwidth(self) -> Option<u64> {
        match (self.prev, self.curr) {
            (Some(o), Some(n)) => spec_rate(o.tx_bytes, n.tx_bytes, o.unix_millis, n.unix_millis),
            _ => None,
        }
    }

    /// Average transmitted plus received bytes per second between the last
    /// two readings, over all interfaces except `lo`.
    pub fn bandwidth(&self) -> (r: Option<u64>)
        ensures
            r == self.spec_bandwidth(),
    {
        match (&self.prev, &self.curr) {
            (Some(o), Some(n)) => rate(
                o.rx_bytes.saturating_add(o.tx_bytes),
                n.rx_bytes.saturating_add(n.tx_bytes),
                o.unix_millis,
                n.unix_millis,
            ),
            _ => None,
        }
    }

    /// Average received bytes per second between the last two readings.
    pub fn reception_bandwidth(&self) -> (r: Option<u64>)
        ensures
            r == self.spec_reception_bandwidth(),
    {
        match (&self.prev, &self.curr) {
            (Some(o), Some(n)) => rate(o.rx_bytes, n.rx_bytes, o.unix_millis, n.unix_millis),
            _ => None,
        }
    }

    /// Average transmitted bytes per second between the last two readings.
    pub fn transmission_bandwidth(&self) -> (r: Option<u64>)
        ensures
            r == self.spec_transmission_bandwidth(),
    {
        match (&self.prev, &self.curr) {
            (Some(o), Some(n)) => rate(o.tx_bytes, n.tx_bytes, o.unix_millis, n.unix_millis),
            _ => None,
        }
    }
}

/// A successful accumulation keeps the capture time it started with.
proof fn lemma_accumulate_keeps_millis(s: Seq<u8>, i: int, acc: NetCounters)
    ensures
        spec_net_accumulate(s, i, acc) matches Ok(c) ==> c.unix_millis == acc.unix_millis,
    decreases s.len() - i,
{
    if 0 <= i < s.len() {
        match spec_net_line(s, i, spec_line_end(s, i), acc) {
            Ok(acc2) => {
                lemma_accumulate_keeps_millis(s, spec_skip_line(s, i), acc2);
            },
            Err(e) => {},
        }
    }
}

/// A successful parse is stamped with the capture time it was given.
pub proof fn lemma_sample_keeps_millis(s: Seq<u8>, now_millis: u64)
    ensures
        spec_net_sample(s, now_millis) matches Ok(c) ==> c.unix_millis == now_millis,
{
    lemma_accumulate_keeps_millis(
        s,
        spec_skip_line(s, spec_skip_line(s, 0)),
        spec_net_zero(now_millis),
    );
}

/// Law: every bandwidth metric is undefined until two readings exist.  A
/// state that has never sampled successfully (in particular a fresh one, or
/// one whose first `update` just ran) yields, after one more `update` of
/// any outcome, no bandwidth at all.
pub proof fn lemma_net_metrics_absent_until_second_sample(
    s: NetStatus,
    src: Option<Seq<u8>>,
    now_millis: u64,
)
    requires
        s.curr is None,
    ensures
        ({
            let (s2, r) = s.spec_update(src, now_millis);
            &&& s2.spec_bandwidth() is None
            &&& s2.spec_reception_bandwidth() is None
            &&& s2.spec_transmission_bandwidth() is None
        }),
{
}

/// Law: once a reading exists, a second successful `update` taken at a
/// later wall-clock instant makes every bandwidth metric present.
pub proof fn lemma_net_metrics_present_after_second_sample(
    s: NetStatus,
    text: Seq<u8>,
    now_millis: u64,
)
    requires
        s.curr is Some,
        spec_net_sample(text, now_millis) is Ok,
        s.curr.unwrap().unix_millis < now_millis,
    ensures
        ({
            let (s2, r) = s.spec_update(Some(text), now_millis);
            &&& r is Ok
            &&& s2.spec_bandwidth() is Some
            &&& s2.spec_reception_bandwidth() is Some
            &&& s2.spec_transmission_bandwidth() is Some
        }),
{
    lemma_sample_keeps_millis(text, now_millis);
}

/// Law: between two readings with growing byte counters, elapsed time and
/// no overflow, the total bandwidth equals the reception bandwidth plus the
/// transmission bandwidth up to the rounding of one integer division.
pub proof fn lemma_bandwidth_decomposition(s: NetStatus)
    requires
        s.prev is Some,
        s.curr is Some,
        s.prev.unwrap().rx_bytes <= s.curr.unwrap().rx_bytes,
        s.prev.unwrap().tx_bytes <= s.curr.unwrap().tx_bytes,
        s.prev.unwrap().unix_millis < s.curr.unwrap().unix_millis,
        s.curr.unwrap().rx_bytes + s.curr.unwrap().tx_bytes <= u64::MAX,
        ((s.curr.unwrap().rx_bytes - s.prev.unwrap().rx_bytes) + (s.curr.unwrap().tx_bytes
            - s.prev.unwrap().tx_bytes)) * 1000 <= u64::MAX,
    ensures
        s.spec_bandwidth() is Some,
        s.spec_reception_bandwidth() is Some,
        s.spec_transmission_bandwidth() is Some,
        ({
            let bw = s.spec_bandwidth().unwrap() as int;
            let rx = s.spec_reception_bandwidth().unwrap() as int;
            let tx = s.spec_transmission_bandwidth().unwrap() as int;
            rx + tx <= bw <= rx + tx + 1
        }),
{
    let o = s.prev.unwrap();
    let n = s.curr.unwrap();
    let m = n.unix_millis - o.unix_millis;
    let a = (n.rx_bytes - o.rx_bytes) * 1000;
    let b = (n.tx_bytes - o.tx_bytes) * 1000;
    let qa = a / m;
    let ra = a % m;
    let qb = b / m;
    let rb = b % m;
    vstd::arithmetic::div_mod::lemma_fundamental_div_mod(a, m);
    vstd::arithmetic::div_mod::lemma_fundamental_div_mod(b, m);
    vstd::arithmetic::div_mod::lemma_mod_bound(a, m);
    vstd::arithmetic::div_mod::lemma_mod_bound(b, m);
    if ra + rb < m {
        assert(a + b == (qa + qb) * m + (ra + rb)) by (nonlinear_arith)
            requires
                a == m * qa + ra,
                b == m * qb + rb,
        ;
        vstd::arithmetic::div_mod::lemma_fundamental_div_mod_converse(a + b, m, qa + qb, ra + rb);
    } else {
        assert(a + b == (qa + qb + 1) * m + (ra + rb - m)) by (nonlinear_arith)
            requires
                a == m * qa + ra,
                b == m * qb + rb,
        ;
        vstd::arithmetic::div_mod::lemma_fundamental_div_mod_converse(
            a + b,
            m,
            qa + qb + 1,
            ra + rb - m,
        );
    }
}

} // verus!

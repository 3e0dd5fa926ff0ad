//! CPU utilization from the aggregate line of the process-statistics source.
//!
//! The first line must read `cpu` followed by the time counters.  The first
//! four fields (user, nice, system, idle) have existed since the earliest
//! kernels and are required; the remaining six are newer and degrade to 0
//! when they fail to parse, though a wholly absent column still fails.

use crate::parse::{line_end, next, next_or_zero, next_token, spec_line_end, spec_next,
    spec_next_or_zero, spec_next_token};
use crate::{delta_ratio, spec_delta_ratio, src_view, Error, Ratio};
use vstd::prelude::*;

verus! {

/// One reading of the aggregate CPU time counters, in clock ticks.
#[derive(Clone, Copy, Debug, PartialEq, Eq, Structural)]
pub struct CpuCounters {
    pub user: u64,
    pub nice: u64,
    pub system: u64,
    pub idle: u64,
    pub io_wait: u64,
    pub irq: u64,
    pub soft_irq: u64,
    pub steal: u64,
    pub guest: u64,
    pub guest_nice: u64,
}

impl CpuCounters {
    /// Ticks spent working inside the current OS.
    pub open spec fn spec_local_use(self) -> u64 {
        self.user.saturating_add(self.nice).saturating_add(self.system).saturating_add(
            self.irq,
        ).saturating_add(self.soft_irq).saturating_add(self.guest).saturating_add(self.guest_nice)
    }

    /// Ticks stolen by the hypervisor.
    pub open spec fn spec_stolen_use(self) -> u64 {
        self.steal
    }

    /// All busy ticks, local and stolen.
    pub open spec fn spec_use(self) -> u64 {
        self.spec_local_use().saturating_add(self.spec_stolen_use())
    }

    /// Ticks spent idle or waiting on I/O.
    pub open spec fn spec_idle_use(self) -> u64 {
        self.idle.saturating_add(self.io_wait)
    }

    /// All ticks accounted for.
    pub open spec fn spec_total(self) -> u64 {
        self.spec_use().saturating_add(self.idle).saturating_add(self.io_wait)
    }

    pub fn local_use(&self) -> (r: u64)
        ensures
            r == self.spec_local_use(),
    {
        self.user.saturating_add(self.nice).saturating_add(self.system).saturating_add(
            self.irq,
        ).saturating_add(self.soft_irq).saturating_add(self.guest).saturating_add(self.guest_nice)
    }

    pub fn stolen_use(&self) -> (r: u64)
        ensures
            r == self.spec_stolen_use(),
    {
        self.steal
    }

    pub fn _use(&self) -> (r: u64)
        ensures
            r == self.spec_use(),
    {
        self.local_use().saturating_add(self.stolen_use())
    }

    pub fn idle_use(&self) -> (r: u64)
        ensures
            r == self.spec_idle_use(),
    {
        self.idle.saturating_add(self.io_wait)
    }

    pub fn total(&self) -> (r: u64)
        ensures
            r == self.spec_total(),
    {
        self._use().saturating_add(self.idle).saturating_add(self.io_wait)
    }
}

/// What parsing the CPU statistics source yields: the first line must start
/// with the token `cpu`, then four required counters and six lenient ones.
pub open spec fn spec_cpu_sample(s: Seq<u8>) -> Result<CpuCounters, Error> {
    let end = spec_line_end(s, 0);
    match spec_next_token(s, 0, end) {
        None => Err(Error::MalformedSource),
        Some((a, b)) => if !(b - a == 3 && s[a] == 99 && s[a + 1] == 112 && s[a + 2] == 117) {
            Err(Error::MalformedSource)
        } else {
            let (p1, r1) = spec_next(s, b, end);
            match r1 {
                Err(e) => Err(e),
                Ok(user) => {
                    let (p2, r2) = spec_next(s, p1, end);
                    match r2 {
                        Err(e) => Err(e),
                        Ok(nice) => {
                            let (p3, r3) = spec_next(s, p2, end);
                            match r3 {
                                Err(e) => Err(e),
                                Ok(system) => {
                                    let (p4, r4) = spec_next(s, p3, end);
                                    match r4 {
                                        Err(e) => Err(e),
                                        Ok(idle) => spec_cpu_sample_optional(
                                            s,
                                            p4,
                                            end,
                                            user,
                                            nice,
                                            system,
                                            idle,
                                        ),
                                    }
                                },
                            }
                        },
                    }
                },
            }
        },
    }
}

/// The six lenient fields that follow the four required ones.
pub open spec fn spec_cpu_sample_optional(
    s: Seq<u8>,
    i: int,
    end: int,
    user: u64,
    nice: u64,
    system: u64,
    idle: u64,
) -> Result<CpuCounters, Error> {
    let (p5, r5) = spec_next_or_zero(s, i, end);
    match r5 {
        Err(e) => Err(e),
        Ok(io_wait) => {
            let (p6, r6) = spec_next_or_zero(s, p5, end);
            match r6 {
                Err(e) => Err(e),
                Ok(irq) => {
                    let (p7, r7) = spec_next_or_zero(s, p6, end);
                    match r7 {
                        Err(e) => Err(e),
                        Ok(soft_irq) => {
                            let (p8, r8) = spec_next_or_zero(s, p7, end);
                            match r8 {
                                Err(e) => Err(e),
                                Ok(steal) => {
                                    let (p9, r9) = spec_next_or_zero(s, p8, end);
                                    match r9 {
                                        Err(e) => Err(e),
                                        Ok(guest) => {
                                            let (p10, r10) = spec_next_or_zero(s, p9, end);
                                            match r10 {
                                                Err(e) => Err(e),
                                                Ok(guest_nice) => Ok(
                                                    CpuCounters {
                                                        user,
                                                        nice,
                                                        system,
                                                        idle,
                                                        io_wait,
                                                        irq,
                                                        soft_irq,
                                                        steal,
                                                        guest,
                                                        guest_nice,
                                                    },
                                                ),
                                            }
                                        },
                                    }
                                },
                            }
                        },
                    }
                },
            }
        },
    }
}

impl CpuCounters {
    /// Parses one reading from the text of the CPU statistics source.
    pub fn sample(s: &[u8]) -> (r: Result<CpuCounters, Error>)
        ensures
            r == spec_cpu_sample(s@),
    {
        let end = line_end(s, 0);
        match next_token(s, 0, end) {
            None => Err(Error::MalformedSource),
            Some((a, b)) => {
                if !(b - a == 3 && s[a] == 99 && s[a + 1] == 112 && s[a + 2] == 117) {
                    return Err(Error::MalformedSource);
                }
                let (p1, r1) = next(s, b, end);
                let user = match r1 {
                    Ok(v) => v,
                    Err(e) => return Err(e),
                };
                let (p2, r2) = next(s, p1, end);
                let nice = match r2 {
                    Ok(v) => v,
                    Err(e) => return Err(e),
                };
                let (p3, r3) = next(s, p2, end);
                let system = match r3 {
                    Ok(v) => v,
                    Err(e) => return Err(e),
                };
                let (p4, r4) = next(s, p3, end);
                let idle = match r4 {
                    Ok(v) => v,
                    Err(e) => return Err(e),
                };
                let (p5, r5) = next_or_zero(s, p4, end);
                let io_wait = match r5 {
                    Ok(v) => v,
                    Err(e) => return Err(e),
                };
                let (p6, r6) = next_or_zero(s, p5, end);
                let irq = match r6 {
                    Ok(v) => v,
                    Err(e) => return Err(e),
                };
                let (p7, r7) = next_or_zero(s, p6, end);
                let soft_irq = match r7 {
                    Ok(v) => v,
                    Err(e) => return Err(e),
                };
                let (p8, r8) = next_or_zero(s, p7, end);
                let steal = match r8 {
                    Ok(v) => v,
                    Err(e) => return Err(e),
                };
                let (p9, r9) = next_or_zero(s, p8, end);
                let guest = match r9 {
                    Ok(v) => v,
                    Err(e) => return Err(e),
                };
                let (p10, r10) = next_or_zero(s, p9, end);
                let guest_nice = match r10 {
                    Ok(v) => v,
                    Err(e) => return Err(e),
                };
                Ok(
                    CpuCounters {
                        user,
                        nice,
                        system,
                        idle,
                        io_wait,
                        irq,
                        soft_irq,
                        steal,
                        guest,
                        guest_nice,
                    },
                )
            },
        }
    }
}

/// The two most recent CPU readings; metrics are deltas between them.
#[derive(Clone, Copy, Debug, PartialEq, Eq, Structural)]
pub struct CpuStatus {
    pub prev: Option<CpuCounters>,
    pub curr: Option<CpuCounters>,
}

impl Default for CpuStatus {
    /// The state before any sampling: no data yet.
    fn default() -> (r: Self)
        ensures
            r.prev is None,
            r.curr is None,
    {
        CpuStatus { prev: None, curr: None }
    }
}

impl CpuStatus {
    /// What one resample does to the state: the latest reading moves into
    /// the old slot, and the new slot is filled only on success.
    pub open spec fn spec_update(self, src: Option<Seq<u8>>) -> (CpuStatus, Result<(), Error>) {
        match src {
            None => (
                CpuStatus { prev: self.curr, curr: None },
                Err(Error::SourceUnavailable),
            ),
            Some(text) => match spec_cpu_sample(text) {
                Ok(c) => (CpuStatus { prev: self.curr, curr: Some(c) }, Ok(())),
                Err(e) => (CpuStatus { prev: self.curr, curr: None }, Err(e)),
            },
        }
    }

    /// Replaces the old reading with the current one, then parses a fresh
    /// reading from `src`; `None` stands for an unreadable source.
    pub fn update(&mut self, src: Option<&[u8]>) -> (r: Result<(), Error>)
        ensures
            (*final(self), r) == old(self).spec_update(src_view(src)),
    {
        self.prev = self.curr;
        self.curr = None;
        match src {
            None => Err(Error::SourceUnavailable),
            Some(text) => match CpuCounters::sample(text) {
                Ok(c) => {
                    self.curr = Some(c);
                    Ok(())
                },
                Err(e) => Err(e),
            },
        }
    }

    /// Fraction of all ticks spent busy between the two readings.
    pub open spec fn spec_usage(self) -> Option<Ratio> {
        match (self.prev, self.curr) {
            (Some(o), Some(n)) => spec_delta_ratio(
                o.spec_use(),
                n.spec_use(),
                o.spec_total(),
                n.spec_total(),
            ),
            _ => None,
        }
    }

    /// Fraction of all ticks spent busy inside the current OS.
    pub open spec fn spec_local_usage(self) -> Option<Ratio> {
        match (self.prev, self.curr) {
            (Some(o), Some(n)) => spec_delta_ratio(
                o.spec_local_use(),
                n.spec_local_use(),
                o.spec_total(),
                n.spec_total(),
            ),
            _ => None,
        }
    }

    /// Fraction of all ticks stolen by the hypervisor.
    pub open spec fn spec_stolen_usage(self) -> Option<Ratio> {
        match (self.prev, self.curr) {
            (Some(o), Some(n)) => spec_delta_ratio(
                o.spec_stolen_use(),
                n.spec_stolen_use(),
                o.spec_total(),
                n.spec_total(),
            ),
            _ => None,
        }
    }

    /// Fraction of all ticks spent idle or waiting on I/O.
    pub open spec fn spec_idle_fraction(self) -> Option<Ratio> {
        match (self.prev, self.curr) {
            (Some(o), Some(n)) => spec_delta_ratio(
                o.spec_idle_use(),
                n.spec_idle_use(),
                o.spec_total(),
                n.spec_total(),
            ),
            _ => None,
        }
    }

    /// Fraction (0..=1) of cpu used between the last two readings; absent
    /// until two readings exist or when no ticks elapsed between them.
    pub fn usage(&self) -> (r: Option<Ratio>)
        ensures
            r == self.spec_usage(),
            r matches Some(q) ==> q.wf(),
    {
        match (&self.prev, &self.curr) {
            (Some(o), Some(n)) => delta_ratio(o._use(), n._use(), o.total(), n.total()),
            _ => None,
        }
    }

    /// Fraction (0..=1) of cpu used local to the current OS.
    pub fn local_usage(&self) -> (r: Option<Ratio>)
        ensures
            r == self.spec_local_usage(),
            r matches Some(q) ==> q.wf(),
    {
        match (&self.prev, &self.curr) {
            (Some(o), Some(n)) => delta_ratio(
                o.local_use(),
                n.local_use(),
                o.total(),
                n.total(),
            ),
            _ => None,
        }
    }

    /// Fraction (0..=1) of cpu used outside the current OS (the hypervisor).
    pub fn stolen_usage(&self) -> (r: Option<Ratio>)
        ensures
            r == self.spec_stolen_usage(),
            r matches Some(q) ==> q.wf(),
    {
        match (&self.prev, &self.curr) {
            (Some(o), Some(n)) => delta_ratio(
                o.stolen_use(),
                n.stolen_use(),
                o.total(),
                n.total(),
            ),
            _ => None,
        }
    }

    /// All ten counters of `o` are at most those of `n`: the usual case,
    /// since kernel time counters only grow within a boot cycle.
    pub open spec fn counters_monotonic(o: CpuCounters, n: CpuCounters) -> bool {
        &&& o.user <= n.user
        &&& o.nice <= n.nice
        &&& o.system <= n.system
        &&& o.idle <= n.idle
        &&& o.io_wait <= n.io_wait
        &&& o.irq <= n.irq
        &&& o.soft_irq <= n.soft_irq
        &&& o.steal <= n.steal
        &&& o.guest <= n.guest
        &&& o.guest_nice <= n.guest_nice
    }

    /// The sum of all ten counters fits in 64 bits, so no saturation occurs
    /// in any of the derived sums.
    pub open spec fn counters_bounded(n: CpuCounters) -> bool {
        n.user + n.nice + n.system + n.idle + n.io_wait + n.irq + n.soft_irq + n.steal + n.guest
            + n.guest_nice <= u64::MAX
    }

    /// Fraction (0..=1) of cpu spent idle or waiting on I/O.
    pub fn idle_fraction(&self) -> (r: Option<Ratio>)
        ensures
            r == self.spec_idle_fraction(),
            r matches Some(q) ==> q.wf(),
    {
        match (&self.prev, &self.curr) {
            (Some(o), Some(n)) => delta_ratio(o.idle_use(), n.idle_use(), o.total(), n.total()),
            _ => None,
        }
    }
}

/// Law: every delta-based CPU metric is undefined until two readings
/// exist.  A state that has never sampled successfully (in particular a
/// fresh one, or one whose first `update` just ran) yields, after one more
/// `update` of any outcome, no usage, local usage, stolen usage or idle
/// fraction.
pub proof fn lemma_cpu_metrics_absent_until_second_sample(s: CpuStatus, src: Option<Seq<u8>>)
    requires
        s.curr is None,
    ensures
        ({
            let (s2, r) = s.spec_update(src);
            &&& s2.spec_usage() is None
            &&& s2.spec_local_usage() is None
            &&& s2.spec_stolen_usage() is None
            &&& s2.spec_idle_fraction() is None
        }),
{
}

/// Law: once a reading exists, a second successful `update` whose fresh
/// reading shows more total ticks makes every delta-based CPU metric
/// present.
pub proof fn lemma_cpu_metrics_present_after_second_sample(s: CpuStatus, text: Seq<u8>)
    requires
        s.curr is Some,
        spec_cpu_sample(text) is Ok,
        s.curr.unwrap().spec_total() < spec_cpu_sample(text)->Ok_0.spec_total(),
    ensures
        ({
            let (s2, r) = s.spec_update(Some(text));
            &&& r is Ok
            &&& s2.spec_usage() is Some
            &&& s2.spec_local_usage() is Some
            &&& s2.spec_stolen_usage() is Some
            &&& s2.spec_idle_fraction() is Some
        }),
{
}

/// Law: between any two readings with growing counters and no overflow,
/// the busy fraction and the idle fraction partition the elapsed ticks:
/// both are present, share a denominator, and their numerators sum to it
/// exactly (so as fractions they sum to exactly 1).
pub proof fn lemma_usage_plus_idle_fraction_is_one(s: CpuStatus)
    requires
        s.prev is Some,
        s.curr is Some,
        CpuStatus::counters_monotonic(s.prev.unwrap(), s.curr.unwrap()),
        CpuStatus::counters_bounded(s.curr.unwrap()),
        s.prev.unwrap().spec_total() < s.curr.unwrap().spec_total(),
    ensures
        s.spec_usage() is Some,
        s.spec_idle_fraction() is Some,
        s.spec_usage().unwrap().den == s.spec_idle_fraction().unwrap().den,
        s.spec_usage().unwrap().num + s.spec_idle_fraction().unwrap().num == s.spec_usage().unwrap().den,
{
}

} // verus!

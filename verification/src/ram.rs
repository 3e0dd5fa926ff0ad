//! Memory utilization from the memory-info source.
//!
//! Each line reads `Label: value [unit]`.  Eight labels are recognized by
//! exact name (trailing colons stripped); all others are ignored.  A unit
//! token, when present, must be a case-insensitive `kB`.  Values are
//! kibibytes and are stored as bytes.  Memory usage is a point-in-time
//! ratio, so no old/new snapshot pair is kept.

use crate::parse::{line_end, next, next_token, skip_line, spec_line_end, spec_next,
    spec_next_token, spec_skip_line};
use crate::{sanitize_division, sat_mul, spec_sanitize_division, spec_sat_mul, src_view, Error,
    Ratio};
use vstd::prelude::*;

verus! {

broadcast use crate::parse::lemma_line_end_bounds;

/// One parsed reading of the recognized memory totals, in bytes.
#[derive(Clone, Copy, Debug, PartialEq, Eq, Structural)]
pub struct RamStatus {
    pub total: u64,
    pub free: u64,
    pub available: u64,
    pub buffers: u64,
    pub cached: u64,
    pub slab_reclaimable: u64,
    pub swap_total: u64,
    pub swap_free: u64,
}

/// The all-zero reading: the state before any successful sampling.
pub open spec fn spec_ram_zero() -> RamStatus {
    RamStatus {
        total: 0,
        free: 0,
        available: 0,
        buffers: 0,
        cached: 0,
        slab_reclaimable: 0,
        swap_total: 0,
        swap_free: 0,
    }
}

impl Default for RamStatus {
    /// The state before any sampling: no data yet.
    fn default() -> (r: Self)
        ensures
            r == spec_ram_zero(),
    {
        RamStatus {
            total: 0,
            free: 0,
            available: 0,
            buffers: 0,
            cached: 0,
            slab_reclaimable: 0,
            swap_total: 0,
            swap_free: 0,
        }
    }
}

/// End of the token `s[a..b)` with every trailing colon removed.
pub open spec fn spec_strip_colons(s: Seq<u8>, a: int, b: int) -> int
    decreases b - a,
{
    if b > a && s[b - 1] == 58 {
        spec_strip_colons(s, a, b - 1)
    } else {
        b
    }
}

fn strip_colons(s: &[u8], a: usize, b: usize) -> (r: usize)
    requires
        a <= b <= s@.len(),
    ensures
        r == spec_strip_colons(s@, a as int, b as int),
        a <= r <= b,
{
    let mut j = b;
    while j > a && s[j - 1] == 58
        invariant
            a <= j <= b <= s@.len(),
            spec_strip_colons(s@, a as int, b as int) == spec_strip_colons(s@, a as int, j as int),
        decreases j,
    {
        j = j - 1;
    }
    j
}

/// The token `s[a..b)` is exactly `MemTotal`.
pub open spec fn is_label_mem_total(s: Seq<u8>, a: int, b: int) -> bool {
    b - a == 8 && s[a] == 77 && s[a + 1] == 101 && s[a + 2] == 109 && s[a + 3] == 84 && s[a + 4]
        == 111 && s[a + 5] == 116 && s[a + 6] == 97 && s[a + 7] == 108
}

/// The token `s[a..b)` is exactly `MemFree`.
pub open spec fn is_label_mem_free(s: Seq<u8>, a: int, b: int) -> bool {
    b - a == 7 && s[a] == 77 && s[a + 1] == 101 && s[a + 2] == 109 && s[a + 3] == 70 && s[a + 4]
        == 114 && s[a + 5] == 101 && s[a + 6] == 101
}

/// The token `s[a..b)` is exactly `MemAvailable`.
pub open spec fn is_label_mem_available(s: Seq<u8>, a: int, b: int) -> bool {
    b - a == 12 && s[a] == 77 && s[a + 1] == 101 && s[a + 2] == 109 && s[a + 3] == 65 && s[a + 4]
        == 118 && s[a + 5] == 97 && s[a + 6] == 105 && s[a + 7] == 108 && s[a + 8] == 97 && s[a + 9]
        == 98 && s[a + 10] == 108 && s[a + 11] == 101
}

/// The token `s[a..b)` is exactly `Buffers`.
pub open spec fn is_label_buffers(s: Seq<u8>, a: int, b: int) -> bool {
    b - a == 7 && s[a] == 66 && s[a + 1] == 117 && s[a + 2] == 102 && s[a + 3] == 102 && s[a + 4]
        == 101 && s[a + 5] == 114 && s[a + 6] == 115
}

/// The token `s[a..b)` is exactly `Cached`.
pub open spec fn is_label_cached(s: Seq<u8>, a: int, b: int) -> bool {
    b - a == 6 && s[a] == 67 && s[a + 1] == 97 && s[a + 2] == 99 && s[a + 3] == 104 && s[a + 4]
        == 101 && s[a + 5] == 100
}

/// The token `s[a..b)` is exactly `SReclaimable`.
pub open spec fn is_label_s_reclaimable(s: Seq<u8>, a: int, b: int) -> bool {
    b - a == 12 && s[a] == 83 && s[a + 1] == 82 && s[a + 2] == 101 && s[a + 3] == 99 && s[a + 4]
        == 108 && s[a + 5] == 97 && s[a + 6] == 105 && s[a + 7] == 109 && s[a + 8] == 97 && s[a + 9]
        == 98 && s[a + 10] == 108 && s[a + 11] == 101
}

/// The token `s[a..b)` is exactly `SwapTotal`.
pub open spec fn is_label_swap_total(s: Seq<u8>, a: int, b: int) -> bool {
    b - a == 9 && s[a] == 83 && s[a + 1] == 119 && s[a + 2] == 97 && s[a + 3] == 112 && s[a + 4]
        == 84 && s[a + 5] == 111 && s[a + 6] == 116 && s[a + 7] == 97 && s[a + 8] == 108
}

/// The token `s[a..b)` is exactly `SwapFree`.
pub open spec fn is_label_swap_free(s: Seq<u8>, a: int, b: int) -> bool {
    b - a == 8 && s[a] == 83 && s[a + 1] == 119 && s[a + 2] == 97 && s[a + 3] == 112 && s[a + 4]
        == 70 && s[a + 5] == 114 && s[a + 6] == 101 && s[a + 7] == 101
}

/// Which recognized label the token `s[a..b)` is, in source order, or 8
/// when the line is to be ignored.
pub open spec fn spec_label_code(s: Seq<u8>, a: int, b: int) -> int {
    if is_label_mem_total(s, a, b) {
        0
    } else if is_label_mem_free(s, a, b) {
        1
    } else if is_label_mem_available(s, a, b) {
        2
    } else if is_label_buffers(s, a, b) {
        3
    } else if is_label_cached(s, a, b) {
        4
    } else if is_label_s_reclaimable(s, a, b) {
        5
    } else if is_label_swap_total(s, a, b) {
        6
    } else if is_label_swap_free(s, a, b) {
        7
    } else {
        8
    }
}

fn label_code(s: &[u8], a: usize, b: usize) -> (r: usize)
    requires
        a <= b <= s@.len(),
    ensures
        r as int == spec_label_code(s@, a as int, b as int),
{
    if b - a == 8 && s[a] == 77 && s[a + 1] == 101 && s[a + 2] == 109 && s[a + 3] == 84 && s[a + 4]
        == 111 && s[a + 5] == 116 && s[a + 6] == 97 && s[a + 7] == 108 {
        0
    } else if b - a == 7 && s[a] == 77 && s[a + 1] == 101 && s[a + 2] == 109 && s[a + 3] == 70 && s[a
        + 4] == 114 && s[a + 5] == 101 && s[a + 6] == 101 {
        1
    } else if b - a == 12 && s[a] == 77 && s[a + 1] == 101 && s[a + 2] == 109 && s[a + 3] == 65 && s[a
        + 4] == 118 && s[a + 5] == 97 && s[a + 6] == 105 && s[a + 7] == 108 && s[a + 8] == 97 && s[a
        + 9] == 98 && s[a + 10] == 108 && s[a + 11] == 101 {
        2
    } else if b - a == 7 && s[a] == 66 && s[a + 1] == 117 && s[a + 2] == 102 && s[a + 3] == 102 && s[a
        + 4] == 101 && s[a + 5] == 114 && s[a + 6] == 115 {
        3
    } else if b - a == 6 && s[a] == 67 && s[a + 1] == 97 && s[a + 2] == 99 && s[a + 3] == 104 && s[a
        + 4] == 101 && s[a + 5] == 100 {
        4
    } else if b - a == 12 && s[a] == 83 && s[a + 1] == 82 && s[a + 2] == 101 && s[a + 3] == 99 && s[a
        + 4] == 108 && s[a + 5] == 97 && s[a + 6] == 105 && s[a + 7] == 109 && s[a + 8] == 97 && s[a
        + 9] == 98 && s[a + 10] == 108 && s[a + 11] == 101 {
        5
    } else if b - a == 9 && s[a] == 83 && s[a + 1] == 119 && s[a + 2] == 97 && s[a + 3] == 112 && s[a
        + 4] == 84 && s[a + 5] == 111 && s[a + 6] == 116 && s[a + 7] == 97 && s[a + 8] == 108 {
        6
    } else if b - a == 8 && s[a] == 83 && s[a + 1] == 119 && s[a + 2] == 97 && s[a + 3] == 112 && s[a
        + 4] == 70 && s[a + 5] == 114 && s[a + 6] == 101 && s[a + 7] == 101 {
        7
    } else {
        8
    }
}

/// The reading with the field named by `code` replaced.
pub open spec fn spec_ram_set(acc: RamStatus, code: int, v: u64) -> RamStatus {
    if code == 0 {
        RamStatus { total: v, ..acc }
    } else if code == 1 {
        RamStatus { free: v, ..acc }
    } else if code == 2 {
        RamStatus { available: v, ..acc }
    } else if code == 3 {
        RamStatus { buffers: v, ..acc }
    } else if code == 4 {
        RamStatus { cached: v, ..acc }
    } else if code == 5 {
        RamStatus { slab_reclaimable: v, ..acc }
    } else if code == 6 {
        RamStatus { swap_total: v, ..acc }
    } else {
        RamStatus { swap_free: v, ..acc }
    }
}

/// The unit token `s[u..v)` is a case-insensitive `kB`.
pub open spec fn spec_unit_ok(s: Seq<u8>, u: int, v: int) -> bool {
    v - u == 2 && (s[u] == 107 || s[u] == 75) && (s[u + 1] == 98 || s[u + 1] == 66)
}

/// What one line `s[i..e)` contributes: nothing for a blank line or an
/// unrecognized label; otherwise its value in bytes, required to parse and
/// to carry no unit other than a case-insensitive `kB`.
pub open spec fn spec_ram_line(s: Seq<u8>, i: int, e: int, acc: RamStatus) -> Result<
    RamStatus,
    Error,
> {
    match spec_next_token(s, i, e) {
        None => Ok(acc),
        Some((a, b)) => {
            let code = spec_label_code(s, a, spec_strip_colons(s, a, b));
            if code == 8 {
                Ok(acc)
            } else {
                let (p, r) = spec_next(s, b, e);
                match r {
                    Err(er) => Err(er),
                    Ok(value) => match spec_next_token(s, p, e) {
                        None => Ok(spec_ram_set(acc, code, spec_sat_mul(value, 1024))),
                        Some((u, v)) => if spec_unit_ok(s, u, v) {
                            Ok(spec_ram_set(acc, code, spec_sat_mul(value, 1024)))
                        } else {
                            Err(Error::MalformedSource)
                        },
                    },
                }
            }
        },
    }
}

/// The fold of `spec_ram_line` over every line from `i` on.
pub open spec fn spec_ram_accumulate(s: Seq<u8>, i: int, acc: RamStatus) -> Result<
    RamStatus,
    Error,
>
    decreases s.len() - i,
{
    if i < 0 || i >= s.len() {
        Ok(acc)
    } else {
        match spec_ram_line(s, i, spec_line_end(s, i), acc) {
            Err(e) => Err(e),
            Ok(acc2) => spec_ram_accumulate(s, spec_skip_line(s, i), acc2),
        }
    }
}

/// What parsing the whole source yields: the fold over all lines, rejected
/// when the reported total memory is zero, a sign the source was empty or
/// unreadable rather than genuinely zero.
pub open spec fn spec_ram_sample(s: Seq<u8>) -> Result<RamStatus, Error> {
    match spec_ram_accumulate(s, 0, spec_ram_zero()) {
        Err(e) => Err(e),
        Ok(acc) => if acc.total == 0 {
            Err(Error::MalformedSource)
        } else {
            Ok(acc)
        },
    }
}

impl RamStatus {
    /// Parses one reading from the text of the memory-info source.
    pub fn sample(s: &[u8]) -> (r: Result<RamStatus, Error>)
        ensures
            r == spec_ram_sample(s@),
    {
        let mut acc = RamStatus::default();
        let mut i: usize = 0;
        while i < s.len()
            invariant
                i <= s@.len(),
                spec_ram_accumulate(s@, 0, spec_ram_zero()) == spec_ram_accumulate(
                    s@,
                    i as int,
                    acc,
                ),
            decreases s@.len() - i,
        {
            let ghost acc0 = acc;
            let e = line_end(s, i);
            match next_token(s, i, e) {
                None => {},
                Some((a, b)) => {
                    let b2 = strip_colons(s, a, b);
                    let code = label_code(s, a, b2);
                    if code == 8 {
                    } else {
                        let (p, r) = next(s, b, e);
                        let value = match r {
                            Ok(v) => v,
                            Err(er) => return Err(er),
                        };
                        match next_token(s, p, e) {
                            None => {},
                            Some((u, v)) => {
                                if v - u == 2 && (s[u] == 107 || s[u] == 75) && (s[u + 1] == 98
                                    || s[u + 1] == 66) {
                                } else {
                                    return Err(Error::MalformedSource);
                                }
                            },
                        }
                        let w = sat_mul(value, 1024);
                        if code == 0 {
                            acc.total = w;
                        } else if code == 1 {
                            acc.free = w;
                        } else if code == 2 {
                            acc.available = w;
                        } else if code == 3 {
                            acc.buffers = w;
                        } else if code == 4 {
                            acc.cached = w;
                        } else if code == 5 {
                            acc.slab_reclaimable = w;
                        } else if code == 6 {
                            acc.swap_total = w;
                        } else {
                            acc.swap_free = w;
                        }
                        assert(acc == spec_ram_set(acc0, code as int, w));
                    }
                },
            }
            assert(spec_ram_line(s@, i as int, e as int, acc0) == Ok::<_, Error>(acc));
            i = skip_line(s, i);
        }
        if acc.total == 0 {
            Err(Error::MalformedSource)
        } else {
            Ok(acc)
        }
    }

    /// What one resample does: the state is cleared, then replaced by the
    /// fresh reading only on success.
    pub open spec fn spec_update(src: Option<Seq<u8>>) -> (RamStatus, Result<(), Error>) {
        match src {
            None => (spec_ram_zero(), Err(Error::SourceUnavailable)),
            Some(text) => match spec_ram_sample(text) {
                Ok(c) => (c, Ok(())),
                Err(e) => (spec_ram_zero(), Err(e)),
            },
        }
    }

    /// Clears the reading, then parses a fresh one from `src`; `None`
    /// stands for an unreadable source.
    pub fn update(&mut self, src: Option<&[u8]>) -> (r: Result<(), Error>)
        ensures
            (*final(self), r) == RamStatus::spec_update(src_view(src)),
    {
        *self = RamStatus::default();
        match src {
            None => Err(Error::SourceUnavailable),
            Some(text) => match RamStatus::sample(text) {
                Ok(c) => {
                    *self = c;
                    Ok(())
                },
                Err(e) => Err(e),
            },
        }
    }

    /// Bytes in use: the total less free memory and reclaimable caches.
    pub open spec fn spec_used(self) -> u64 {
        self.total.saturating_sub(self.free).saturating_sub(self.buffers).saturating_sub(
            self.cached,
        ).saturating_sub(self.slab_reclaimable)
    }

    /// Swap bytes in use.
    pub open spec fn spec_swap_used(self) -> u64 {
        self.swap_total.saturating_sub(self.swap_free)
    }

    /// Fraction of memory in use, absent before any successful sampling
    /// (the total is then zero).
    pub open spec fn spec_usage(self) -> Option<Ratio> {
        spec_sanitize_division(self.spec_used(), self.total)
    }

    /// Fraction of swap in use, absent when no swap is configured.
    pub open spec fn spec_swap_usage(self) -> Option<Ratio> {
        spec_sanitize_division(self.spec_swap_used(), self.swap_total)
    }

    pub fn used(&self) -> (r: u64)
        ensures
            r == self.spec_used(),
    {
        self.total.saturating_sub(self.free).saturating_sub(self.buffers).saturating_sub(
            self.cached,
        ).saturating_sub(self.slab_reclaimable)
    }

    pub fn swap_used(&self) -> (r: u64)
        ensures
            r == self.spec_swap_used(),
    {
        self.swap_total.saturating_sub(self.swap_free)
    }

    /// Fraction (0..=1) of ram used as of the last reading.
    pub fn usage(&self) -> (r: Option<Ratio>)
        ensures
            r == self.spec_usage(),
            r matches Some(q) ==> q.wf(),
    {
        sanitize_division(self.used(), self.total)
    }

    /// Fraction (0..=1) of ram swap used as of the last reading.
    pub fn swap_usage(&self) -> (r: Option<Ratio>)
        ensures
            r == self.spec_swap_usage(),
            r matches Some(q) ==> q.wf(),
    {
        sanitize_division(self.swap_used(), self.swap_total)
    }
}

} // verus!

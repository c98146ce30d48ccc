use vstd::prelude::*;

verus! {

/// A percentage held exactly, as `part / whole * 100`. `whole` is never 0,
/// so turning it into a number never divides by zero.
#[derive(Debug, Clone, Copy, PartialEq, Eq)]
pub struct Percent {
    pub part: u64,
    pub whole: u64,
}

impl Percent {
    pub open spec fn wf(&self) -> bool {
        self.whole > 0
    }

    /// `part` out of `whole`; zero percent when `whole` is 0.
    pub fn of(part: u64, whole: u64) -> (r: Percent)
        ensures
            r.wf(),
            whole == 0 ==> r == (Percent { part: 0, whole: 1 }),
            whole > 0 ==> r == (Percent { part, whole }),
    {
        if whole == 0 {
            Percent { part: 0, whole: 1 }
        } else {
            Percent { part, whole }
        }
    }

    /// Whether this percentage is zero.
    pub fn is_zero(&self) -> (r: bool)
        ensures
            r == (self.part == 0),
    {
        self.part == 0
    }
}

/// The largest value a snapshot field can carry.
pub const FIELD_MAX: u64 = 0x7fff_ffff_ffff_ffff;

/// One reading of the machine's resources, as pushed to the backend. The CPU
/// load is sampled apart from it; disk and network figures are not available
/// from the data source and stay zero.
#[derive(Debug, Clone, Copy, PartialEq, Eq)]
pub struct SystemSnapshot {
    pub cpu_count: u64,
    pub memory_total: i64,
    pub memory_used: i64,
    pub memory_available: i64,
    pub memory_percent: Percent,
    pub disk_total: i64,
    pub disk_used: i64,
    pub disk_free: i64,
    pub disk_percent: Percent,
    pub bytes_sent: i64,
    pub bytes_recv: i64,
}

impl SystemSnapshot {
    pub open spec fn wf(&self) -> bool {
        &&& self.memory_percent.wf()
        &&& self.disk_percent.wf()
    }

    /// Builds a snapshot from the core count and the total and used memory
    /// in bytes.
    pub fn from_readings(cpu_count: u64, total_memory: u64, used_memory: u64) -> (r: SystemSnapshot)
        requires
            total_memory <= FIELD_MAX,
            used_memory <= FIELD_MAX,
        ensures
            r.wf(),
            r.cpu_count == cpu_count,
            r.memory_total == total_memory,
            r.memory_used == used_memory,
            r.memory_available == total_memory - used_memory,
            r.memory_percent == Percent::of_spec(used_memory, total_memory),
            r.disk_total == 0 && r.disk_used == 0 && r.disk_free == 0,
            r.disk_percent == (Percent { part: 0, whole: 1 }),
            r.bytes_sent == 0 && r.bytes_recv == 0,
    {
        let total = total_memory as i64;
        let used = used_memory as i64;
        let disk_total: i64 = 0;
        let disk_used: i64 = 0;
        SystemSnapshot {
            cpu_count,
            memory_total: total,
            memory_used: used,
            memory_available: total - used,
            memory_percent: Percent::of(used_memory, total_memory),
            disk_total,
            disk_used,
            disk_free: disk_total - disk_used,
            disk_percent: Percent::of(disk_used as u64, disk_total as u64),
            bytes_sent: 0,
            bytes_recv: 0,
        }
    }
}

impl Percent {
    /// What `of` returns.
    pub open spec fn of_spec(part: u64, whole: u64) -> Percent {
        if whole == 0 {
            Percent { part: 0, whole: 1 }
        } else {
            Percent { part, whole }
        }
    }
}

/// With no memory reported the memory share is zero, never a division by
/// zero: any snapshot built from a total of 0 carries 0 %.
pub proof fn zero_total_memory_gives_zero_percent(used_memory: u64)
    requires
        used_memory <= FIELD_MAX,
    ensures
        Percent::of_spec(used_memory, 0) == (Percent { part: 0, whole: 1 }),
        Percent::of_spec(used_memory, 0).wf(),
{
}

} // verus!

//! What the library asks of the machine it runs on.
use vstd::prelude::*;

verus! {

/// The number of CPUs available to this process, from `num_cpus::get`. Its
/// documentation promises at least one; the value itself depends on the machine (and
/// its scheduling affinity and cgroup limits), so nothing more is stated.
#[verifier::external_body]
pub(crate) fn available_cpus() -> (r: usize)
    ensures
        r >= 1,
{
    num_cpus::get()
}

/// The limit on parallel work for a given number of CPUs: the configured one, else the
/// smaller of the amount of work and the number of CPUs.
pub open spec fn limit_spec(configured: Option<usize>, work_count: int, cpus: int) -> int {
    match configured {
        Some(m) => m as int,
        None => if work_count < cpus { work_count } else { cpus },
    }
}

/// The limit on parallel work for `cpus` CPUs (see `limit_spec`).
pub fn limit_with_cpus(configured: Option<usize>, work_count: usize, cpus: usize) -> (r: usize)
    ensures
        r == limit_spec(configured, work_count as int, cpus as int),
{
    match configured {
        Some(m) => m,
        None => if work_count < cpus {
            work_count
        } else {
            cpus
        },
    }
}

/// A limit on parallel work: `limit_with_cpus` for the number of CPUs available here,
/// which is at least one (so the limit is at least one when there is work).
pub fn parallel_limit(configured: Option<usize>, work_count: usize) -> (r: usize)
    ensures
        exists|cpus: int| cpus >= 1 && r == #[trigger] limit_spec(configured, work_count as int, cpus),
        match configured {
            Some(m) => r == m,
            None => r <= work_count && (work_count >= 1 ==> r >= 1),
        },
{
    let cpus = available_cpus();
    let r = limit_with_cpus(configured, work_count, cpus);
    assert(r == limit_spec(configured, work_count as int, cpus as int));
    r
}

} // verus!

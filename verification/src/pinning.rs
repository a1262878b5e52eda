use vstd::prelude::*;
use crate::affinity::CpuAffinitySet;

verus! {

#[verifier::external_type_specification]
#[verifier::external_body]
pub struct ExCpuSet(nix::sched::CpuSet);

/// The cores a kernel CPU set holds. The set is opaque to the
/// verifier; the trusted wrappers below say how each call moves its
/// contents.
pub uninterp spec fn kernel_cpus(s: nix::sched::CpuSet) -> Set<int>;

/// Relies on nix::sched::CpuSet::new: a zeroed, and so empty, kernel
/// CPU set.
#[verifier::external_body]
fn sys_cpuset_new() -> (r: nix::sched::CpuSet)
    ensures
        kernel_cpus(r) == Set::<int>::empty(),
{
    nix::sched::CpuSet::new()
}

/// Relies on nix::sched::CpuSet::set: adds one core index to the set;
/// an index at or beyond the set's fixed capacity is refused with the
/// raw OS error and leaves the contents as they were.
#[verifier::external_body]
fn sys_cpuset_set(set: &mut nix::sched::CpuSet, i: usize) -> (r: Result<(), i32>)
    ensures
        r is Ok ==> kernel_cpus(*final(set)) == kernel_cpus(*old(set)).insert(i as int),
        r is Err ==> kernel_cpus(*final(set)) == kernel_cpus(*old(set)),
{
    set.set(i).map_err(|e| e as i32)
}

/// Relies on nix::unistd::gettid: the id of the calling thread.
#[verifier::external_body]
fn sys_gettid() -> (r: i32) {
    nix::unistd::gettid().as_raw()
}

/// Relies on nix::sched::sched_setaffinity: restricts the scheduling
/// of the given thread to the cores of the set.
#[verifier::external_body]
fn sys_sched_setaffinity(tid: i32, set: &nix::sched::CpuSet) -> (r: Result<(), i32>) {
    nix::sched::sched_setaffinity(nix::unistd::Pid::from_raw(tid), set).map_err(|e| e as i32)
}

/// Carry a core selection into a kernel CPU set: on success the kernel
/// set holds exactly the selected cores — nothing dropped, nothing
/// added. A selected index beyond the kernel set's capacity surfaces
/// as the raw OS error.
pub fn build_kernel_set(set: &CpuAffinitySet) -> (r: Result<nix::sched::CpuSet, i32>)
    ensures
        r matches Ok(ks) ==> kernel_cpus(ks) =~= Set::new(|i: int| set.has(i)),
{
    let mut kernel_set: nix::sched::CpuSet = sys_cpuset_new();
    let n: usize = set.bits.len();
    let mut i: usize = 0;
    while i < n
        invariant
            n == set.bits@.len(),
            0 <= i <= n,
            kernel_cpus(kernel_set) =~= Set::new(|j: int| 0 <= j < i && set.has(j)),
        decreases n - i,
    {
        let ghost before = kernel_cpus(kernel_set);
        if set.is_set(i) {
            match sys_cpuset_set(&mut kernel_set, i) {
                Ok(_) => {
                    proof {
                        assert(kernel_cpus(kernel_set) =~= Set::new(
                            |j: int| 0 <= j < i + 1 && set.has(j),
                        ));
                    }
                },
                Err(e) => {
                    return Err(e);
                },
            }
        } else {
            proof {
                assert(kernel_cpus(kernel_set) =~= Set::new(
                    |j: int| 0 <= j < i + 1 && set.has(j),
                ));
            }
        }
        i = i + 1;
    }
    proof {
        assert forall|j: int| set.has(j) implies 0 <= j < n by {}
        assert(kernel_cpus(kernel_set) =~= Set::new(|j: int| set.has(j)));
    }
    Ok(kernel_set)
}

/// Pin the calling thread to exactly the cores of `set`: the kernel
/// set applied holds exactly the selected cores (by the contract of
/// `build_kernel_set`), and it is applied to this thread only —
/// self-affinity, never cross-thread. Any failure surfaces as the raw
/// OS error; callers treat it as fatal to the worker, since a
/// mis-pinned worker silently degrades the performance pinning exists
/// to provide.
pub fn apply_to_current_thread(set: &CpuAffinitySet) -> (r: Result<(), i32>) {
    let kernel_set: nix::sched::CpuSet = match build_kernel_set(set) {
        Ok(ks) => ks,
        Err(e) => {
            return Err(e);
        },
    };
    let tid: i32 = sys_gettid();
    sys_sched_setaffinity(tid, &kernel_set)
}

} // verus!

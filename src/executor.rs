use vstd::prelude::*;

verus! {

/// The fewest worker threads the pool runs with.
pub const MIN_POOL_THREADS: usize = 2;

/// Relies on `num_cpus::get`: the number of CPUs this process may use. Its
/// documentation promises no bound, so nothing is stated of the result.
#[verifier::external_body]
fn available_cpus() -> usize {
    num_cpus::get()
}

/// The pool's thread count for a machine with `cpus` usable CPUs: one per
/// CPU, and never fewer than two.
pub fn worker_thread_count(cpus: usize) -> (r: usize)
    ensures
        r == if cpus < MIN_POOL_THREADS {
            MIN_POOL_THREADS
        } else {
            cpus
        },
        r >= MIN_POOL_THREADS,
{
    if cpus < MIN_POOL_THREADS {
        MIN_POOL_THREADS
    } else {
        cpus
    }
}

/// The thread count for the executor pool on this machine.
pub fn pool_thread_count() -> (r: usize)
    ensures
        r >= MIN_POOL_THREADS,
{
    worker_thread_count(available_cpus())
}

} // verus!

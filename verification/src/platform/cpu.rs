//! CPU topology and platform identity.

use vstd::prelude::*;
use super::config::MAX_CPU_NUM;

verus! {

/// Maps an MPIDR affinity value to the dense logical CPU index. BCM2837
/// exposes the cores as `0..4` in the low MPIDR bits.
pub fn resolve_cpu_index(hardware_id: usize) -> (index: Option<usize>)
    ensures
        index == (if hardware_id < MAX_CPU_NUM {
            Some(hardware_id)
        } else {
            None
        }),
{
    if hardware_id < MAX_CPU_NUM {
        Some(hardware_id)
    } else {
        None
    }
}

/// The platform's name.
pub fn platform_name() -> (name: &'static str)
    ensures
        name@ == "bcm2837-zero2w"@,
{
    "bcm2837-zero2w"
}

} // verus!

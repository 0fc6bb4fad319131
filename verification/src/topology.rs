//! The execution topology: how many compute units the run may use, how many
//! worker lanes each unit carries, and whether lanes are pinned to cores.

use vstd::prelude::*;
use vstd::arithmetic::div_mod::lemma_multiply_divide_lt;
use vstd::arithmetic::mul::lemma_mul_is_commutative;

verus! {

/// The target execution topology for one batch run: `num_cpus` compute units
/// (sockets or NUMA nodes), each contributing `cores_per_cpu` worker lanes,
/// with `enable_numa` deciding whether each lane is pinned to a physical core.
#[derive(Clone, Copy, Debug, PartialEq, Eq, Structural)]
pub struct MultiCpuConfig {
    pub num_cpus: usize,
    pub cores_per_cpu: usize,
    pub enable_numa: bool,
}

impl MultiCpuConfig {
    /// The total number of worker lanes this topology describes.
    pub open spec fn spec_total_threads(self) -> int {
        self.num_cpus * self.cores_per_cpu
    }

    /// A topology is valid when both dimensions are positive; a zero in either
    /// field is a configuration error that the dispatcher reports, never a
    /// value to clamp silently.
    pub open spec fn spec_is_valid(self) -> bool {
        self.num_cpus >= 1 && self.cores_per_cpu >= 1
    }

    pub fn is_valid(&self) -> (r: bool)
        ensures
            r == self.spec_is_valid(),
    {
        self.num_cpus >= 1 && self.cores_per_cpu >= 1
    }

    /// One worker lane per core across all compute units.
    pub fn total_threads(&self) -> (r: usize)
        requires
            self.spec_total_threads() <= usize::MAX,
        ensures
            r == self.spec_total_threads(),
            self.spec_is_valid() ==> r >= 1,
    {
        proof {
            let x = self.num_cpus as int;
            let y = self.cores_per_cpu as int;
            if x >= 1 && y >= 1 {
                assert(x * y >= 1) by (nonlinear_arith)
                    requires
                        x >= 1,
                        y >= 1,
                ;
            }
        }
        self.num_cpus * self.cores_per_cpu
    }

    /// The compute unit a lane belongs to. The same mapping is used both for
    /// placement and for statistics bucketing: lanes are grouped contiguously,
    /// `cores_per_cpu` of them per unit.
    pub open spec fn spec_unit_of(self, lane_id: int) -> int {
        lane_id / (self.cores_per_cpu as int)
    }

    pub fn unit_of(&self, lane_id: usize) -> (r: usize)
        requires
            self.spec_is_valid(),
            lane_id < self.spec_total_threads(),
        ensures
            r == self.spec_unit_of(lane_id as int),
            r < self.num_cpus,
    {
        proof {
            lemma_mul_is_commutative(self.num_cpus as int, self.cores_per_cpu as int);
            lemma_multiply_divide_lt(
                lane_id as int,
                self.cores_per_cpu as int,
                self.num_cpus as int,
            );
        }
        lane_id / self.cores_per_cpu
    }
}

/// The topology that host introspection derives from a logical core count and
/// a physical CPU count: one compute unit per physical CPU, and the
/// logical-to-physical ratio (the SMT sibling count) as lanes per unit.
/// Pinning defaults to enabled.
pub open spec fn spec_derived_topology(logical: usize, physical: usize) -> MultiCpuConfig
    recommends
        physical >= 1,
{
    MultiCpuConfig {
        num_cpus: physical,
        cores_per_cpu: (logical as int / physical as int) as usize,
        enable_numa: true,
    }
}

/// Derives a topology from externally observed core counts. The result is a
/// function of the two counts alone, so an unchanged host always yields the
/// same derivation.
pub fn derive_topology(logical: usize, physical: usize) -> (r: MultiCpuConfig)
    requires
        physical >= 1,
    ensures
        r == spec_derived_topology(logical, physical),
{
    MultiCpuConfig {
        num_cpus: physical,
        cores_per_cpu: logical / physical,
        enable_numa: true,
    }
}

/// Topology derivation is idempotent: two derivations taken from an unchanged
/// host (that is, from equal core counts) agree on every field.
pub proof fn lemma_derivation_idempotent(
    first: MultiCpuConfig,
    second: MultiCpuConfig,
    logical: usize,
    physical: usize,
)
    requires
        physical >= 1,
        first == spec_derived_topology(logical, physical),
        second == spec_derived_topology(logical, physical),
    ensures
        first.num_cpus == second.num_cpus,
        first.cores_per_cpu == second.cores_per_cpu,
        first.enable_numa == second.enable_numa,
{
}

/// Relies on num_cpus::get: the number of logical cores, at least one.
#[verifier::external_body]
fn logical_core_count() -> (r: usize)
    ensures
        r >= 1,
{
    num_cpus::get()
}

/// Relies on num_cpus::get_physical: the number of physical CPU cores, at
/// least one.
#[verifier::external_body]
fn physical_cpu_count() -> (r: usize)
    ensures
        r >= 1,
{
    num_cpus::get_physical()
}

impl MultiCpuConfig {
    /// Derives the topology from the host: physical cores become compute
    /// units, the logical-to-physical ratio becomes lanes per unit, and
    /// pinning is enabled. The derivation itself depends only on the two
    /// observed counts (`lemma_derivation_idempotent`).
    pub fn from_system() -> (r: Self)
        ensures
            r.num_cpus >= 1,
            r.enable_numa,
    {
        let logical: usize = logical_core_count();
        let physical: usize = physical_cpu_count();
        derive_topology(logical, physical)
    }
}

} // verus!

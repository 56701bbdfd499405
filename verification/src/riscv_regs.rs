//! Ids of the KVM registers of a RISC-V vCPU.
use vstd::prelude::*;

verus! {

/// The id of a KVM register: the architecture, the register type and subtype,
/// the index and the size fields, or-ed together.
pub fn kvm_reg_id(arch: u64, stype: u64, subtype: u64, idx: u64, size: u64) -> (r: u64)
    ensures
        r == arch | stype | subtype | idx | size,
{
    arch | stype | subtype | idx | size
}

} // verus!

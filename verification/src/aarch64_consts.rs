//! Guest physical layout and device tree numbers of the ARM64 virtual machine.
use vstd::prelude::*;

verus! {

/// Base of the GIC distributor, just below the AXI window.
pub const AARCH64_GIC_DIST_BASE: u64 = AARCH64_AXI_BASE - AARCH64_GIC_DIST_SIZE;

/// Base of the GIC CPU interface, just below the distributor.
pub const AARCH64_GIC_CPUI_BASE: u64 = AARCH64_GIC_DIST_BASE - AARCH64_GIC_CPUI_SIZE;

/// Size of the redistributor region of one vCPU.
pub const AARCH64_GIC_REDIST_SIZE: u64 = 0x20000;

/// Largest device tree blob the guest is given.
pub const AARCH64_FDT_MAX_SIZE: u64 = 0x200000;

/// Start of guest RAM.
pub const AARCH64_PHYS_MEM_START: u64 = 0x80000000;

/// Base of the MMIO device window.
pub const AARCH64_MMIO_BASE: u64 = 0x4000_0000;

/// Base of the AXI window.
pub const AARCH64_AXI_BASE: u64 = 0x40000000;

/// Size of the GIC distributor region.
pub const AARCH64_GIC_DIST_SIZE: u64 = 0x10000;

/// Size of the GIC CPU interface region.
pub const AARCH64_GIC_CPUI_SIZE: u64 = 0x20000;

/// Cells of a GIC interrupt specifier (Linux GIC bindings).
pub const GIC_FDT_IRQ_NUM_CELLS: u32 = 3;

/// Shared peripheral interrupt type.
pub const GIC_FDT_IRQ_TYPE_SPI: u32 = 0;

/// Private peripheral interrupt type.
pub const GIC_FDT_IRQ_TYPE_PPI: u32 = 1;

/// Position of the CPU mask in a PPI specifier.
pub const GIC_FDT_IRQ_PPI_CPU_SHIFT: u32 = 8;

/// CPU mask of a PPI specifier.
pub const GIC_FDT_IRQ_PPI_CPU_MASK: u32 = 0xff00;

/// PMU private interrupt, as in QEMU.
pub const AARCH64_PMU_IRQ: u32 = 7;

/// Interrupt triggered on a rising edge.
pub const IRQ_TYPE_EDGE_RISING: u32 = 0x00000001;

/// Interrupt triggered on a high level.
pub const IRQ_TYPE_LEVEL_HIGH: u32 = 0x00000004;

/// Interrupt triggered on a low level.
pub const IRQ_TYPE_LEVEL_LOW: u32 = 0x00000008;

/// Phandle of the interrupt controller.
pub const PHANDLE_GIC: u32 = 1;

} // verus!

//! Guest physical layout and device tree numbers of the RISC-V virtual machine.
use vstd::prelude::*;

verus! {

/// Base of the APLIC.
pub const RISCV_PLIC: u64 = 0x0c00_0000;

/// Size of the APLIC region.
pub const RISCV_PLIC_SIZE: u64 = 0x600_000;

/// Base of the IMSIC files.
pub const RISCV_IMSIC: u64 = 0x28000000;

/// Size of the IMSIC file of one hart.
pub const RISCV_IMSIC_SIZE: u64 = 0x1000;

/// Phandle of the interrupt controller of vCPU 0; vCPU `i` has this plus `i`.
pub const PHANDLE_CPU_INTC_BASE: u32 = 1;

/// Phandle of the APLIC.
pub const PHANDLE_APLIC: u32 = 0xd;

/// Phandle of the IMSIC.
pub const PHANDLE_IMSIC: u32 = 0x9;

/// Most devices that the APLIC serves.
pub const MAX_DEVICES: u32 = 1024;

/// Start of guest RAM.
pub const RISCV64_PHYS_MEM_START: u64 = 0x80000000;

/// Largest device tree blob the guest is given.
pub const RISCV64_FDT_MAX_SIZE: u64 = 0x200000;

/// Base of the MMIO device window.
pub const RISCV64_MMIO_BASE: u64 = 0x4000_0000;

/// Cells of an APLIC interrupt specifier.
pub const FDT_APLIC_INT_CELLS: u32 = 2;

/// Address cells of the APLIC node.
pub const FDT_APLIC_ADDR_CELLS: u32 = 0;

/// Interrupt sources of the APLIC.
pub const VIRT_IRQCHIP_NUM_SOURCES: u32 = 96;

/// Supervisor external interrupt.
pub const IRQ_S_EXT: u32 = 0x9;

/// MSI identities of an IMSIC file.
pub const VIRT_IRQCHIP_NUM_MSIS: u32 = 255;

/// Cells of an IMSIC interrupt specifier.
pub const FDT_IMSIC_INT_CELLS: u32 = 0;

/// Interrupt triggered on a rising edge.
pub const IRQ_TYPE_EDGE_RISING: u32 = 0x00000001;

/// Interrupt triggered on a high level.
pub const IRQ_TYPE_LEVEL_HIGH: u32 = 0x00000004;

/// Interrupt triggered on a low level.
pub const IRQ_TYPE_LEVEL_LOW: u32 = 0x00000008;

} // verus!

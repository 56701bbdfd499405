//! Architecture support of a small KVM-based virtual machine monitor: the
//! flattened device tree handed to the guest, and the setup of the RISC-V
//! advanced interrupt architecture.
pub mod aarch64_consts;
pub mod fdt;
pub mod interrupts;
pub mod riscv64_consts;
pub mod riscv_regs;

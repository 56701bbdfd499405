# vmm_arch

Architecture support of a small KVM-based virtual machine monitor, verified
with Verus.

- `src/fdt/`: the flattened device tree handed to an ARM64 or RISC-V guest.
  `FdtBuilder` collects the settings; `create_fdt` writes the tree through
  `vm_fdt::FdtWriter`.  `writer.rs` holds what is assumed of `vm_fdt`: the
  writer's state is the sequence of calls made on it (`FdtToken`s), and the
  blob is a function of that sequence.  The contract of `create_fdt` states the
  exact sequence of nodes and properties written for given settings, which
  missing setting or refused command line stops it, and when success is owed.
  Its outcome is a function of the settings (`fdt_build_outcome`): when
  `vm_fdt` accepts a property is stated (`fdt_property_accepted`), and
  `fdt_history_ok` says that every call of a sequence is accepted.  A bound on
  the blob's size (`fdt_size_bound`) gives a simple sufficient condition for
  success.  `FdtBuilderCall` models the calls on a builder, and the
  laws over call sequences (a prebuilt blob is set only by
  `with_prebuilt_fdt` and handed out once, virtio devices stay in the order
  added) are stated over it.
- `src/interrupts.rs`: the attributes that set up the in-kernel RISC-V AIA
  device (APLIC and IMSIC), and `find_last_bit`.  The number of CPUs of an
  `APlicConfig` is not used: the IMSIC files are laid out for the harts of the
  VM, which `app/` counts by asking KVM.
- `src/riscv_regs.rs`, `src/*_consts.rs`: register ids and the guest layout.
- `app/`: what talks to files, guest memory and KVM: reading a prebuilt blob,
  writing a blob to guest memory or to a file, reading the vCPU registers that
  the RISC-V tree describes, creating and configuring the AIA device, and the
  interrupt trigger of devices.

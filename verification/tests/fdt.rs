use vmm_arch::fdt::riscv64::{build_riscv_isa_string, RiscvVcpuRegs};
use vmm_arch::fdt::{Fdt, FdtBuilder, FdtBuilderError, FdtTarget};

fn riscv_regs() -> RiscvVcpuRegs {
    // rv64imafdc, with the AIA and timer extensions and cache-block management.
    let mut isa_ext = [None; 9];
    isa_ext[0] = Some(1); // ssaia
    isa_ext[1] = Some(1); // sstc
    isa_ext[5] = Some(0); // zbb, present but disabled
    isa_ext[6] = Some(64); // zicbom
    isa_ext[7] = Some(64); // zicboz
    RiscvVcpuRegs {
        isa: (1 << 0) | (1 << 2) | (1 << 3) | (1 << 5) | (1 << 8) | (1 << 12),
        timebase_frequency: 10_000_000,
        satp_mode: 9,
        isa_ext,
    }
}

fn contains(haystack: &[u8], needle: &[u8]) -> bool {
    haystack.windows(needle.len()).any(|w| w == needle)
}

fn missing(r: Result<Fdt, FdtBuilderError>) -> String {
    match r {
        Err(FdtBuilderError::MissingRequiredConfig(s)) => s,
        Err(e) => panic!("unexpected error {:?}", e),
        Ok(_) => panic!("unexpected success"),
    }
}

#[test]
fn test_adding_virtio() {
    let mut fdt = FdtBuilder::new();
    let fdt = fdt.add_virtio_device(0x1000, 1000, 5);
    assert_eq!(fdt.virtio_device_len(), 1);
    assert_eq!(fdt.virtio_device_len(), 1);
}

#[test]
fn lib_test_create_fdt() {
    let fdt_ok = FdtBuilder::new()
        .with_cmdline(String::from("reboot=t panic=1 pci=off"))
        .with_num_vcpus(8)
        .with_mem_size(4096)
        .with_serial_console(0x40000000, 0x1000)
        .with_rtc(0x40001000, 0x1000)
        .add_virtio_device(0x1000, 1000, 5)
        .create_fdt(&FdtTarget::Aarch64);
    assert!(fdt_ok.is_ok());

    let fdt_no_cmdline = FdtBuilder::new()
        .with_num_vcpus(8)
        .with_mem_size(4096)
        .with_serial_console(0x40000000, 0x1000)
        .with_rtc(0x40001000, 0x1000)
        .create_fdt(&FdtTarget::Aarch64);
    assert!(fdt_no_cmdline.is_err());

    let fdt_no_num_vcpus = FdtBuilder::new()
        .with_cmdline(String::from("reboot=t panic=1 pci=off"))
        .with_mem_size(4096)
        .with_serial_console(0x40000000, 0x1000)
        .with_rtc(0x40001000, 0x1000)
        .create_fdt(&FdtTarget::Aarch64);
    assert!(fdt_no_num_vcpus.is_err());

    let fdt_no_mem_size = FdtBuilder::new()
        .with_cmdline(String::from("reboot=t panic=1 pci=off"))
        .with_num_vcpus(8)
        .with_serial_console(0x40000000, 0x1000)
        .with_rtc(0x40001000, 0x1000)
        .create_fdt(&FdtTarget::Aarch64);
    assert!(fdt_no_mem_size.is_err());
}

#[test]
fn lib_test_create_fdt_riscv64() {
    let target = FdtTarget::Riscv64(riscv_regs());
    let fdt_ok = FdtBuilder::new()
        .with_cmdline(String::from("reboot=t panic=1 pci=off"))
        .with_num_vcpus(8)
        .with_mem_size(4096)
        .with_serial_console(0x40000000, 0x1000)
        .with_rtc(0x40001000, 0x1000)
        .add_virtio_device(0x1000, 1000, 5)
        .create_fdt(&target);
    assert!(fdt_ok.is_ok());

    let fdt_no_cmdline = FdtBuilder::new()
        .with_num_vcpus(8)
        .with_mem_size(4096)
        .with_serial_console(0x40000000, 0x1000)
        .with_rtc(0x40001000, 0x1000)
        .create_fdt(&target);
    assert!(fdt_no_cmdline.is_err());

    let fdt_no_num_vcpus = FdtBuilder::new()
        .with_cmdline(String::from("reboot=t panic=1 pci=off"))
        .with_mem_size(4096)
        .with_serial_console(0x40000000, 0x1000)
        .with_rtc(0x40001000, 0x1000)
        .create_fdt(&target);
    assert!(fdt_no_num_vcpus.is_err());

    let fdt_no_mem_size = FdtBuilder::new()
        .with_cmdline(String::from("reboot=t panic=1 pci=off"))
        .with_num_vcpus(8)
        .with_serial_console(0x40000000, 0x1000)
        .with_rtc(0x40001000, 0x1000)
        .create_fdt(&target);
    assert!(fdt_no_mem_size.is_err());
}

#[test]
fn test_missing_config_named_in_order() {
    assert_eq!(missing(FdtBuilder::new().create_fdt(&FdtTarget::Aarch64)), "cmdline");
    assert_eq!(
        missing(FdtBuilder::new().with_num_vcpus(1).with_mem_size(1).create_fdt(&FdtTarget::Aarch64)),
        "cmdline"
    );
    assert_eq!(
        missing(FdtBuilder::new().with_cmdline(String::from("x")).create_fdt(&FdtTarget::Aarch64)),
        "memory"
    );
    assert_eq!(
        missing(
            FdtBuilder::new()
                .with_cmdline(String::from("x"))
                .with_num_vcpus(2)
                .create_fdt(&FdtTarget::Riscv64(riscv_regs()))
        ),
        "memory"
    );
    assert_eq!(
        missing(
            FdtBuilder::new()
                .with_cmdline(String::from("x"))
                .with_mem_size(4096)
                .create_fdt(&FdtTarget::Aarch64)
        ),
        "vcpu"
    );
}

#[test]
fn test_blob_holds_the_tree() {
    let mut builder = FdtBuilder::new();
    builder
        .with_cmdline(String::from("console=ttyS0"))
        .with_num_vcpus(2)
        .with_mem_size(0x1000_0000)
        .add_virtio_device(0x1000, 0x200, 5)
        .add_virtio_device(0x2000, 0x200, 6);
    let fdt = builder.create_fdt(&FdtTarget::Aarch64).unwrap();
    let blob = fdt.as_bytes();
    // FDT magic, then the total size in big endian.
    assert_eq!(&blob[0..4], &[0xd0, 0x0d, 0xfe, 0xed]);
    let total = u32::from_be_bytes([blob[4], blob[5], blob[6], blob[7]]) as usize;
    assert_eq!(total, blob.len());
    assert!(contains(blob, b"console=ttyS0\0"));
    assert!(contains(blob, b"memory@80000000\0"));
    assert!(contains(blob, b"cpu@0\0"));
    assert!(contains(blob, b"cpu@1\0"));
    assert!(!contains(blob, b"cpu@2\0"));
    assert!(contains(blob, b"virtio_mmio@1000\0"));
    assert!(contains(blob, b"virtio_mmio@2000\0"));
    assert!(contains(blob, b"arm,gic-v3\0"));
    assert!(contains(blob, b"arm,armv8-timer\0"));
    assert!(!contains(blob, b"uart@"));

    // The same settings give the same blob.
    let mut again = FdtBuilder::new();
    again
        .with_cmdline(String::from("console=ttyS0"))
        .with_num_vcpus(2)
        .with_mem_size(0x1000_0000)
        .add_virtio_device(0x1000, 0x200, 5)
        .add_virtio_device(0x2000, 0x200, 6);
    let fdt2 = again.create_fdt(&FdtTarget::Aarch64).unwrap();
    assert_eq!(fdt.as_bytes(), fdt2.as_bytes());

    // The builder keeps its settings: a second call gives the same blob.
    let fdt3 = builder.create_fdt(&FdtTarget::Aarch64).unwrap();
    assert_eq!(fdt.as_bytes(), fdt3.as_bytes());
}

#[test]
fn test_riscv64_blob_holds_the_tree() {
    let fdt = FdtBuilder::new()
        .with_cmdline(String::from("console=ttyS0"))
        .with_num_vcpus(2)
        .with_mem_size(0x1000_0000)
        .with_serial_console(0x1000_0000, 0x100)
        .with_rtc(0x1000_1000, 0x100)
        .add_virtio_device(0x1000, 0x200, 5)
        .create_fdt(&FdtTarget::Riscv64(riscv_regs()))
        .unwrap();
    let blob = fdt.as_bytes();
    assert_eq!(&blob[0..4], &[0xd0, 0x0d, 0xfe, 0xed]);
    assert!(contains(blob, b"rv64imafdc_ssaia_sstc_zicbom_zicboz\0"));
    assert!(contains(blob, b"riscv,sv48\0"));
    assert!(contains(blob, b"riscv,cbom-block-size\0"));
    assert!(contains(blob, b"riscv,cboz-block-size\0"));
    assert!(contains(blob, b"aplic@c000000\0"));
    assert!(contains(blob, b"imsic@28000000\0"));
    assert!(contains(blob, b"serial@10000000\0"));
    assert!(contains(blob, b"rtc@10001000\0"));
    assert!(contains(blob, b"riscv-virtio\0"));
}

#[test]
fn test_riscv64_nine_vcpus_clash_with_imsic_phandle() {
    let r = FdtBuilder::new()
        .with_cmdline(String::from("x"))
        .with_num_vcpus(9)
        .with_mem_size(4096)
        .create_fdt(&FdtTarget::Riscv64(riscv_regs()));
    assert!(matches!(r, Err(FdtBuilderError::Fdt(vm_fdt::Error::DuplicatePhandle))));
    let r = FdtBuilder::new()
        .with_cmdline(String::from("x"))
        .with_num_vcpus(8)
        .with_mem_size(4096)
        .create_fdt(&FdtTarget::Riscv64(riscv_regs()));
    assert!(r.is_ok());
    // ARM64 has no such clash.
    let r = FdtBuilder::new()
        .with_cmdline(String::from("x"))
        .with_num_vcpus(31)
        .with_mem_size(4096)
        .create_fdt(&FdtTarget::Aarch64);
    assert!(r.is_ok());
}

#[test]
fn test_cmdline_with_nul_is_refused() {
    let r = FdtBuilder::new()
        .with_cmdline(String::from("a\0b"))
        .with_num_vcpus(1)
        .with_mem_size(4096)
        .create_fdt(&FdtTarget::Aarch64);
    assert!(matches!(r, Err(FdtBuilderError::Fdt(vm_fdt::Error::InvalidString))));
    // The command line is checked before the memory size is asked for.
    let r = FdtBuilder::new().with_cmdline(String::from("a\0b")).create_fdt(&FdtTarget::Aarch64);
    assert!(matches!(r, Err(FdtBuilderError::Fdt(vm_fdt::Error::InvalidString))));
}

#[test]
fn test_prebuilt_fdt_handed_out_once() {
    let mut builder = FdtBuilder::new();
    assert!(!builder.has_prebuilt_fdt());
    assert!(builder.get_prebuilt_fdt().is_none());
    builder.with_prebuilt_fdt(vec![1, 2, 3]);
    assert!(builder.has_prebuilt_fdt());
    assert_eq!(builder.get_prebuilt_fdt().unwrap().as_bytes(), &[1, 2, 3]);
    // No other setting is needed.
    let first = builder.create_fdt(&FdtTarget::Aarch64).unwrap();
    assert_eq!(first.as_bytes(), &[1, 2, 3]);
    assert!(builder.has_prebuilt_fdt());
    let second = builder.create_fdt(&FdtTarget::Aarch64).unwrap();
    assert!(second.as_bytes().is_empty());
}

#[test]
fn test_unit_names() {
    let fdt = FdtBuilder::new()
        .with_cmdline(String::from("console=ttyS0"))
        .with_num_vcpus(11)
        .with_mem_size(0x1000)
        .add_virtio_device(0xabc_def0, 0x200, 5)
        .create_fdt(&FdtTarget::Aarch64)
        .unwrap();
    let blob = fdt.as_bytes();
    assert!(contains(blob, b"memory@80000000\0"));
    assert!(contains(blob, b"cpu@0\0"));
    assert!(contains(blob, b"cpu@a\0"));
    assert!(!contains(blob, b"cpu@10\0"));
    assert!(contains(blob, b"virtio_mmio@abcdef0\0"));
}

#[test]
fn test_riscv_isa_string() {
    assert_eq!(build_riscv_isa_string(&riscv_regs()), "rv64imafdc_ssaia_sstc_zicbom_zicboz");
    let bare = RiscvVcpuRegs { isa: 0, timebase_frequency: 0, satp_mode: 0, isa_ext: [None; 9] };
    assert_eq!(build_riscv_isa_string(&bare), "rv64");
    let all = RiscvVcpuRegs {
        isa: (1 << 26) - 1,
        timebase_frequency: 0,
        satp_mode: 0,
        isa_ext: [Some(1); 9],
    };
    assert_eq!(
        build_riscv_isa_string(&all),
        "rv64iemafdqclbjtpvnsuhkorwxyzg_ssaia_sstc_svinval_svnapot_svpbmt_zbb_zicbom_zicboz_zihintpause"
    );
}

#[test]
fn test_load_address() {
    assert_eq!(Fdt::load_address(&FdtTarget::Aarch64, 0x1000), 0x8000_1000);
    assert_eq!(Fdt::load_address(&FdtTarget::Riscv64(riscv_regs()), 0), 0x8000_0000);
}

#[test]
fn test_fdt_from_blob() {
    let f = Fdt::from_blob(vec![9, 8]);
    assert_eq!(f.as_bytes(), &[9, 8]);
    let g = f.clone();
    assert_eq!(g.as_bytes(), &[9, 8]);
    assert!(Fdt::default().as_bytes().is_empty());
}

#[test]
fn test_aarch64_timer_overflows() {
    let mut b = FdtBuilder::new();
    b.with_cmdline(String::from("console=ttyAMA0")).with_mem_size(4096).with_num_vcpus(32);
    assert!(b.aarch64_timer_overflows(&FdtTarget::Aarch64));
    assert!(!b.aarch64_timer_overflows(&FdtTarget::Riscv64(riscv_regs())));
    b.with_num_vcpus(31);
    assert!(!b.aarch64_timer_overflows(&FdtTarget::Aarch64));
    // A command line with a NUL is refused before the timer is reached.
    let mut c = FdtBuilder::new();
    c.with_cmdline(String::from("a\0")).with_mem_size(4096).with_num_vcpus(40);
    assert!(!c.aarch64_timer_overflows(&FdtTarget::Aarch64));
    // So is a builder without memory size.
    let mut d = FdtBuilder::new();
    d.with_cmdline(String::from("a")).with_num_vcpus(40);
    assert!(!d.aarch64_timer_overflows(&FdtTarget::Aarch64));
    assert_eq!(missing(d.create_fdt(&FdtTarget::Aarch64)), "memory");
}

#[test]
fn test_cmdline_with_nul_comes_before_missing_settings() {
    // No memory size: the command line is refused first.
    let r = FdtBuilder::new()
        .with_cmdline(String::from("x\0"))
        .with_num_vcpus(2)
        .create_fdt(&FdtTarget::Riscv64(riscv_regs()));
    assert!(matches!(r, Err(FdtBuilderError::Fdt(_))));
    // No vCPU count either.
    let r = FdtBuilder::new()
        .with_cmdline(String::from("x\0"))
        .with_mem_size(4096)
        .create_fdt(&FdtTarget::Aarch64);
    assert!(matches!(r, Err(FdtBuilderError::Fdt(_))));
}

#[test]
fn test_reaches_cpu_nodes() {
    let mut b = FdtBuilder::new();
    assert!(!b.reaches_cpu_nodes());
    b.with_cmdline(String::from("console=ttyS0")).with_mem_size(4096);
    assert!(!b.reaches_cpu_nodes());
    b.with_num_vcpus(1);
    assert!(b.reaches_cpu_nodes());
    b.with_cmdline(String::from("bad\0"));
    assert!(!b.reaches_cpu_nodes());
    b.with_cmdline(String::from("ok"));
    b.with_prebuilt_fdt(vec![7]);
    assert!(!b.reaches_cpu_nodes());
}

#[test]
fn test_create_fdt_keeps_settings() {
    let mut b = FdtBuilder::new();
    b.with_cmdline(String::from("console=ttyS0"))
        .with_mem_size(0x1000_0000)
        .with_num_vcpus(2)
        .add_virtio_device(0x1000, 0x200, 3);
    let first = b.create_fdt(&FdtTarget::Aarch64).unwrap();
    let second = b.create_fdt(&FdtTarget::Aarch64).unwrap();
    assert_eq!(first.as_bytes(), second.as_bytes());
    assert!(!b.has_prebuilt_fdt());
    assert_eq!(b.virtio_device_len(), 1);
}

#[test]
fn test_builder_default_is_empty() {
    let mut b = FdtBuilder::default();
    assert!(!b.has_prebuilt_fdt());
    assert_eq!(b.virtio_device_len(), 0);
    assert_eq!(missing(b.create_fdt(&FdtTarget::Aarch64)), "cmdline");
}

#[test]
fn test_error_from_conversions() {
    let e: FdtBuilderError = vm_fdt::Error::InvalidString.into();
    assert!(matches!(e, FdtBuilderError::Fdt(vm_fdt::Error::InvalidString)));
    let e: FdtBuilderError = std::io::Error::new(std::io::ErrorKind::NotFound, "gone").into();
    assert!(matches!(e, FdtBuilderError::FdtCustomDtb(_)));
    let e: FdtBuilderError =
        vm_memory::GuestMemoryError::InvalidGuestAddress(vm_memory::GuestAddress(0x10)).into();
    assert!(matches!(e, FdtBuilderError::Memory(_)));
}

#[test]
fn test_virtio_devices_in_order_added() {
    let position = |blob: &[u8], needle: &[u8]| blob.windows(needle.len()).position(|w| w == needle);
    let fdt = FdtBuilder::new()
        .with_cmdline(String::from("console=ttyS0"))
        .with_num_vcpus(1)
        .with_mem_size(0x1000_0000)
        .add_virtio_device(0x3000, 0x200, 7)
        .with_rtc(0x4000, 0x100)
        .add_virtio_device(0x1000, 0x200, 5)
        .create_fdt(&FdtTarget::Aarch64)
        .unwrap();
    let blob = fdt.as_bytes();
    let first = position(blob, b"virtio_mmio@3000\0").unwrap();
    let second = position(blob, b"virtio_mmio@1000\0").unwrap();
    assert!(first < second);
}

#[test]
fn test_long_cmdline_still_names_missing_settings() {
    let long = "a".repeat(1 << 20);
    let r = FdtBuilder::new()
        .with_cmdline(long.clone())
        .with_num_vcpus(1)
        .create_fdt(&FdtTarget::Aarch64);
    assert_eq!(missing(r), "memory");
    let r = FdtBuilder::new()
        .with_cmdline(long)
        .with_mem_size(4096)
        .create_fdt(&FdtTarget::Riscv64(riscv_regs()));
    assert_eq!(missing(r), "vcpu");
}

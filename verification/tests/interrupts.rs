use vmm_arch::fdt::aarch64::compute_ppi_cpu_mask;
use vmm_arch::interrupts::{find_last_bit, AiaDeviceAttr, APlicConfig};
use vmm_arch::riscv_regs::kvm_reg_id;

fn hart_bits(num_harts: u32) -> u64 {
    let attrs = APlicConfig::default().device_attrs(num_harts);
    match attrs[attrs.len() - 2] {
        AiaDeviceAttr::ConfigHartBits(b) => b,
        other => panic!("unexpected attribute {:?}", other),
    }
}

#[test]
fn test_find_last_bit() {
    assert_eq!(find_last_bit(&[0], 64), 64);
    assert_eq!(find_last_bit(&[1], 64), 0);
    assert_eq!(find_last_bit(&[0x8000_0000_0000_0000], 64), 63);
    assert_eq!(find_last_bit(&[0b1011], 64), 3);
    // Bits beyond `size` are ignored.
    assert_eq!(find_last_bit(&[u64::MAX], 10), 9);
    assert_eq!(find_last_bit(&[0b1_0000_0000], 8), 8);
    // Several words.
    assert_eq!(find_last_bit(&[1, 0], 128), 0);
    assert_eq!(find_last_bit(&[1, 4], 100), 66);
    assert_eq!(find_last_bit(&[0, 0], 100), 100);
    assert_eq!(find_last_bit(&[], 0), 0);
}

#[test]
fn test_device_attrs() {
    let attrs = APlicConfig { num_cpus: 4 }.device_attrs(4);
    assert_eq!(
        attrs,
        vec![
            AiaDeviceAttr::ConfigSrcs(96),
            AiaDeviceAttr::ConfigIds(255),
            AiaDeviceAttr::ConfigGuestBits(0),
            AiaDeviceAttr::AddrAplic(0xc00_0000),
            AiaDeviceAttr::AddrImsic { attr: 1, addr: 0x2800_0000 },
            AiaDeviceAttr::AddrImsic { attr: 2, addr: 0x2800_1000 },
            AiaDeviceAttr::AddrImsic { attr: 3, addr: 0x2800_2000 },
            AiaDeviceAttr::AddrImsic { attr: 4, addr: 0x2800_3000 },
            AiaDeviceAttr::ConfigHartBits(2),
            AiaDeviceAttr::CtrlInit,
        ]
    );
    let none = APlicConfig::default().device_attrs(0);
    assert_eq!(none.len(), 6);
}

#[test]
fn test_hart_bits() {
    assert_eq!(hart_bits(0), 0);
    assert_eq!(hart_bits(1), 0);
    assert_eq!(hart_bits(2), 1);
    assert_eq!(hart_bits(3), 2);
    assert_eq!(hart_bits(4), 2);
    assert_eq!(hart_bits(5), 3);
    assert_eq!(hart_bits(8), 3);
    assert_eq!(hart_bits(9), 4);
    assert_eq!(hart_bits(255), 8);
}

#[test]
fn test_ppi_cpu_mask() {
    assert_eq!(compute_ppi_cpu_mask(0), 0);
    assert_eq!(compute_ppi_cpu_mask(1), 0x100);
    assert_eq!(compute_ppi_cpu_mask(2), 0x300);
    assert_eq!(compute_ppi_cpu_mask(8), 0xff00);
    assert_eq!(compute_ppi_cpu_mask(31), 0xff00);
}

#[test]
fn test_kvm_reg_id() {
    // The `isa` config register of a RISC-V vCPU.
    assert_eq!(
        kvm_reg_id(0x8000_0000_0000_0000, 0x0100_0000, 0, 0, 0x0030_0000_0000_0000),
        0x8030_0000_0100_0000
    );
    assert_eq!(kvm_reg_id(1, 2, 4, 8, 16), 31);
}

#[test]
fn test_device_attrs_do_not_use_num_cpus() {
    for harts in [0u32, 1, 2, 7, 300] {
        let a = APlicConfig { num_cpus: 1 }.device_attrs(harts);
        let b = APlicConfig { num_cpus: 2 }.device_attrs(harts);
        let c = APlicConfig { num_cpus: 255 }.device_attrs(harts);
        assert_eq!(a, b);
        assert_eq!(a, c);
        // One IMSIC file per hart of the VM.
        assert_eq!(a.len(), 4 + harts as usize + 2);
    }
    assert_eq!(
        APlicConfig { num_cpus: 1 }.device_attrs(300)[4 + 299],
        AiaDeviceAttr::AddrImsic { attr: 300, addr: 0x2800_0000 + 299 * 0x1000 }
    );
}

#[test]
fn test_attr_failure_messages() {
    assert_eq!(AiaDeviceAttr::ConfigSrcs(96).failure_message(), "Could not config srcs");
    assert_eq!(AiaDeviceAttr::ConfigIds(255).failure_message(), "Could not config ids");
    assert_eq!(AiaDeviceAttr::ConfigGroupBits(1).failure_message(), "Could not set group bits");
    assert_eq!(AiaDeviceAttr::ConfigGroupShift(24).failure_message(), "Could not set group shift");
    assert_eq!(AiaDeviceAttr::ConfigGuestBits(0).failure_message(), "Could not set guest bits");
    assert_eq!(AiaDeviceAttr::AddrAplic(0).failure_message(), "Could not set APLIC base address");
    assert_eq!(
        AiaDeviceAttr::AddrImsic { attr: 1, addr: 0x2800_0000 }.failure_message(),
        "Could not set IMSIC addr"
    );
    assert_eq!(AiaDeviceAttr::ConfigHartBits(2).failure_message(), "Could not set hart bits");
    assert_eq!(AiaDeviceAttr::CtrlInit.failure_message(), "Could not initialize AIA");
}

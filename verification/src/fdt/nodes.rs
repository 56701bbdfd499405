//! Device tree nodes that both architectures write.
use vstd::prelude::*;
use vm_fdt::FdtWriter;
use crate::aarch64_consts::{GIC_FDT_IRQ_TYPE_SPI, IRQ_TYPE_EDGE_RISING, PHANDLE_GIC};
use crate::fdt::names::{format_unit_name, lemma_unit_name_ok, unit_name};
use crate::fdt::writer::{
    fdt_contents, fdt_depth, fdt_healthy, fdt_history_ok, fdt_nul_free, fdt_phandles, fdt_size_bound,
    group_fdt_tokens, FdtToken, FDT_MAX_NODE_DEPTH, FDT_SIZE_LIMIT,
};
use crate::riscv64_consts::{IRQ_TYPE_LEVEL_HIGH, PHANDLE_APLIC, PHANDLE_CPU_INTC_BASE};

verus! {

broadcast use group_fdt_tokens;

/// Child nodes can be written: no call has failed, a node is open, and there is
/// room for `levels` more levels of nesting.
pub open spec fn fdt_child_ready(c: Seq<FdtToken>, levels: int) -> bool {
    &&& fdt_healthy(c)
    &&& 0 < fdt_depth(c)
    &&& fdt_depth(c) + levels <= FDT_MAX_NODE_DEPTH
}

/// The `chosen` node, which carries the kernel command line.
pub open spec fn chosen_node_tokens(cmdline: Seq<char>) -> Seq<FdtToken> {
    seq![FdtToken::BeginNode("chosen"@)]
        .push(FdtToken::Str("bootargs"@, cmdline))
        .push(FdtToken::EndNode)
}

/// Writes the `chosen` node.
pub fn create_chosen_node(fdt: &mut FdtWriter, cmdline: &str) -> (r: Result<(), vm_fdt::Error>)
    ensures
        r is Ok ==> fdt_contents(*final(fdt)) == fdt_contents(*old(fdt)) + chosen_node_tokens(cmdline@),
        r is Ok ==> fdt_nul_free(cmdline@),
        fdt_child_ready(fdt_contents(*old(fdt)), 1) && fdt_nul_free(cmdline@) && fdt_size_bound(fdt_contents(*old(fdt)) + chosen_node_tokens(cmdline@)) <= FDT_SIZE_LIMIT ==> r is Ok,
        fdt_history_ok(fdt_contents(*old(fdt))) ==> (r is Ok <==> fdt_history_ok(fdt_contents(*old(fdt)) + chosen_node_tokens(cmdline@))),
{
    let ghost c0 = fdt_contents(*fdt);
    proof {
        reveal_strlit("chosen");
        reveal_strlit("bootargs");
    }
    let chosen_node = fdt.begin_node("chosen")?;
    fdt.property_string("bootargs", cmdline)?;
    fdt.end_node(chosen_node)?;
    assert(fdt_contents(*fdt) =~= c0 + chosen_node_tokens(cmdline@));
    Ok(())
}

/// The `memory` node: guest RAM of `mem_size` bytes at `start`.
pub open spec fn memory_node_tokens(start: u64, mem_size: u64) -> Seq<FdtToken> {
    seq![FdtToken::BeginNode(unit_name("memory"@, start as nat))]
        .push(FdtToken::Str("device_type"@, "memory"@))
        .push(FdtToken::ArrayU64("reg"@, seq![start, mem_size]))
        .push(FdtToken::EndNode)
}

/// Writes the `memory` node for RAM at `start`.
pub fn create_memory_node(fdt: &mut FdtWriter, start: u64, mem_size: u64) -> (r: Result<(), vm_fdt::Error>)
    ensures
        r is Ok ==> fdt_contents(*final(fdt)) == fdt_contents(*old(fdt)) + memory_node_tokens(start, mem_size),
        fdt_history_ok(fdt_contents(*old(fdt))) ==> (r is Ok <==> fdt_history_ok(fdt_contents(*old(fdt)) + memory_node_tokens(start, mem_size))),
        fdt_child_ready(fdt_contents(*old(fdt)), 1) && fdt_size_bound(fdt_contents(*old(fdt)) + memory_node_tokens(start, mem_size)) <= FDT_SIZE_LIMIT ==> r is Ok,
{
    let ghost c0 = fdt_contents(*fdt);
    proof {
        reveal_strlit("memory");
        reveal_strlit("device_type");
        reveal_strlit("reg");
        reveal_strlit("memory");
        lemma_unit_name_ok("memory"@, start as nat);
    }
    let mem_reg_prop = [start, mem_size];
    let memory_str = format_unit_name("memory", start);
    let memory_node = fdt.begin_node(memory_str.as_str())?;
    fdt.property_string("device_type", "memory")?;
    assert(mem_reg_prop@ =~= seq![start, mem_size]);
    fdt.property_array_u64("reg", &mem_reg_prop)?;
    fdt.end_node(memory_node)?;
    assert(fdt_contents(*fdt) =~= c0 + memory_node_tokens(start, mem_size));
    Ok(())
}

/// The architecture whose device tree is written.
#[derive(Clone, Copy, Debug)]
pub enum FdtArch {
    Aarch64,
    Riscv64,
}

/// Phandle of the fixed clock that the serial port and the RTC refer to.
pub const CLK_PHANDLE: u32 = 24;

/// The serial port node: an ns16550a UART at `addr`.
pub open spec fn serial_node_tokens(arch: FdtArch, addr: u64, size: u64) -> Seq<FdtToken> {
    match arch {
        FdtArch::Aarch64 => seq![FdtToken::BeginNode(unit_name("uart"@, addr as nat))]
            .push(FdtToken::Str("compatible"@, "ns16550a"@))
            .push(FdtToken::ArrayU64("reg"@, seq![addr, size]))
            .push(FdtToken::U32("clocks"@, CLK_PHANDLE))
            .push(FdtToken::Str("clock-names"@, "apb_pclk"@))
            .push(FdtToken::ArrayU32("interrupts"@, seq![GIC_FDT_IRQ_TYPE_SPI, 4, IRQ_TYPE_EDGE_RISING]))
            .push(FdtToken::EndNode),
        FdtArch::Riscv64 => seq![FdtToken::BeginNode(unit_name("serial"@, addr as nat))]
            .push(FdtToken::ArrayU32("interrupts"@, seq![4, IRQ_TYPE_LEVEL_HIGH]))
            .push(FdtToken::U32("interrupt-parent"@, PHANDLE_APLIC))
            .push(FdtToken::StrList("clock-frequency"@, seq![""@, "8@"@]))
            .push(FdtToken::ArrayU64("reg"@, seq![addr, size]))
            .push(FdtToken::Str("compatible"@, "ns16550a"@))
            .push(FdtToken::EndNode),
    }
}

/// Writes the serial port node.
#[verifier::spinoff_prover]
#[verifier::rlimit(30)]
pub fn create_serial_node(fdt: &mut FdtWriter, arch: FdtArch, addr: u64, size: u64) -> (r: Result<(), vm_fdt::Error>)
    ensures
        r is Ok ==> fdt_contents(*final(fdt)) == fdt_contents(*old(fdt)) + serial_node_tokens(arch, addr, size),
        fdt_history_ok(fdt_contents(*old(fdt))) ==> (r is Ok <==> fdt_history_ok(fdt_contents(*old(fdt)) + serial_node_tokens(arch, addr, size))),
        fdt_child_ready(fdt_contents(*old(fdt)), 1) && fdt_size_bound(fdt_contents(*old(fdt)) + serial_node_tokens(arch, addr, size)) <= FDT_SIZE_LIMIT ==> r is Ok,
{
    let ghost c0 = fdt_contents(*fdt);
    proof {
        reveal_strlit("uart");
        reveal_strlit("serial");
        reveal_strlit("compatible");
        reveal_strlit("reg");
        reveal_strlit("clocks");
        reveal_strlit("clock-names");
        reveal_strlit("interrupts");
        reveal_strlit("interrupt-parent");
        reveal_strlit("clock-frequency");
        reveal_strlit("");
        reveal_strlit("8@");
        reveal_strlit("ns16550a");
        reveal_strlit("apb_pclk");
        lemma_unit_name_ok("uart"@, addr as nat);
        lemma_unit_name_ok("serial"@, addr as nat);
    }
    let serial_reg_prop = [addr, size];
    assert(serial_reg_prop@ =~= seq![addr, size]);
    match arch {
        FdtArch::Aarch64 => {
            let name = format_unit_name("uart", addr);
            let serial_node = fdt.begin_node(name.as_str())?;
            fdt.property_string("compatible", "ns16550a")?;
            fdt.property_array_u64("reg", &serial_reg_prop)?;
            fdt.property_u32("clocks", CLK_PHANDLE)?;
            fdt.property_string("clock-names", "apb_pclk")?;
            let irq = [GIC_FDT_IRQ_TYPE_SPI, 4, IRQ_TYPE_EDGE_RISING];
            assert(irq@ =~= seq![GIC_FDT_IRQ_TYPE_SPI, 4, IRQ_TYPE_EDGE_RISING]);
            fdt.property_array_u32("interrupts", &irq)?;
            fdt.end_node(serial_node)?;
        },
        FdtArch::Riscv64 => {
            let name = format_unit_name("serial", addr);
            let serial_node = fdt.begin_node(name.as_str())?;
            let irq = [4, IRQ_TYPE_LEVEL_HIGH];
            assert(irq@ =~= seq![4, IRQ_TYPE_LEVEL_HIGH]);
            fdt.property_array_u32("interrupts", &irq)?;
            fdt.property_u32("interrupt-parent", PHANDLE_APLIC)?;
            let strs = vec![String::from_str(""), String::from_str("8@")];
            assert(strs@.map_values(|s: String| s@) =~= seq![""@, "8@"@]);
            fdt.property_string_list("clock-frequency", strs)?;
            fdt.property_array_u64("reg", &serial_reg_prop)?;
            fdt.property_string("compatible", "ns16550a")?;
            fdt.end_node(serial_node)?;
        },
    }
    assert(fdt_contents(*fdt) =~= c0 + serial_node_tokens(arch, addr, size));
    Ok(())
}

/// The fixed 24 MHz clock that the RTC refers to.
pub open spec fn clock_node_tokens() -> Seq<FdtToken> {
    seq![FdtToken::BeginNode("apb-pclk"@)]
        .push(FdtToken::U32("#clock-cells"@, 0))
        .push(FdtToken::Str("compatible"@, "fixed-clock"@))
        .push(FdtToken::U32("clock-frequency"@, 24_000_000))
        .push(FdtToken::Str("clock-output-names"@, "clk24mhz"@))
        .push(FdtToken::Phandle(CLK_PHANDLE))
        .push(FdtToken::EndNode)
}

/// The RTC node at `addr`, after the clock node it needs.
pub open spec fn rtc_node_tokens(arch: FdtArch, addr: u64, size: u64) -> Seq<FdtToken> {
    clock_node_tokens() + rtc_device_tokens(arch, addr, size)
}

/// The RTC device node at `addr`.
pub open spec fn rtc_device_tokens(arch: FdtArch, addr: u64, size: u64) -> Seq<FdtToken> {
    match arch {
        FdtArch::Aarch64 => seq![FdtToken::BeginNode(unit_name("rtc"@, addr as nat))]
            .push(FdtToken::StrList("compatible"@, seq!["arm,pl031"@, "arm,primecell"@]))
            .push(FdtToken::ArrayU64("reg"@, seq![addr, size]))
            .push(FdtToken::ArrayU32("interrupts"@, seq![GIC_FDT_IRQ_TYPE_SPI, 33, IRQ_TYPE_LEVEL_HIGH]))
            .push(FdtToken::U32("clocks"@, CLK_PHANDLE))
            .push(FdtToken::Str("clock-names"@, "apb_pclk"@))
            .push(FdtToken::EndNode),
        FdtArch::Riscv64 => seq![FdtToken::BeginNode(unit_name("rtc"@, addr as nat))]
            .push(FdtToken::Str("compatible"@, "apb_pclk"@))
            .push(FdtToken::ArrayU64("reg"@, seq![addr, size]))
            .push(FdtToken::ArrayU32("interrupts"@, seq![PHANDLE_CPU_INTC_BASE, IRQ_TYPE_LEVEL_HIGH]))
            .push(FdtToken::U32("interrupt-parent"@, PHANDLE_APLIC))
            .push(FdtToken::U32("clocks"@, CLK_PHANDLE))
            .push(FdtToken::EndNode),
    }
}

/// Writes the fixed clock node.
fn create_clock_node(fdt: &mut FdtWriter) -> (r: Result<(), vm_fdt::Error>)
    ensures
        r is Ok ==> fdt_contents(*final(fdt)) == fdt_contents(*old(fdt)) + clock_node_tokens(),
        fdt_history_ok(fdt_contents(*old(fdt))) ==> (r is Ok <==> fdt_history_ok(fdt_contents(*old(fdt)) + clock_node_tokens())),
        fdt_child_ready(fdt_contents(*old(fdt)), 1) && !fdt_phandles(fdt_contents(*old(fdt))).contains(CLK_PHANDLE) && fdt_size_bound(fdt_contents(*old(fdt)) + clock_node_tokens()) <= FDT_SIZE_LIMIT ==> r is Ok,
{
    let ghost c0 = fdt_contents(*fdt);
    proof {
        reveal_strlit("apb-pclk");
        reveal_strlit("#clock-cells");
        reveal_strlit("compatible");
        reveal_strlit("fixed-clock");
        reveal_strlit("clock-frequency");
        reveal_strlit("clock-output-names");
        reveal_strlit("clk24mhz");
    }
    let clock_node = fdt.begin_node("apb-pclk")?;
    fdt.property_u32("#clock-cells", 0)?;
    fdt.property_string("compatible", "fixed-clock")?;
    fdt.property_u32("clock-frequency", 24_000_000)?;
    fdt.property_string("clock-output-names", "clk24mhz")?;
    fdt.property_phandle(CLK_PHANDLE)?;
    fdt.end_node(clock_node)?;
    assert(fdt_contents(*fdt) =~= c0 + clock_node_tokens());
    Ok(())
}

#[verifier::spinoff_prover]
#[verifier::rlimit(40)]
/// Writes the clock node and the RTC node.  The Linux driver of the PL031 only
/// probes an AMBA device with a clock, so a fixed clock with its own phandle is
/// made up for it.
pub fn create_rtc_node(fdt: &mut FdtWriter, arch: FdtArch, rtc_addr: u64, size: u64) -> (r: Result<(), vm_fdt::Error>)
    ensures
        r is Ok ==> fdt_contents(*final(fdt)) == fdt_contents(*old(fdt)) + rtc_node_tokens(arch, rtc_addr, size),
        fdt_history_ok(fdt_contents(*old(fdt))) ==> (r is Ok <==> fdt_history_ok(fdt_contents(*old(fdt)) + rtc_node_tokens(arch, rtc_addr, size))),
        fdt_child_ready(fdt_contents(*old(fdt)), 1) && !fdt_phandles(fdt_contents(*old(fdt))).contains(CLK_PHANDLE) && fdt_size_bound(fdt_contents(*old(fdt)) + rtc_node_tokens(arch, rtc_addr, size)) <= FDT_SIZE_LIMIT ==> r is Ok,
{
    let ghost c0 = fdt_contents(*fdt);
    proof {
        reveal_strlit("compatible");
        reveal_strlit("rtc");
        reveal_strlit("arm,pl031");
        reveal_strlit("arm,primecell");
        reveal_strlit("reg");
        reveal_strlit("interrupts");
        reveal_strlit("clocks");
        reveal_strlit("clock-names");
        reveal_strlit("apb_pclk");
        reveal_strlit("interrupt-parent");
        lemma_unit_name_ok("rtc"@, rtc_addr as nat);
        assert(c0 + rtc_node_tokens(arch, rtc_addr, size) =~= (c0 + clock_node_tokens()) + rtc_device_tokens(arch, rtc_addr, size));
    }
    create_clock_node(fdt)?;
    let ghost c1 = fdt_contents(*fdt);
    let rtc_name = format_unit_name("rtc", rtc_addr);
    let reg = [rtc_addr, size];
    assert(reg@ =~= seq![rtc_addr, size]);
    let rtc_node = fdt.begin_node(rtc_name.as_str())?;
    match arch {
        FdtArch::Aarch64 => {
            let compatible = vec![String::from_str("arm,pl031"), String::from_str("arm,primecell")];
            assert(compatible@.map_values(|s: String| s@) =~= seq!["arm,pl031"@, "arm,primecell"@]);
            fdt.property_string_list("compatible", compatible)?;
            fdt.property_array_u64("reg", &reg)?;
            let irq = [GIC_FDT_IRQ_TYPE_SPI, 33, IRQ_TYPE_LEVEL_HIGH];
            assert(irq@ =~= seq![GIC_FDT_IRQ_TYPE_SPI, 33, IRQ_TYPE_LEVEL_HIGH]);
            fdt.property_array_u32("interrupts", &irq)?;
            fdt.property_u32("clocks", CLK_PHANDLE)?;
            fdt.property_string("clock-names", "apb_pclk")?;
        },
        FdtArch::Riscv64 => {
            fdt.property_string("compatible", "apb_pclk")?;
            fdt.property_array_u64("reg", &reg)?;
            let irq = [PHANDLE_CPU_INTC_BASE, IRQ_TYPE_LEVEL_HIGH];
            assert(irq@ =~= seq![PHANDLE_CPU_INTC_BASE, IRQ_TYPE_LEVEL_HIGH]);
            fdt.property_array_u32("interrupts", &irq)?;
            fdt.property_u32("interrupt-parent", PHANDLE_APLIC)?;
            fdt.property_u32("clocks", CLK_PHANDLE)?;
        },
    }
    fdt.end_node(rtc_node)?;
    assert(fdt_contents(*fdt) =~= c1 + rtc_device_tokens(arch, rtc_addr, size));
    Ok(())
}

/// The node of a virtio-mmio device at `addr`, raising interrupt `irq`.
pub open spec fn virtio_node_tokens(arch: FdtArch, addr: u64, size: u64, irq: u32) -> Seq<FdtToken> {
    let head = seq![FdtToken::BeginNode(unit_name("virtio_mmio"@, addr as nat))]
        .push(FdtToken::Str("compatible"@, "virtio,mmio"@))
        .push(FdtToken::ArrayU64("reg"@, seq![addr, size]));
    match arch {
        FdtArch::Aarch64 => head
            .push(FdtToken::ArrayU32("interrupts"@, seq![GIC_FDT_IRQ_TYPE_SPI, irq, IRQ_TYPE_EDGE_RISING]))
            .push(FdtToken::ArrayU32("interrupt-parent"@, seq![PHANDLE_GIC]))
            .push(FdtToken::EndNode),
        FdtArch::Riscv64 => head
            .push(FdtToken::ArrayU32("interrupts"@, seq![irq, IRQ_TYPE_LEVEL_HIGH]))
            .push(FdtToken::ArrayU32("interrupt-parent"@, seq![PHANDLE_APLIC]))
            .push(FdtToken::EndNode),
    }
}

/// Writes the node of a virtio-mmio device.
pub fn create_virtio_node(fdt: &mut FdtWriter, arch: FdtArch, addr: u64, size: u64, irq: u32) -> (r: Result<(), vm_fdt::Error>)
    ensures
        r is Ok ==> fdt_contents(*final(fdt)) == fdt_contents(*old(fdt)) + virtio_node_tokens(arch, addr, size, irq),
        fdt_history_ok(fdt_contents(*old(fdt))) ==> (r is Ok <==> fdt_history_ok(fdt_contents(*old(fdt)) + virtio_node_tokens(arch, addr, size, irq))),
        fdt_child_ready(fdt_contents(*old(fdt)), 1) && fdt_size_bound(fdt_contents(*old(fdt)) + virtio_node_tokens(arch, addr, size, irq)) <= FDT_SIZE_LIMIT ==> r is Ok,
{
    let ghost c0 = fdt_contents(*fdt);
    proof {
        reveal_strlit("virtio_mmio");
        reveal_strlit("compatible");
        reveal_strlit("virtio,mmio");
        reveal_strlit("reg");
        reveal_strlit("interrupts");
        reveal_strlit("interrupt-parent");
        lemma_unit_name_ok("virtio_mmio"@, addr as nat);
    }
    let name = format_unit_name("virtio_mmio", addr);
    let virtio_mmio = fdt.begin_node(name.as_str())?;
    fdt.property_string("compatible", "virtio,mmio")?;
    let reg = [addr, size];
    assert(reg@ =~= seq![addr, size]);
    fdt.property_array_u64("reg", &reg)?;
    match arch {
        FdtArch::Aarch64 => {
            let irqs = [GIC_FDT_IRQ_TYPE_SPI, irq, IRQ_TYPE_EDGE_RISING];
            assert(irqs@ =~= seq![GIC_FDT_IRQ_TYPE_SPI, irq, IRQ_TYPE_EDGE_RISING]);
            fdt.property_array_u32("interrupts", &irqs)?;
            let parent = [PHANDLE_GIC];
            assert(parent@ =~= seq![PHANDLE_GIC]);
            fdt.property_array_u32("interrupt-parent", &parent)?;
        },
        FdtArch::Riscv64 => {
            let irqs = [irq, IRQ_TYPE_LEVEL_HIGH];
            assert(irqs@ =~= seq![irq, IRQ_TYPE_LEVEL_HIGH]);
            fdt.property_array_u32("interrupts", &irqs)?;
            let parent = [PHANDLE_APLIC];
            assert(parent@ =~= seq![PHANDLE_APLIC]);
            fdt.property_array_u32("interrupt-parent", &parent)?;
        },
    }
    fdt.end_node(virtio_mmio)?;
    assert(fdt_contents(*fdt) =~= c0 + virtio_node_tokens(arch, addr, size, irq));
    Ok(())
}

} // verus!

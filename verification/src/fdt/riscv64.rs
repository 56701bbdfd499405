//! Device tree nodes of the RISC-V virtual machine.
use vstd::prelude::*;
use vm_fdt::FdtWriter;
use crate::fdt::names::{format_unit_name, lemma_unit_name_ok, push_char, unit_name};
use crate::fdt::nodes::fdt_child_ready;
use crate::fdt::writer::{
    fdt_contents, fdt_depth, fdt_healthy, fdt_history_ok, fdt_node_depth, fdt_nul_free, fdt_props_allowed, fdt_phandles, fdt_repeat,
    fdt_size_bound, group_fdt_tokens, lemma_history_prefix, lemma_history_repeat_prefix, lemma_repeat_depth, lemma_repeat_healthy,
    lemma_repeat_size_mono, FdtToken, FDT_SIZE_LIMIT,
};
use crate::riscv64_consts::{
    FDT_APLIC_ADDR_CELLS, FDT_APLIC_INT_CELLS, FDT_IMSIC_INT_CELLS, IRQ_S_EXT, MAX_DEVICES,
    PHANDLE_APLIC, PHANDLE_CPU_INTC_BASE, PHANDLE_IMSIC, RISCV_IMSIC, RISCV_PLIC,
    RISCV_PLIC_SIZE, VIRT_IRQCHIP_NUM_MSIS, VIRT_IRQCHIP_NUM_SOURCES,
};

verus! {

broadcast use group_fdt_tokens;

/// Number of ISA extensions that the device tree may name.
pub const RISCV_ISA_EXT_COUNT: usize = 9;

/// Index of the `zicbom` extension in the table of ISA extensions.
pub const RISCV_ISA_EXT_ZICBOM: usize = 6;

/// Index of the `zicboz` extension in the table of ISA extensions.
pub const RISCV_ISA_EXT_ZICBOZ: usize = 7;

/// The registers of vCPU 0 that the RISC-V device tree describes.
#[derive(Clone, Copy, Debug)]
pub struct RiscvVcpuRegs {
    /// The `isa` configuration register: bit `i` stands for the single-letter
    /// extension `'a' + i`.
    pub isa: u64,
    /// The timer frequency, in Hz.
    pub timebase_frequency: u64,
    /// The `satp_mode` configuration register.
    pub satp_mode: u64,
    /// The register of each extension of the table (`isa_ext_name`), or `None`
    /// where KVM refused to read it.
    pub isa_ext: [Option<u64>; 9],
}

// ----------------------------------------------------------------------------
// The ISA string.

/// The canonical order of the single-letter extensions.
pub open spec fn isa_letter_order() -> Seq<char> {
    "IEMAFDQCLBJTPVNSUHKORWXYZG"@
}

/// The bit of the `isa` register that stands for upper-case letter `c`.
pub open spec fn isa_letter_present(isa: u64, c: char) -> bool {
    isa & (1u64 << ((c as u32) - ('A' as u32)) as u64) != 0
}

/// The lower-case letter of upper-case letter `c`.
pub open spec fn isa_lower(c: char) -> char {
    (('a' as u32) + ((c as u32) - ('A' as u32))) as char
}

/// The letters of `order` whose bit is set in `isa`, in lower case.
pub open spec fn isa_letters(isa: u64, order: Seq<char>) -> Seq<char>
    decreases order.len(),
{
    if order.len() == 0 {
        Seq::empty()
    } else {
        let prev = isa_letters(isa, order.drop_last());
        if isa_letter_present(isa, order.last()) {
            prev.push(isa_lower(order.last()))
        } else {
            prev
        }
    }
}

/// Name of the extension at index `k` of the table, in alphabetical order.
pub open spec fn isa_ext_name_spec(k: int) -> Seq<char> {
    if k == 0 {
        "ssaia"@
    } else if k == 1 {
        "sstc"@
    } else if k == 2 {
        "svinval"@
    } else if k == 3 {
        "svnapot"@
    } else if k == 4 {
        "svpbmt"@
    } else if k == 5 {
        "zbb"@
    } else if k == 6 {
        "zicbom"@
    } else if k == 7 {
        "zicboz"@
    } else {
        "zihintpause"@
    }
}

/// Name of the extension at index `k` of the table.
pub fn isa_ext_name(k: usize) -> (r: &'static str)
    requires
        k < RISCV_ISA_EXT_COUNT,
    ensures
        r@ == isa_ext_name_spec(k as int),
{
    match k {
        0 => "ssaia",
        1 => "sstc",
        2 => "svinval",
        3 => "svnapot",
        4 => "svpbmt",
        5 => "zbb",
        6 => "zicbom",
        7 => "zicboz",
        _ => "zihintpause",
    }
}

/// The extension register reads a non-zero value: the vCPU has the extension.
pub open spec fn isa_ext_enabled(v: Option<u64>) -> bool {
    v matches Some(x) && x != 0
}

/// `_name` for each of the first `k` extensions that the vCPU has.
pub open spec fn isa_ext_suffix(exts: Seq<Option<u64>>, k: nat) -> Seq<char>
    decreases k,
{
    if k == 0 {
        Seq::empty()
    } else {
        let prev = isa_ext_suffix(exts, (k - 1) as nat);
        if isa_ext_enabled(exts[k - 1]) {
            prev + "_"@ + isa_ext_name_spec(k - 1)
        } else {
            prev
        }
    }
}

/// The `riscv,isa` string: `rv64`, the single-letter extensions, then `_name`
/// for each multi-letter extension of the table that the vCPU has.
pub open spec fn riscv_isa_string(regs: RiscvVcpuRegs) -> Seq<char> {
    "rv64"@ + isa_letters(regs.isa, isa_letter_order()) + isa_ext_suffix(
        regs.isa_ext@,
        RISCV_ISA_EXT_COUNT as nat,
    )
}


/// Builds the `riscv,isa` string of a vCPU.
pub fn build_riscv_isa_string(regs: &RiscvVcpuRegs) -> (r: String)
    ensures
        r@ == riscv_isa_string(*regs),
{
    let isa = regs.isa;
    let valid_isa_order = "IEMAFDQCLBJTPVNSUHKORWXYZG";
    proof {
        reveal_strlit("IEMAFDQCLBJTPVNSUHKORWXYZG");
        reveal_strlit("rv64");
        reveal_strlit("_");
    }
    assert(forall|i: int| 0 <= i < 26 ==> 'A' <= #[trigger] valid_isa_order@[i] <= 'Z');
    let mut cpu_isa = String::from_str("rv64");
    let mut i: usize = 0;
    while i < 26
        invariant
            0 <= i <= 26,
            valid_isa_order@ == isa_letter_order(),
            valid_isa_order@.len() == 26,
            forall|j: int| 0 <= j < 26 ==> 'A' <= #[trigger] valid_isa_order@[j] <= 'Z',
            cpu_isa@ == "rv64"@ + isa_letters(isa, valid_isa_order@.take(i as int)),
        decreases 26 - i,
    {
        let c = valid_isa_order.get_char(i);
        let index: u32 = c as u32 - 'A' as u32;
        assert(valid_isa_order@.take(i as int + 1).drop_last() =~= valid_isa_order@.take(i as int));
        if (isa & (1u64 << index as u64)) != 0 {
            let lower = (('a' as u32) + index) as u8 as char;
            assert(lower == isa_lower(c)) by {
                assert('A' <= c <= 'Z');
            }
            push_char(&mut cpu_isa, lower);
        }
        i = i + 1;
    }
    assert(valid_isa_order@.take(26) =~= valid_isa_order@);

    let mut k: usize = 0;
    while k < RISCV_ISA_EXT_COUNT
        invariant
            0 <= k <= RISCV_ISA_EXT_COUNT,
            regs.isa_ext@.len() == RISCV_ISA_EXT_COUNT,
            cpu_isa@ == "rv64"@ + isa_letters(isa, isa_letter_order()) + isa_ext_suffix(regs.isa_ext@, k as nat),
        decreases RISCV_ISA_EXT_COUNT - k,
    {
        match regs.isa_ext[k] {
            Some(isa_ext_out) => {
                if isa_ext_out != 0 {
                    cpu_isa.append("_");
                    cpu_isa.append(isa_ext_name(k));
                }
            },
            None => {},
        }
        k = k + 1;
    }
    cpu_isa
}

// ----------------------------------------------------------------------------
// The cpus node.

/// The `mmu-type` of a `satp_mode` value.
pub open spec fn mmu_type(satp_mode: u64) -> Seq<char> {
    if satp_mode == 10 {
        "riscv,sv57"@
    } else if satp_mode == 9 {
        "riscv,sv48"@
    } else if satp_mode == 8 {
        "riscv,sv39"@
    } else {
        "riscv,none"@
    }
}

/// The `mmu-type` of a `satp_mode` value.
fn mmu_type_str(satp_mode: u64) -> (r: &'static str)
    ensures
        r@ == mmu_type(satp_mode),
{
    match satp_mode {
        10 => "riscv,sv57",
        9 => "riscv,sv48",
        8 => "riscv,sv39",
        _ => "riscv,none",
    }
}

/// Value of the register of extension `k`, zero where it could not be read.
pub open spec fn isa_ext_value(regs: RiscvVcpuRegs, k: int) -> u64 {
    match regs.isa_ext@[k] {
        Some(v) => v,
        None => 0,
    }
}

/// The block-size properties of the cache-block management extensions.  Both
/// are written when `zicbom` is present, and each holds the value that the
/// extension's register reads.
pub open spec fn cbo_block_size_tokens(regs: RiscvVcpuRegs) -> Seq<FdtToken> {
    if isa_ext_value(regs, RISCV_ISA_EXT_ZICBOM as int) != 0 {
        seq![FdtToken::U32("riscv,cbom-block-size"@, isa_ext_value(regs, RISCV_ISA_EXT_ZICBOM as int) as u32)]
            .push(FdtToken::U32("riscv,cboz-block-size"@, isa_ext_value(regs, RISCV_ISA_EXT_ZICBOZ as int) as u32))
    } else {
        Seq::empty()
    }
}

/// The head of the node of vCPU `cpu_id`.
pub open spec fn cpu_node_head_tokens(cpu_id: nat, regs: RiscvVcpuRegs) -> Seq<FdtToken> {
    seq![FdtToken::BeginNode(unit_name("cpu"@, cpu_id))]
        .push(FdtToken::Str("device_type"@, "cpu"@))
        .push(FdtToken::Str("compatible"@, "riscv"@))
        .push(FdtToken::Str("mmu-type"@, mmu_type(regs.satp_mode)))
        .push(FdtToken::Str("riscv,isa"@, riscv_isa_string(regs)))
}

/// The tail of the node of vCPU `cpu_id`: its number, and its local interrupt
/// controller with phandle `1 + cpu_id`.
pub open spec fn cpu_node_tail_tokens(cpu_id: nat) -> Seq<FdtToken> {
    seq![FdtToken::U32("reg"@, cpu_id as u32)]
        .push(FdtToken::Str("status"@, "okay"@))
        .push(FdtToken::BeginNode("interrupt-controller"@))
        .push(FdtToken::U32("#interrupt-cells"@, 1))
        .push(FdtToken::Str("compatible"@, "riscv,cpu-intc"@))
        .push(FdtToken::Null("interrupt-controller"@))
        .push(FdtToken::Phandle((PHANDLE_CPU_INTC_BASE + cpu_id) as u32))
        .push(FdtToken::EndNode)
        .push(FdtToken::EndNode)
}

/// The node of vCPU `cpu_id`.
pub open spec fn cpu_node_tokens(cpu_id: nat, regs: RiscvVcpuRegs) -> Seq<FdtToken> {
    cpu_node_head_tokens(cpu_id, regs) + cbo_block_size_tokens(regs) + cpu_node_tail_tokens(cpu_id)
}

/// `cpu_node_tokens` as a function of the vCPU number.
pub open spec fn cpu_node_fn(regs: RiscvVcpuRegs) -> spec_fn(nat) -> Seq<FdtToken> {
    |k: nat| cpu_node_tokens(k, regs)
}

/// The head of the `cpus` node.
pub open spec fn cpus_head_tokens(regs: RiscvVcpuRegs) -> Seq<FdtToken> {
    seq![FdtToken::BeginNode("cpus"@)]
        .push(FdtToken::U32("#address-cells"@, 1))
        .push(FdtToken::U32("#size-cells"@, 0))
        .push(FdtToken::U32("timebase-frequency"@, regs.timebase_frequency as u32))
}

/// The `cpus` node with one node for each of `num_cpus` vCPUs, all described by
/// the registers of vCPU 0.
pub open spec fn cpus_node_tokens(num_cpus: nat, regs: RiscvVcpuRegs) -> Seq<FdtToken> {
    cpus_head_tokens(regs) + fdt_repeat(num_cpus, cpu_node_fn(regs)) + seq![FdtToken::EndNode]
}

/// The phandles `1..=n` of the local interrupt controllers of `n` vCPUs.
pub open spec fn cpu_intc_phandles(n: nat) -> Set<u32> {
    Set::new(|v: u32| PHANDLE_CPU_INTC_BASE <= v && v < PHANDLE_CPU_INTC_BASE + n)
}

proof fn lemma_cpu_node_facts(cpu_id: nat, regs: RiscvVcpuRegs)
    requires
        cpu_id < u32::MAX,
    ensures
        fdt_depth(cpu_node_tokens(cpu_id, regs)) == 0,
        fdt_healthy(cpu_node_tokens(cpu_id, regs)),
        fdt_phandles(cpu_node_tokens(cpu_id, regs)) == set![(PHANDLE_CPU_INTC_BASE + cpu_id) as u32],
{
    assert(fdt_phandles(cbo_block_size_tokens(regs)) =~= Set::<u32>::empty());
    assert(fdt_phandles(cpu_node_head_tokens(cpu_id, regs)) =~= Set::<u32>::empty());
    assert(fdt_phandles(cpu_node_tail_tokens(cpu_id)) =~= set![(PHANDLE_CPU_INTC_BASE + cpu_id) as u32]);
    assert(fdt_phandles(cpu_node_tokens(cpu_id, regs)) =~= set![(PHANDLE_CPU_INTC_BASE + cpu_id) as u32]);
}

pub proof fn lemma_cpu_nodes_facts(n: nat, regs: RiscvVcpuRegs)
    requires
        n <= u32::MAX,
    ensures
        fdt_depth(fdt_repeat(n, cpu_node_fn(regs))) == 0,
        fdt_healthy(fdt_repeat(n, cpu_node_fn(regs))),
        fdt_phandles(fdt_repeat(n, cpu_node_fn(regs))) == cpu_intc_phandles(n),
        fdt_repeat(n + 1, cpu_node_fn(regs)) == fdt_repeat(n, cpu_node_fn(regs)) + cpu_node_tokens(n, regs),
    decreases n,
{
    assert forall|k: nat| k < n implies fdt_depth(#[trigger] cpu_node_fn(regs)(k)) == 0 && fdt_healthy(cpu_node_fn(regs)(k)) by {
        lemma_cpu_node_facts(k, regs);
    }
    lemma_repeat_depth(n, cpu_node_fn(regs));
    lemma_repeat_healthy(n, cpu_node_fn(regs));
    assert(cpu_node_fn(regs)(n) == cpu_node_tokens(n, regs));
    if n == 0 {
        assert(fdt_phandles(fdt_repeat(n, cpu_node_fn(regs))) =~= cpu_intc_phandles(n));
    } else {
        lemma_cpu_nodes_facts((n - 1) as nat, regs);
        lemma_cpu_node_facts((n - 1) as nat, regs);
        assert(fdt_phandles(fdt_repeat(n, cpu_node_fn(regs))) =~= cpu_intc_phandles(n));
    }
}

/// Writes the head of the node of vCPU `cpu_id`.
fn create_cpu_node_head(fdt: &mut FdtWriter, cpu_id: u32, regs: &RiscvVcpuRegs, cpu_isa: &str) -> (r: Result<vm_fdt::FdtWriterNode, vm_fdt::Error>)
    requires
        cpu_isa@ == riscv_isa_string(*regs),
    ensures
        r matches Ok(node) ==> fdt_contents(*final(fdt)) == fdt_contents(*old(fdt)) + cpu_node_head_tokens(cpu_id as nat, *regs)
            && fdt_node_depth(node) == fdt_depth(fdt_contents(*old(fdt))) + 1,
        fdt_history_ok(fdt_contents(*old(fdt))) ==> (r is Ok <==> fdt_history_ok(fdt_contents(*old(fdt)) + cpu_node_head_tokens(cpu_id as nat, *regs))),
        fdt_child_ready(fdt_contents(*old(fdt)), 2) && fdt_size_bound(fdt_contents(*old(fdt)) + cpu_node_head_tokens(cpu_id as nat, *regs)) <= FDT_SIZE_LIMIT ==> r is Ok,
{
    let ghost c0 = fdt_contents(*fdt);
    proof {
        reveal_strlit("cpu");
        reveal_strlit("device_type");
        reveal_strlit("compatible");
        reveal_strlit("riscv");
        reveal_strlit("mmu-type");
        reveal_strlit("riscv,sv57");
        reveal_strlit("riscv,sv48");
        reveal_strlit("riscv,sv39");
        reveal_strlit("riscv,none");
        reveal_strlit("riscv,isa");
        lemma_unit_name_ok("cpu"@, cpu_id as nat);
        lemma_isa_string_nul_free(*regs);
    }
    let cpu_name = format_unit_name("cpu", cpu_id as u64);
    let cpu_node = fdt.begin_node(cpu_name.as_str())?;
    fdt.property_string("device_type", "cpu")?;
    fdt.property_string("compatible", "riscv")?;
    fdt.property_string("mmu-type", mmu_type_str(regs.satp_mode))?;
    fdt.property_string("riscv,isa", cpu_isa)?;
    assert(fdt_contents(*fdt) =~= c0 + cpu_node_head_tokens(cpu_id as nat, *regs));
    Ok(cpu_node)
}

/// Writes the block sizes of the cache-block management extensions.
fn create_cbo_block_sizes(fdt: &mut FdtWriter, regs: &RiscvVcpuRegs) -> (r: Result<(), vm_fdt::Error>)
    ensures
        r is Ok ==> fdt_contents(*final(fdt)) == fdt_contents(*old(fdt)) + cbo_block_size_tokens(*regs),
        fdt_history_ok(fdt_contents(*old(fdt))) ==> (r is Ok <==> fdt_history_ok(fdt_contents(*old(fdt)) + cbo_block_size_tokens(*regs))),
        fdt_healthy(fdt_contents(*old(fdt))) && fdt_props_allowed(fdt_contents(*old(fdt))) && fdt_size_bound(fdt_contents(*old(fdt)) + cbo_block_size_tokens(*regs)) <= FDT_SIZE_LIMIT ==> r is Ok,
{
    let ghost c0 = fdt_contents(*fdt);
    proof {
        reveal_strlit("riscv,cbom-block-size");
        reveal_strlit("riscv,cboz-block-size");
    }
    let cbom_blksz: u64 = match regs.isa_ext[RISCV_ISA_EXT_ZICBOM] {
        Some(v) => v,
        None => 0,
    };
    let cboz_blksz: u64 = match regs.isa_ext[RISCV_ISA_EXT_ZICBOZ] {
        Some(v) => v,
        None => 0,
    };
    if cbom_blksz != 0 {
        fdt.property_u32("riscv,cbom-block-size", cbom_blksz as u32)?;
    }
    if cbom_blksz != 0 {
        fdt.property_u32("riscv,cboz-block-size", cboz_blksz as u32)?;
    }
    assert(fdt_contents(*fdt) =~= c0 + cbo_block_size_tokens(*regs));
    Ok(())
}

/// Writes the tail of the node of vCPU `cpu_id` and closes it.
fn create_cpu_node_tail(fdt: &mut FdtWriter, cpu_id: u32, cpu_node: vm_fdt::FdtWriterNode) -> (r: Result<(), vm_fdt::Error>)
    requires
        cpu_id < u32::MAX,
    ensures
        r is Ok ==> fdt_contents(*final(fdt)) == fdt_contents(*old(fdt)) + cpu_node_tail_tokens(cpu_id as nat),
        fdt_history_ok(fdt_contents(*old(fdt))) && fdt_node_depth(cpu_node) == fdt_depth(fdt_contents(*old(fdt)))
            ==> (r is Ok <==> fdt_history_ok(fdt_contents(*old(fdt)) + cpu_node_tail_tokens(cpu_id as nat))),
        fdt_healthy(fdt_contents(*old(fdt))) && fdt_props_allowed(fdt_contents(*old(fdt))) && fdt_depth(fdt_contents(*old(fdt))) < 64
            && fdt_node_depth(cpu_node) == fdt_depth(fdt_contents(*old(fdt)))
            && !fdt_phandles(fdt_contents(*old(fdt))).contains((PHANDLE_CPU_INTC_BASE + cpu_id) as u32)
            && fdt_size_bound(fdt_contents(*old(fdt)) + cpu_node_tail_tokens(cpu_id as nat)) <= FDT_SIZE_LIMIT ==> r is Ok,
{
    let ghost c0 = fdt_contents(*fdt);
    proof {
        reveal_strlit("reg");
        reveal_strlit("status");
        reveal_strlit("okay");
        reveal_strlit("interrupt-controller");
        reveal_strlit("#interrupt-cells");
        reveal_strlit("compatible");
        reveal_strlit("riscv,cpu-intc");
    }
    fdt.property_u32("reg", cpu_id)?;
    fdt.property_string("status", "okay")?;
    let intc_node = fdt.begin_node("interrupt-controller")?;
    fdt.property_u32("#interrupt-cells", 1)?;
    fdt.property_string("compatible", "riscv,cpu-intc")?;
    fdt.property_null("interrupt-controller")?;
    fdt.property_phandle(PHANDLE_CPU_INTC_BASE + cpu_id)?;
    fdt.end_node(intc_node)?;
    fdt.end_node(cpu_node)?;
    assert(fdt_contents(*fdt) =~= c0 + cpu_node_tail_tokens(cpu_id as nat));
    Ok(())
}

/// Writes the node of vCPU `cpu_id`.
fn create_cpu_node(fdt: &mut FdtWriter, cpu_id: u32, regs: &RiscvVcpuRegs, cpu_isa: &str) -> (r: Result<(), vm_fdt::Error>)
    requires
        cpu_id < u32::MAX,
        cpu_isa@ == riscv_isa_string(*regs),
    ensures
        r is Ok ==> fdt_contents(*final(fdt)) == fdt_contents(*old(fdt)) + cpu_node_tokens(cpu_id as nat, *regs),
        fdt_history_ok(fdt_contents(*old(fdt))) ==> (r is Ok <==> fdt_history_ok(fdt_contents(*old(fdt)) + cpu_node_tokens(cpu_id as nat, *regs))),
        fdt_child_ready(fdt_contents(*old(fdt)), 2) && !fdt_phandles(fdt_contents(*old(fdt))).contains((PHANDLE_CPU_INTC_BASE + cpu_id) as u32) && fdt_size_bound(fdt_contents(*old(fdt)) + cpu_node_tokens(cpu_id as nat, *regs)) <= FDT_SIZE_LIMIT ==> r is Ok,
{
    let ghost c0 = fdt_contents(*fdt);
    proof {
        assert(fdt_phandles(cpu_node_head_tokens(cpu_id as nat, *regs)) =~= Set::<u32>::empty());
        assert(fdt_phandles(cbo_block_size_tokens(*regs)) =~= Set::<u32>::empty());
    }
    proof {
        let head = cpu_node_head_tokens(cpu_id as nat, *regs);
        let cbo = cbo_block_size_tokens(*regs);
        let tail = cpu_node_tail_tokens(cpu_id as nat);
        lemma_history_prefix(c0 + head, cbo + tail);
        assert(c0 + cpu_node_tokens(cpu_id as nat, *regs) =~= (c0 + head) + (cbo + tail));
        lemma_history_prefix(c0 + head + cbo, tail);
        assert(c0 + cpu_node_tokens(cpu_id as nat, *regs) =~= (c0 + head + cbo) + tail);
    }
    let cpu_node = create_cpu_node_head(fdt, cpu_id, regs, cpu_isa)?;
    create_cbo_block_sizes(fdt, regs)?;
    create_cpu_node_tail(fdt, cpu_id, cpu_node)?;
    assert(fdt_contents(*fdt) =~= c0 + cpu_node_tokens(cpu_id as nat, *regs));
    Ok(())
}

/// Writing the node of vCPU `i` inside the `cpus` node keeps the writer on
/// track: it is owed success when the whole `cpus` node is.
proof fn lemma_cpu_step(c0: Seq<FdtToken>, regs: RiscvVcpuRegs, n: nat, i: nat)
    requires
        i < n <= u32::MAX,
    ensures
        c0 + cpus_head_tokens(regs) + fdt_repeat(i, cpu_node_fn(regs)) + cpu_node_tokens(i, regs)
            == c0 + cpus_head_tokens(regs) + fdt_repeat(i + 1, cpu_node_fn(regs)),
        fdt_depth(c0 + cpus_head_tokens(regs) + fdt_repeat(i, cpu_node_fn(regs))) == fdt_depth(c0) + 1,
        (fdt_child_ready(c0, 3) && fdt_phandles(c0).disjoint(cpu_intc_phandles(n)) && fdt_size_bound(c0 + cpus_node_tokens(n, regs)) <= FDT_SIZE_LIMIT) ==> ({
            let cur = c0 + cpus_head_tokens(regs) + fdt_repeat(i, cpu_node_fn(regs));
            &&& fdt_child_ready(cur, 2)
            &&& !fdt_phandles(cur).contains((PHANDLE_CPU_INTC_BASE + i) as u32)
            &&& fdt_size_bound(cur + cpu_node_tokens(i, regs)) <= FDT_SIZE_LIMIT
        }),
{
    lemma_cpu_nodes_facts(i, regs);
    lemma_repeat_size_mono(i + 1, n, cpu_node_fn(regs));
    assert(c0 + cpus_node_tokens(n, regs) =~= (c0 + cpus_head_tokens(regs)) + fdt_repeat(n, cpu_node_fn(regs)) + seq![FdtToken::EndNode]);
    assert(fdt_phandles(cpus_head_tokens(regs)) =~= Set::<u32>::empty());
    let v = (PHANDLE_CPU_INTC_BASE + i) as u32;
    assert(cpu_intc_phandles(n).contains(v));
    assert(!cpu_intc_phandles(i).contains(v));
    assert(c0 + cpus_head_tokens(regs) + fdt_repeat(i, cpu_node_fn(regs)) + cpu_node_tokens(i, regs)
        =~= c0 + cpus_head_tokens(regs) + fdt_repeat(i + 1, cpu_node_fn(regs)));
}

/// Writes the `cpus` node.  Every vCPU is described by the registers of vCPU 0.
#[verifier::spinoff_prover]
#[verifier::rlimit(40)]
pub fn create_cpu_nodes(fdt: &mut FdtWriter, num_cpus: u32, regs: &RiscvVcpuRegs) -> (r: Result<(), vm_fdt::Error>)
    ensures
        r is Ok ==> fdt_contents(*final(fdt)) == fdt_contents(*old(fdt)) + cpus_node_tokens(num_cpus as nat, *regs),
        fdt_history_ok(fdt_contents(*old(fdt))) ==> (r is Ok <==> fdt_history_ok(fdt_contents(*old(fdt)) + cpus_node_tokens(num_cpus as nat, *regs))),
        fdt_child_ready(fdt_contents(*old(fdt)), 3) && fdt_phandles(fdt_contents(*old(fdt))).disjoint(cpu_intc_phandles(num_cpus as nat)) && fdt_size_bound(fdt_contents(*old(fdt)) + cpus_node_tokens(num_cpus as nat, *regs)) <= FDT_SIZE_LIMIT ==> r is Ok,
{
    let ghost c0 = fdt_contents(*fdt);
    let ghost owed = fdt_child_ready(c0, 3) && fdt_phandles(c0).disjoint(cpu_intc_phandles(num_cpus as nat)) && fdt_size_bound(c0 + cpus_node_tokens(num_cpus as nat, *regs)) <= FDT_SIZE_LIMIT;
    proof {
        reveal_strlit("cpus");
        reveal_strlit("#address-cells");
        reveal_strlit("#size-cells");
        reveal_strlit("timebase-frequency");
    }
    let cpu_isa = build_riscv_isa_string(regs);
    proof {
        let head = cpus_head_tokens(*regs);
        let body = fdt_repeat(num_cpus as nat, cpu_node_fn(*regs));
        lemma_history_prefix(c0 + head, body + seq![FdtToken::EndNode]);
        assert(c0 + cpus_node_tokens(num_cpus as nat, *regs) =~= (c0 + head) + (body + seq![FdtToken::EndNode]));
        lemma_history_prefix(c0 + head + body, seq![FdtToken::EndNode]);
        assert(c0 + cpus_node_tokens(num_cpus as nat, *regs) =~= (c0 + head + body) + seq![FdtToken::EndNode]);
    }
    let cpus_node = fdt.begin_node("cpus")?;
    fdt.property_u32("#address-cells", 0x1)?;
    fdt.property_u32("#size-cells", 0x0)?;
    let frequency = regs.timebase_frequency;
    fdt.property_u32("timebase-frequency", frequency as u32)?;
    assert(fdt_contents(*fdt) =~= c0 + cpus_head_tokens(*regs) + fdt_repeat(0, cpu_node_fn(*regs)));

    for cpu_id in 0..num_cpus
        invariant
            c0 == fdt_contents(*old(fdt)),
            cpu_isa@ == riscv_isa_string(*regs),
            owed == (fdt_child_ready(c0, 3) && fdt_phandles(c0).disjoint(cpu_intc_phandles(num_cpus as nat)) && fdt_size_bound(c0 + cpus_node_tokens(num_cpus as nat, *regs)) <= FDT_SIZE_LIMIT),
            fdt_contents(*fdt) == c0 + cpus_head_tokens(*regs) + fdt_repeat(cpu_id as nat, cpu_node_fn(*regs)),
            fdt_node_depth(cpus_node) == fdt_depth(c0) + 1,
            fdt_history_ok(c0) ==> fdt_history_ok(fdt_contents(*fdt)),
            fdt_history_ok(c0 + cpus_node_tokens(num_cpus as nat, *regs))
                ==> fdt_history_ok(c0 + cpus_head_tokens(*regs) + fdt_repeat(num_cpus as nat, cpu_node_fn(*regs))),
    {
        proof {
            lemma_cpu_step(c0, *regs, num_cpus as nat, cpu_id as nat);
            lemma_history_repeat_prefix(c0 + cpus_head_tokens(*regs), cpu_id as nat + 1, num_cpus as nat, cpu_node_fn(*regs));
        }
        create_cpu_node(fdt, cpu_id, regs, cpu_isa.as_str())?;
    }
    proof {
        lemma_cpu_nodes_facts(num_cpus as nat, *regs);
    }
    fdt.end_node(cpus_node)?;
    assert(fdt_contents(*fdt) =~= c0 + cpus_node_tokens(num_cpus as nat, *regs));
    Ok(())
}

// ----------------------------------------------------------------------------
// Interrupt controllers.

/// The APLIC node: wired interrupts, forwarded as MSIs to the IMSIC.
pub open spec fn aplic_node_tokens() -> Seq<FdtToken> {
    seq![FdtToken::BeginNode(unit_name("aplic"@, RISCV_PLIC as nat))]
        .push(FdtToken::Phandle(PHANDLE_APLIC))
        .push(FdtToken::U32("riscv,num-sources"@, VIRT_IRQCHIP_NUM_SOURCES))
        .push(FdtToken::U32("msi-parent"@, PHANDLE_IMSIC))
        .push(FdtToken::U32("riscv,ndev"@, (MAX_DEVICES - 1) as u32))
        .push(FdtToken::ArrayU64("reg"@, seq![RISCV_PLIC, RISCV_PLIC_SIZE]))
        .push(FdtToken::Null("interrupt-controller"@))
        .push(FdtToken::Str("compatible"@, "riscv,aplic"@))
        .push(FdtToken::U32("#address-cells"@, FDT_APLIC_ADDR_CELLS))
        .push(FdtToken::U32("#interrupt-cells"@, FDT_APLIC_INT_CELLS))
        .push(FdtToken::EndNode)
}

/// Writes the APLIC node.
#[verifier::spinoff_prover]
#[verifier::rlimit(50)]
pub fn create_aplic_node(fdt: &mut FdtWriter) -> (r: Result<(), vm_fdt::Error>)
    ensures
        r is Ok ==> fdt_contents(*final(fdt)) == fdt_contents(*old(fdt)) + aplic_node_tokens(),
        fdt_history_ok(fdt_contents(*old(fdt))) ==> (r is Ok <==> fdt_history_ok(fdt_contents(*old(fdt)) + aplic_node_tokens())),
        fdt_child_ready(fdt_contents(*old(fdt)), 1) && !fdt_phandles(fdt_contents(*old(fdt))).contains(PHANDLE_APLIC) && fdt_size_bound(fdt_contents(*old(fdt)) + aplic_node_tokens()) <= FDT_SIZE_LIMIT ==> r is Ok,
{
    let ghost c0 = fdt_contents(*fdt);
    proof {
        reveal_strlit("aplic");
        reveal_strlit("riscv,num-sources");
        reveal_strlit("msi-parent");
        reveal_strlit("riscv,ndev");
        reveal_strlit("reg");
        reveal_strlit("interrupt-controller");
        reveal_strlit("compatible");
        reveal_strlit("riscv,aplic");
        reveal_strlit("#address-cells");
        reveal_strlit("#interrupt-cells");
        lemma_unit_name_ok("aplic"@, RISCV_PLIC as nat);
    }
    let name = format_unit_name("aplic", RISCV_PLIC);
    let intc_node = fdt.begin_node(name.as_str())?;
    fdt.property_phandle(PHANDLE_APLIC)?;
    fdt.property_u32("riscv,num-sources", VIRT_IRQCHIP_NUM_SOURCES)?;
    fdt.property_u32("msi-parent", PHANDLE_IMSIC)?;
    fdt.property_u32("riscv,ndev", MAX_DEVICES - 1)?;
    let plic_reg_prop = [RISCV_PLIC, RISCV_PLIC_SIZE];
    assert(plic_reg_prop@ =~= seq![RISCV_PLIC, RISCV_PLIC_SIZE]);
    fdt.property_array_u64("reg", &plic_reg_prop)?;
    fdt.property_null("interrupt-controller")?;
    fdt.property_string("compatible", "riscv,aplic")?;
    fdt.property_u32("#address-cells", FDT_APLIC_ADDR_CELLS)?;
    fdt.property_u32("#interrupt-cells", FDT_APLIC_INT_CELLS)?;
    fdt.end_node(intc_node)?;
    assert(fdt_contents(*fdt) =~= c0 + aplic_node_tokens());
    Ok(())
}

/// The `interrupts-extended` cells of the IMSIC: for each vCPU, the phandle of
/// its local interrupt controller and the supervisor external interrupt.
pub open spec fn imsic_cells(num_cpus: nat) -> Seq<u32> {
    Seq::new(
        2 * num_cpus,
        |k: int|
            if k % 2 == 0 {
                (PHANDLE_CPU_INTC_BASE + k / 2) as u32
            } else {
                IRQ_S_EXT
            },
    )
}

/// The IMSIC node: the MSI controller of every vCPU.
pub open spec fn imsic_node_tokens(num_cpus: nat) -> Seq<FdtToken> {
    seq![FdtToken::BeginNode(unit_name("imsic"@, RISCV_IMSIC as nat))]
        .push(FdtToken::ArrayU64("reg"@, seq![RISCV_IMSIC, 0x8000]))
        .push(FdtToken::ArrayU32("interrupts-extended"@, imsic_cells(num_cpus)))
        .push(FdtToken::U32("#interrupt-cells"@, FDT_IMSIC_INT_CELLS))
        .push(FdtToken::Null("msi-controller"@))
        .push(FdtToken::Null("interrupt-controller"@))
        .push(FdtToken::Str("compatible"@, "riscv,imsics"@))
        .push(FdtToken::Phandle(PHANDLE_IMSIC))
        .push(FdtToken::U32("riscv,num-ids"@, VIRT_IRQCHIP_NUM_MSIS))
        .push(FdtToken::EndNode)
}

/// The `interrupts-extended` cells of the IMSIC.
pub fn build_imsic_cells(num_vcpus: u32) -> (r: Vec<u32>)
    ensures
        r@ == imsic_cells(num_vcpus as nat),
{
    let mut imsic_cells_vec: Vec<u32> = Vec::new();
    for cpu in 0..num_vcpus
        invariant
            imsic_cells_vec@ =~= imsic_cells(cpu as nat),
    {
        imsic_cells_vec.push(PHANDLE_CPU_INTC_BASE + cpu);
        imsic_cells_vec.push(IRQ_S_EXT);
        assert(imsic_cells_vec@ =~= imsic_cells(cpu as nat + 1)) by {
            let s = imsic_cells_vec@;
            let t = imsic_cells(cpu as nat + 1);
            assert forall|k: int| 0 <= k < t.len() implies s[k] == t[k] by {
                if k < 2 * cpu {
                    assert(s[k] == imsic_cells(cpu as nat)[k]);
                }
            }
        }
    }
    imsic_cells_vec
}

/// Writes the IMSIC node.
#[verifier::spinoff_prover]
#[verifier::rlimit(40)]
pub fn create_imsic_node(fdt: &mut FdtWriter, num_vcpus: u32) -> (r: Result<(), vm_fdt::Error>)
    ensures
        r is Ok ==> fdt_contents(*final(fdt)) == fdt_contents(*old(fdt)) + imsic_node_tokens(num_vcpus as nat),
        fdt_history_ok(fdt_contents(*old(fdt))) ==> (r is Ok <==> fdt_history_ok(fdt_contents(*old(fdt)) + imsic_node_tokens(num_vcpus as nat))),
        fdt_phandles(fdt_contents(*old(fdt))).contains(PHANDLE_IMSIC) ==> r is Err,
        fdt_child_ready(fdt_contents(*old(fdt)), 1) && !fdt_phandles(fdt_contents(*old(fdt))).contains(PHANDLE_IMSIC) && fdt_size_bound(fdt_contents(*old(fdt)) + imsic_node_tokens(num_vcpus as nat)) <= FDT_SIZE_LIMIT ==> r is Ok,
{
    let ghost c0 = fdt_contents(*fdt);
    proof {
        reveal_strlit("imsic");
        reveal_strlit("reg");
        reveal_strlit("interrupts-extended");
        reveal_strlit("#interrupt-cells");
        reveal_strlit("msi-controller");
        reveal_strlit("interrupt-controller");
        reveal_strlit("compatible");
        reveal_strlit("riscv,imsics");
        reveal_strlit("riscv,num-ids");
        lemma_unit_name_ok("imsic"@, RISCV_IMSIC as nat);
    }
    let imsic_cells_vec = build_imsic_cells(num_vcpus);
    let imsic_regs = [RISCV_IMSIC, 0x8000];
    assert(imsic_regs@ =~= seq![RISCV_IMSIC, 0x8000u64]);

    let name = format_unit_name("imsic", RISCV_IMSIC);
    let intc_node = fdt.begin_node(name.as_str())?;
    fdt.property_array_u64("reg", &imsic_regs)?;
    fdt.property_array_u32("interrupts-extended", imsic_cells_vec.as_slice())?;
    fdt.property_u32("#interrupt-cells", FDT_IMSIC_INT_CELLS)?;
    fdt.property_null("msi-controller")?;
    fdt.property_null("interrupt-controller")?;
    fdt.property_string("compatible", "riscv,imsics")?;
    fdt.property_phandle(PHANDLE_IMSIC)?;
    fdt.property_u32("riscv,num-ids", VIRT_IRQCHIP_NUM_MSIS)?;
    fdt.end_node(intc_node)?;
    assert(fdt_contents(*fdt) =~= c0 + imsic_node_tokens(num_vcpus as nat));
    Ok(())
}

proof fn lemma_isa_letters_lower(isa: u64, order: Seq<char>)
    requires
        forall|i: int| 0 <= i < order.len() ==> 'A' <= #[trigger] order[i] <= 'Z',
    ensures
        forall|i: int| 0 <= i < isa_letters(isa, order).len() ==> 'a' <= #[trigger] isa_letters(isa, order)[i] <= 'z',
    decreases order.len(),
{
    if order.len() > 0 {
        let prefix = order.drop_last();
        assert forall|i: int| 0 <= i < prefix.len() implies 'A' <= #[trigger] prefix[i] <= 'Z' by {
            assert(prefix[i] == order[i]);
        }
        lemma_isa_letters_lower(isa, prefix);
        let c = order.last();
        assert('A' <= c <= 'Z');
        let l = isa_lower(c);
        assert('a' <= l <= 'z');
        let prev = isa_letters(isa, prefix);
        let all = isa_letters(isa, order);
        assert forall|i: int| 0 <= i < all.len() implies 'a' <= #[trigger] all[i] <= 'z' by {
            if i < prev.len() {
                assert(all[i] == prev[i]);
            }
        }
    }
}

proof fn lemma_isa_ext_suffix_nul_free(exts: Seq<Option<u64>>, k: nat)
    ensures
        fdt_nul_free(isa_ext_suffix(exts, k)),
    decreases k,
{
    if k > 0 {
        lemma_isa_ext_suffix_nul_free(exts, (k - 1) as nat);
        reveal_strlit("_");
        reveal_strlit("ssaia");
        reveal_strlit("sstc");
        reveal_strlit("svinval");
        reveal_strlit("svnapot");
        reveal_strlit("svpbmt");
        reveal_strlit("zbb");
        reveal_strlit("zicbom");
        reveal_strlit("zicboz");
        reveal_strlit("zihintpause");
        let name = isa_ext_name_spec(k - 1);
        assert(fdt_nul_free(name));
    }
}

/// The ISA string holds no NUL.
proof fn lemma_isa_string_nul_free(regs: RiscvVcpuRegs)
    ensures
        fdt_nul_free(riscv_isa_string(regs)),
{
    reveal_strlit("IEMAFDQCLBJTPVNSUHKORWXYZG");
    reveal_strlit("rv64");
    lemma_isa_letters_lower(regs.isa, isa_letter_order());
    lemma_isa_ext_suffix_nul_free(regs.isa_ext@, RISCV_ISA_EXT_COUNT as nat);
    assert(fdt_nul_free("rv64"@));
}

} // verus!

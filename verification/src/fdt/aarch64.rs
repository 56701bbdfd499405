//! Device tree nodes of the ARM64 virtual machine.
use vstd::prelude::*;
use vm_fdt::FdtWriter;
use crate::aarch64_consts::{
    AARCH64_GIC_CPUI_BASE, AARCH64_GIC_CPUI_SIZE, AARCH64_GIC_DIST_BASE, AARCH64_GIC_DIST_SIZE,
    AARCH64_GIC_REDIST_SIZE, AARCH64_PMU_IRQ, GIC_FDT_IRQ_NUM_CELLS, GIC_FDT_IRQ_PPI_CPU_MASK,
    GIC_FDT_IRQ_PPI_CPU_SHIFT, GIC_FDT_IRQ_TYPE_PPI, IRQ_TYPE_LEVEL_HIGH, IRQ_TYPE_LEVEL_LOW,
    PHANDLE_GIC,
};
use crate::fdt::names::{format_unit_name, lemma_unit_name_ok, unit_name};
use crate::fdt::nodes::fdt_child_ready;
use crate::fdt::writer::{
    fdt_contents, fdt_depth, fdt_healthy, fdt_history_ok, fdt_node_depth, fdt_phandles, fdt_repeat, fdt_size_bound,
    group_fdt_tokens, lemma_history_prefix, lemma_history_repeat_prefix, lemma_repeat_depth, lemma_repeat_healthy, lemma_repeat_size_mono, FdtToken,
    FDT_SIZE_LIMIT,
};

verus! {

broadcast use group_fdt_tokens;

/// The node of vCPU `cpu_id`.
pub open spec fn cpu_node_tokens(cpu_id: nat) -> Seq<FdtToken> {
    seq![FdtToken::BeginNode(unit_name("cpu"@, cpu_id))]
        .push(FdtToken::Str("device_type"@, "cpu"@))
        .push(FdtToken::U32("reg"@, cpu_id as u32))
        .push(FdtToken::Str("compatible"@, "arm,arm-v8"@))
        .push(FdtToken::Str("enable-method"@, "psci"@))
        .push(FdtToken::EndNode)
}

/// `cpu_node_tokens` as a function.
pub open spec fn cpu_node_fn() -> spec_fn(nat) -> Seq<FdtToken> {
    |k: nat| cpu_node_tokens(k)
}

/// The head of the `cpus` node.
pub open spec fn cpus_head_tokens() -> Seq<FdtToken> {
    seq![FdtToken::BeginNode("cpus"@)]
        .push(FdtToken::U32("#address-cells"@, 1))
        .push(FdtToken::U32("#size-cells"@, 0))
}

/// The `cpus` node with one node for each of `num_cpus` vCPUs.
pub open spec fn cpus_node_tokens(num_cpus: nat) -> Seq<FdtToken> {
    cpus_head_tokens() + fdt_repeat(num_cpus, cpu_node_fn()) + seq![FdtToken::EndNode]
}

pub proof fn lemma_cpu_nodes_facts(n: nat)
    ensures
        fdt_depth(fdt_repeat(n, cpu_node_fn())) == 0,
        fdt_healthy(fdt_repeat(n, cpu_node_fn())),
        fdt_phandles(fdt_repeat(n, cpu_node_fn())) == Set::<u32>::empty(),
        fdt_repeat(n + 1, cpu_node_fn()) == fdt_repeat(n, cpu_node_fn()) + cpu_node_tokens(n),
    decreases n,
{
    if n > 0 {
        lemma_cpu_nodes_facts((n - 1) as nat);
        assert(cpu_node_fn()((n - 1) as nat) == cpu_node_tokens((n - 1) as nat));
        assert(fdt_phandles(cpu_node_tokens((n - 1) as nat)) =~= Set::<u32>::empty());
        assert(fdt_phandles(fdt_repeat(n, cpu_node_fn())) =~= Set::<u32>::empty());
    }
    assert forall|k: nat| k < n implies fdt_depth(#[trigger] cpu_node_fn()(k)) == 0 && fdt_healthy(cpu_node_fn()(k)) by {
        assert(cpu_node_fn()(k) == cpu_node_tokens(k));
    }
    lemma_repeat_depth(n, cpu_node_fn());
    lemma_repeat_healthy(n, cpu_node_fn());
    assert(cpu_node_fn()(n) == cpu_node_tokens(n));
}

/// Writes the node of one vCPU.
fn create_cpu_node(fdt: &mut FdtWriter, cpu_id: u32) -> (r: Result<(), vm_fdt::Error>)
    ensures
        r is Ok ==> fdt_contents(*final(fdt)) == fdt_contents(*old(fdt)) + cpu_node_tokens(cpu_id as nat),
        fdt_history_ok(fdt_contents(*old(fdt))) ==> (r is Ok <==> fdt_history_ok(fdt_contents(*old(fdt)) + cpu_node_tokens(cpu_id as nat))),
        fdt_child_ready(fdt_contents(*old(fdt)), 1) && fdt_size_bound(fdt_contents(*old(fdt)) + cpu_node_tokens(cpu_id as nat)) <= FDT_SIZE_LIMIT ==> r is Ok,
{
    let ghost c0 = fdt_contents(*fdt);
    proof {
        reveal_strlit("cpu");
        reveal_strlit("device_type");
        reveal_strlit("reg");
        reveal_strlit("compatible");
        reveal_strlit("arm,arm-v8");
        reveal_strlit("enable-method");
        reveal_strlit("psci");
        lemma_unit_name_ok("cpu"@, cpu_id as nat);
    }
    let cpu_name = format_unit_name("cpu", cpu_id as u64);
    let cpu_node = fdt.begin_node(cpu_name.as_str())?;
    fdt.property_string("device_type", "cpu")?;
    fdt.property_u32("reg", cpu_id)?;
    fdt.property_string("compatible", "arm,arm-v8")?;
    fdt.property_string("enable-method", "psci")?;
    fdt.end_node(cpu_node)?;
    assert(fdt_contents(*fdt) =~= c0 + cpu_node_tokens(cpu_id as nat));
    Ok(())
}

/// Writes the `cpus` node.
pub fn create_cpu_nodes(fdt: &mut FdtWriter, num_cpus: u32) -> (r: Result<(), vm_fdt::Error>)
    ensures
        r is Ok ==> fdt_contents(*final(fdt)) == fdt_contents(*old(fdt)) + cpus_node_tokens(num_cpus as nat),
        fdt_history_ok(fdt_contents(*old(fdt))) ==> (r is Ok <==> fdt_history_ok(fdt_contents(*old(fdt)) + cpus_node_tokens(num_cpus as nat))),
        fdt_child_ready(fdt_contents(*old(fdt)), 2) && fdt_size_bound(fdt_contents(*old(fdt)) + cpus_node_tokens(num_cpus as nat)) <= FDT_SIZE_LIMIT ==> r is Ok,
{
    let ghost c0 = fdt_contents(*fdt);
    let ghost owed = fdt_child_ready(c0, 2) && fdt_size_bound(c0 + cpus_node_tokens(num_cpus as nat)) <= FDT_SIZE_LIMIT;
    proof {
        reveal_strlit("cpus");
        reveal_strlit("#address-cells");
        reveal_strlit("#size-cells");
    }
    proof {
        lemma_history_prefix(c0 + cpus_head_tokens(), fdt_repeat(num_cpus as nat, cpu_node_fn()) + seq![FdtToken::EndNode]);
        assert(c0 + cpus_node_tokens(num_cpus as nat) =~= (c0 + cpus_head_tokens()) + (fdt_repeat(num_cpus as nat, cpu_node_fn()) + seq![FdtToken::EndNode]));
        lemma_history_prefix(c0 + cpus_head_tokens() + fdt_repeat(num_cpus as nat, cpu_node_fn()), seq![FdtToken::EndNode]);
        assert(c0 + cpus_node_tokens(num_cpus as nat) =~= (c0 + cpus_head_tokens() + fdt_repeat(num_cpus as nat, cpu_node_fn())) + seq![FdtToken::EndNode]);
    }
    let cpus_node = fdt.begin_node("cpus")?;
    fdt.property_u32("#address-cells", 0x1)?;
    fdt.property_u32("#size-cells", 0x0)?;
    assert(fdt_contents(*fdt) =~= c0 + cpus_head_tokens() + fdt_repeat(0, cpu_node_fn()));

    for cpu_id in 0..num_cpus
        invariant
            c0 == fdt_contents(*old(fdt)),
            owed == (fdt_child_ready(c0, 2) && fdt_size_bound(c0 + cpus_node_tokens(num_cpus as nat)) <= FDT_SIZE_LIMIT),
            fdt_contents(*fdt) == c0 + cpus_head_tokens() + fdt_repeat(cpu_id as nat, cpu_node_fn()),
            fdt_node_depth(cpus_node) == fdt_depth(c0) + 1,
            fdt_history_ok(c0) ==> fdt_history_ok(fdt_contents(*fdt)),
            fdt_history_ok(c0 + cpus_node_tokens(num_cpus as nat)) ==> fdt_history_ok(c0 + cpus_head_tokens() + fdt_repeat(num_cpus as nat, cpu_node_fn())),
    {
        proof {
            lemma_history_repeat_prefix(c0 + cpus_head_tokens(), cpu_id as nat + 1, num_cpus as nat, cpu_node_fn());
            assert(c0 + cpus_head_tokens() + fdt_repeat(cpu_id as nat, cpu_node_fn()) + cpu_node_tokens(cpu_id as nat)
                =~= c0 + cpus_head_tokens() + fdt_repeat(cpu_id as nat + 1, cpu_node_fn()));
            lemma_cpu_nodes_facts(cpu_id as nat);
            lemma_repeat_size_mono(cpu_id as nat + 1, num_cpus as nat, cpu_node_fn());
            assert(c0 + cpus_node_tokens(num_cpus as nat) =~= (c0 + cpus_head_tokens()) + fdt_repeat(num_cpus as nat, cpu_node_fn()) + seq![FdtToken::EndNode]);
        }
        create_cpu_node(fdt, cpu_id)?;
        assert(fdt_contents(*fdt) =~= c0 + cpus_head_tokens() + fdt_repeat(cpu_id as nat + 1, cpu_node_fn()));
    }
    proof {
        lemma_repeat_depth(num_cpus as nat, cpu_node_fn());
    }
    fdt.end_node(cpus_node)?;
    assert(fdt_contents(*fdt) =~= c0 + cpus_node_tokens(num_cpus as nat));
    Ok(())
}

/// The `reg` cells of the interrupt controller: the distributor, then the
/// redistributors of `num_cpus` vCPUs just below it (GICv3) or the CPU interface
/// (GICv2).
pub open spec fn gic_reg_cells(is_gicv3: bool, num_cpus: u64) -> Seq<u64> {
    if is_gicv3 {
        seq![
            AARCH64_GIC_DIST_BASE,
            AARCH64_GIC_DIST_SIZE,
            (AARCH64_GIC_DIST_BASE - AARCH64_GIC_REDIST_SIZE * num_cpus) as u64,
            (AARCH64_GIC_REDIST_SIZE * num_cpus) as u64,
        ]
    } else {
        seq![AARCH64_GIC_DIST_BASE, AARCH64_GIC_DIST_SIZE, AARCH64_GIC_CPUI_BASE, AARCH64_GIC_CPUI_SIZE]
    }
}

/// The interrupt controller node.
pub open spec fn gic_node_tokens(is_gicv3: bool, num_cpus: u64) -> Seq<FdtToken> {
    seq![FdtToken::BeginNode("intc"@)]
        .push(FdtToken::Str("compatible"@, if is_gicv3 { "arm,gic-v3"@ } else { "arm,cortex-a15-gic"@ }))
        .push(FdtToken::U32("#interrupt-cells"@, GIC_FDT_IRQ_NUM_CELLS))
        .push(FdtToken::Null("interrupt-controller"@))
        .push(FdtToken::ArrayU64("reg"@, gic_reg_cells(is_gicv3, num_cpus)))
        .push(FdtToken::Phandle(PHANDLE_GIC))
        .push(FdtToken::U32("#address-cells"@, 2))
        .push(FdtToken::U32("#size-cells"@, 2))
        .push(FdtToken::EndNode)
}

/// Writes the interrupt controller node.  The redistributors of all vCPUs must
/// fit below the distributor.
pub fn create_gic_node(fdt: &mut FdtWriter, is_gicv3: bool, num_cpus: u64) -> (r: Result<(), vm_fdt::Error>)
    requires
        is_gicv3 ==> AARCH64_GIC_REDIST_SIZE * num_cpus <= AARCH64_GIC_DIST_BASE,
    ensures
        r is Ok ==> fdt_contents(*final(fdt)) == fdt_contents(*old(fdt)) + gic_node_tokens(is_gicv3, num_cpus),
        fdt_history_ok(fdt_contents(*old(fdt))) ==> (r is Ok <==> fdt_history_ok(fdt_contents(*old(fdt)) + gic_node_tokens(is_gicv3, num_cpus))),
        fdt_child_ready(fdt_contents(*old(fdt)), 1) && !fdt_phandles(fdt_contents(*old(fdt))).contains(PHANDLE_GIC) && fdt_size_bound(fdt_contents(*old(fdt)) + gic_node_tokens(is_gicv3, num_cpus)) <= FDT_SIZE_LIMIT ==> r is Ok,
{
    let ghost c0 = fdt_contents(*fdt);
    proof {
        reveal_strlit("intc");
        reveal_strlit("compatible");
        reveal_strlit("arm,gic-v3");
        reveal_strlit("arm,cortex-a15-gic");
        reveal_strlit("#interrupt-cells");
        reveal_strlit("interrupt-controller");
        reveal_strlit("reg");
        reveal_strlit("#address-cells");
        reveal_strlit("#size-cells");
    }
    let intc_node = fdt.begin_node("intc")?;
    let gic_reg_prop = if is_gicv3 {
        fdt.property_string("compatible", "arm,gic-v3")?;
        [
            AARCH64_GIC_DIST_BASE,
            AARCH64_GIC_DIST_SIZE,
            AARCH64_GIC_DIST_BASE - (AARCH64_GIC_REDIST_SIZE * num_cpus),
            AARCH64_GIC_REDIST_SIZE * num_cpus,
        ]
    } else {
        fdt.property_string("compatible", "arm,cortex-a15-gic")?;
        [AARCH64_GIC_DIST_BASE, AARCH64_GIC_DIST_SIZE, AARCH64_GIC_CPUI_BASE, AARCH64_GIC_CPUI_SIZE]
    };
    assert(gic_reg_prop@ =~= gic_reg_cells(is_gicv3, num_cpus));
    fdt.property_u32("#interrupt-cells", GIC_FDT_IRQ_NUM_CELLS)?;
    fdt.property_null("interrupt-controller")?;
    fdt.property_array_u64("reg", &gic_reg_prop)?;
    fdt.property_phandle(PHANDLE_GIC)?;
    fdt.property_u32("#address-cells", 2)?;
    fdt.property_u32("#size-cells", 2)?;
    fdt.end_node(intc_node)?;
    assert(fdt_contents(*fdt) =~= c0 + gic_node_tokens(is_gicv3, num_cpus));
    Ok(())
}

/// The PSCI node: power control through hypervisor calls.
pub open spec fn psci_node_tokens() -> Seq<FdtToken> {
    seq![FdtToken::BeginNode("psci"@)]
        .push(FdtToken::Str("compatible"@, "arm,psci-0.2"@))
        .push(FdtToken::Str("method"@, "hvc"@))
        .push(FdtToken::EndNode)
}

/// Writes the PSCI node.  A guest of KVM makes PSCI calls through the HVC
/// conduit, not SMC.
pub fn create_psci_node(fdt: &mut FdtWriter) -> (r: Result<(), vm_fdt::Error>)
    ensures
        r is Ok ==> fdt_contents(*final(fdt)) == fdt_contents(*old(fdt)) + psci_node_tokens(),
        fdt_history_ok(fdt_contents(*old(fdt))) ==> (r is Ok <==> fdt_history_ok(fdt_contents(*old(fdt)) + psci_node_tokens())),
        fdt_child_ready(fdt_contents(*old(fdt)), 1) && fdt_size_bound(fdt_contents(*old(fdt)) + psci_node_tokens()) <= FDT_SIZE_LIMIT ==> r is Ok,
{
    let ghost c0 = fdt_contents(*fdt);
    proof {
        reveal_strlit("psci");
        reveal_strlit("compatible");
        reveal_strlit("arm,psci-0.2");
        reveal_strlit("method");
        reveal_strlit("hvc");
    }
    let compatible = "arm,psci-0.2";
    let psci_node = fdt.begin_node("psci")?;
    fdt.property_string("compatible", compatible)?;
    fdt.property_string("method", "hvc")?;
    fdt.end_node(psci_node)?;
    assert(fdt_contents(*fdt) =~= c0 + psci_node_tokens());
    Ok(())
}

/// The CPU mask of a private interrupt specifier that targets vCPUs
/// `0..num_cpus` (only eight fit in the field).
pub open spec fn ppi_cpu_mask(num_cpus: u32) -> u32 {
    ((((1u32 << num_cpus) - 1) as u32) << GIC_FDT_IRQ_PPI_CPU_SHIFT) & GIC_FDT_IRQ_PPI_CPU_MASK
}

/// Computes `ppi_cpu_mask`.  The shift would overflow from 32 vCPUs on.
pub fn compute_ppi_cpu_mask(num_cpus: u32) -> (r: u32)
    requires
        num_cpus < 32,
    ensures
        r == ppi_cpu_mask(num_cpus),
{
    assert(1u32 << num_cpus >= 1) by (bit_vector)
        requires
            num_cpus < 32,
    ;
    (((1u32 << num_cpus) - 1) << GIC_FDT_IRQ_PPI_CPU_SHIFT) & GIC_FDT_IRQ_PPI_CPU_MASK
}

/// The private interrupts of the architected timer.
pub open spec fn timer_irq_cells(cpu_mask: u32) -> Seq<u32> {
    let cell = cpu_mask | IRQ_TYPE_LEVEL_LOW;
    seq![
        GIC_FDT_IRQ_TYPE_PPI, 13, cell,
        GIC_FDT_IRQ_TYPE_PPI, 14, cell,
        GIC_FDT_IRQ_TYPE_PPI, 11, cell,
        GIC_FDT_IRQ_TYPE_PPI, 10, cell,
    ]
}

/// The architected timer node.
pub open spec fn timer_node_tokens(num_cpus: u32) -> Seq<FdtToken> {
    seq![FdtToken::BeginNode("timer"@)]
        .push(FdtToken::Str("compatible"@, "arm,armv8-timer"@))
        .push(FdtToken::ArrayU32("interrupts"@, timer_irq_cells(ppi_cpu_mask(num_cpus))))
        .push(FdtToken::Null("always-on"@))
        .push(FdtToken::EndNode)
}

/// Writes the architected timer node; its interrupt numbers are fixed.
pub fn create_timer_node(fdt: &mut FdtWriter, num_cpus: u32) -> (r: Result<(), vm_fdt::Error>)
    requires
        num_cpus < 32,
    ensures
        r is Ok ==> fdt_contents(*final(fdt)) == fdt_contents(*old(fdt)) + timer_node_tokens(num_cpus),
        fdt_history_ok(fdt_contents(*old(fdt))) ==> (r is Ok <==> fdt_history_ok(fdt_contents(*old(fdt)) + timer_node_tokens(num_cpus))),
        fdt_child_ready(fdt_contents(*old(fdt)), 1) && fdt_size_bound(fdt_contents(*old(fdt)) + timer_node_tokens(num_cpus)) <= FDT_SIZE_LIMIT ==> r is Ok,
{
    let ghost c0 = fdt_contents(*fdt);
    proof {
        reveal_strlit("timer");
        reveal_strlit("compatible");
        reveal_strlit("arm,armv8-timer");
        reveal_strlit("interrupts");
        reveal_strlit("always-on");
    }
    let irqs: [u32; 4] = [13, 14, 11, 10];
    let compatible = "arm,armv8-timer";
    let cpu_mask: u32 = compute_ppi_cpu_mask(num_cpus);

    let mut timer_reg_cells: Vec<u32> = Vec::new();
    for i in 0..4
        invariant
            timer_reg_cells@ == timer_irq_cells(cpu_mask).take(3 * i),
            irqs@ == seq![13u32, 14u32, 11u32, 10u32],
    {
        let irq = irqs[i];
        timer_reg_cells.push(GIC_FDT_IRQ_TYPE_PPI);
        timer_reg_cells.push(irq);
        timer_reg_cells.push(cpu_mask | IRQ_TYPE_LEVEL_LOW);
        assert(timer_reg_cells@ =~= timer_irq_cells(cpu_mask).take(3 * i + 3));
    }
    assert(timer_reg_cells@ =~= timer_irq_cells(cpu_mask));

    let timer_node = fdt.begin_node("timer")?;
    fdt.property_string("compatible", compatible)?;
    fdt.property_array_u32("interrupts", timer_reg_cells.as_slice())?;
    fdt.property_null("always-on")?;
    fdt.end_node(timer_node)?;
    assert(fdt_contents(*fdt) =~= c0 + timer_node_tokens(num_cpus));
    Ok(())
}

/// The performance monitor node.
pub open spec fn pmu_node_tokens(num_cpus: u32) -> Seq<FdtToken> {
    seq![FdtToken::BeginNode("pmu"@)]
        .push(FdtToken::Str("compatible"@, "arm,armv8-pmuv3"@))
        .push(FdtToken::ArrayU32("interrupts"@, seq![GIC_FDT_IRQ_TYPE_PPI, AARCH64_PMU_IRQ, ppi_cpu_mask(num_cpus) | IRQ_TYPE_LEVEL_HIGH]))
        .push(FdtToken::EndNode)
}

/// Writes the performance monitor node.
pub fn create_pmu_node(fdt: &mut FdtWriter, num_cpus: u32) -> (r: Result<(), vm_fdt::Error>)
    requires
        num_cpus < 32,
    ensures
        r is Ok ==> fdt_contents(*final(fdt)) == fdt_contents(*old(fdt)) + pmu_node_tokens(num_cpus),
        fdt_history_ok(fdt_contents(*old(fdt))) ==> (r is Ok <==> fdt_history_ok(fdt_contents(*old(fdt)) + pmu_node_tokens(num_cpus))),
        fdt_child_ready(fdt_contents(*old(fdt)), 1) && fdt_size_bound(fdt_contents(*old(fdt)) + pmu_node_tokens(num_cpus)) <= FDT_SIZE_LIMIT ==> r is Ok,
{
    let ghost c0 = fdt_contents(*fdt);
    proof {
        reveal_strlit("pmu");
        reveal_strlit("compatible");
        reveal_strlit("arm,armv8-pmuv3");
        reveal_strlit("interrupts");
    }
    let compatible = "arm,armv8-pmuv3";
    let cpu_mask: u32 = compute_ppi_cpu_mask(num_cpus);
    let irq = [GIC_FDT_IRQ_TYPE_PPI, AARCH64_PMU_IRQ, cpu_mask | IRQ_TYPE_LEVEL_HIGH];
    assert(irq@ =~= seq![GIC_FDT_IRQ_TYPE_PPI, AARCH64_PMU_IRQ, ppi_cpu_mask(num_cpus) | IRQ_TYPE_LEVEL_HIGH]);

    let pmu_node = fdt.begin_node("pmu")?;
    fdt.property_string("compatible", compatible)?;
    fdt.property_array_u32("interrupts", &irq)?;
    fdt.end_node(pmu_node)?;
    assert(fdt_contents(*fdt) =~= c0 + pmu_node_tokens(num_cpus));
    Ok(())
}

/// The private interrupts of the timer and the PMU target exactly the first
/// `min(num_cpus, 8)` vCPUs: bit `8 + j` of the mask is set just when `j` is
/// below both, and no other bit is.
pub proof fn law_ppi_cpu_mask_targets_vcpus(num_cpus: u32, j: u32)
    requires
        num_cpus < 32,
        j < 32,
    ensures
        ((ppi_cpu_mask(num_cpus) >> j) & 1u32 == 1u32) <==> (8 <= j < 16 && j - 8 < num_cpus),
{
    assert(((((((1u32 << num_cpus) - 1u32) as u32) << 8u32) & 0xff00u32) >> j) & 1u32 == 1u32 <==> (8 <= j && j < 16 && j - 8 < num_cpus)) by (bit_vector)
        requires
            num_cpus < 32,
            j < 32,
    ;
}

} // verus!

//! Building the flattened device tree that a guest boots with.
pub mod aarch64;
pub mod names;
pub mod nodes;
pub mod riscv64;
pub mod writer;

use vstd::prelude::*;
use vm_fdt::{FdtWriter, FdtWriterNode};
use crate::fdt::names::{lemma_unit_name_ok, unit_name};
use crate::aarch64_consts::{
    AARCH64_GIC_DIST_BASE, AARCH64_GIC_DIST_SIZE, AARCH64_GIC_REDIST_SIZE, AARCH64_PHYS_MEM_START,
    GIC_FDT_IRQ_TYPE_SPI, IRQ_TYPE_EDGE_RISING, IRQ_TYPE_LEVEL_HIGH, PHANDLE_GIC,
};
use crate::fdt::nodes::{
    chosen_node_tokens, create_chosen_node, create_memory_node, create_rtc_node,
    create_serial_node, create_virtio_node, fdt_child_ready, memory_node_tokens, rtc_node_tokens,
    serial_node_tokens, virtio_node_tokens, FdtArch, CLK_PHANDLE,
};
use crate::fdt::riscv64::{cpu_intc_phandles, RiscvVcpuRegs};
use crate::fdt::writer::{
    fdt_blob, fdt_contains_run, fdt_contents, fdt_depth, fdt_healthy, fdt_history_ok, fdt_node_depth,
    fdt_names_len, fdt_nul_free, fdt_phandles, fdt_property_accepted, fdt_repeat, fdt_size_bound, fdt_utf8_len,
    group_fdt_acceptance, group_fdt_tokens,
    lemma_contains_run_extend, lemma_history_prefix, lemma_history_repeat_prefix, lemma_repeat_contains, lemma_repeat_depth, lemma_repeat_healthy,
    lemma_repeat_size_mono, FdtToken, FDT_SIZE_LIMIT,
};
use crate::riscv64_consts::{IRQ_S_EXT, PHANDLE_APLIC, PHANDLE_IMSIC, RISCV64_PHYS_MEM_START};

verus! {

broadcast use group_fdt_tokens;

/// The error type of `vm_memory`'s guest memory accesses.
#[verifier::external_type_specification]
#[verifier::external_body]
pub struct ExGuestMemoryError(vm_memory::GuestMemoryError);

/// std's I/O error.
#[verifier::external_type_specification]
#[verifier::external_body]
pub struct ExIoError(std::io::Error);

/// Errors of building and placing the device tree.
#[derive(Debug)]
pub enum FdtBuilderError {
    /// The device tree writer refused a call.
    Fdt(vm_fdt::Error),
    /// The blob could not be written to guest memory.
    Memory(vm_memory::GuestMemoryError),
    /// A setting that every device tree needs was not given: `cmdline`,
    /// `memory` or `vcpu`.
    MissingRequiredConfig(String),
    /// A prebuilt device tree blob could not be read.
    FdtCustomDtb(std::io::Error),
}

impl From<vm_fdt::Error> for FdtBuilderError {
    fn from(inner: vm_fdt::Error) -> (r: Self)
    {
        FdtBuilderError::Fdt(inner)
    }
}

impl vstd::std_specs::convert::FromSpecImpl<vm_fdt::Error> for FdtBuilderError {
    open spec fn obeys_from_spec() -> bool {
        true
    }

    open spec fn from_spec(inner: vm_fdt::Error) -> Self {
        FdtBuilderError::Fdt(inner)
    }
}

impl From<vm_memory::GuestMemoryError> for FdtBuilderError {
    fn from(inner: vm_memory::GuestMemoryError) -> (r: Self)
    {
        FdtBuilderError::Memory(inner)
    }
}

impl vstd::std_specs::convert::FromSpecImpl<vm_memory::GuestMemoryError> for FdtBuilderError {
    open spec fn obeys_from_spec() -> bool {
        true
    }

    open spec fn from_spec(inner: vm_memory::GuestMemoryError) -> Self {
        FdtBuilderError::Memory(inner)
    }
}

impl From<std::io::Error> for FdtBuilderError {
    fn from(inner: std::io::Error) -> (r: Self)
    {
        FdtBuilderError::FdtCustomDtb(inner)
    }
}

impl vstd::std_specs::convert::FromSpecImpl<std::io::Error> for FdtBuilderError {
    open spec fn obeys_from_spec() -> bool {
        true
    }

    open spec fn from_spec(inner: std::io::Error) -> Self {
        FdtBuilderError::FdtCustomDtb(inner)
    }
}

/// The string holds a NUL character.
fn str_has_nul(s: &str) -> (r: bool)
    ensures
        r == !fdt_nul_free(s@),
{
    let n = s.unicode_len();
    let mut i: usize = 0;
    while i < n
        invariant
            n == s@.len(),
            i <= n,
            forall|j: int| 0 <= j < i ==> s@[j] != '\0',
        decreases n - i,
    {
        if s.get_char(i) == '\0' {
            return true;
        }
        i = i + 1;
    }
    false
}

/// A device tree blob.
pub struct Fdt {
    fdt_blob: Vec<u8>,
}

impl View for Fdt {
    type V = Seq<u8>;

    closed spec fn view(&self) -> Seq<u8> {
        self.fdt_blob@
    }
}

impl Clone for Fdt {
    fn clone(&self) -> (r: Self)
        ensures
            r@ == self@,
    {
        Fdt { fdt_blob: self.fdt_blob.clone() }
    }
}

impl Default for Fdt {
    fn default() -> (r: Self)
        ensures
            r@ == Seq::<u8>::empty(),
    {
        Fdt { fdt_blob: Vec::new() }
    }
}

impl Fdt {
    /// A blob with the given bytes.
    pub fn from_blob(fdt_blob: Vec<u8>) -> (r: Self)
        ensures
            r@ == fdt_blob@,
    {
        Fdt { fdt_blob }
    }

    /// The guest physical address at which a blob loaded `fdt_load_offset`
    /// bytes into guest RAM lies.
    pub fn load_address(target: &FdtTarget, fdt_load_offset: u64) -> (r: u64)
        requires
            fdt_phys_mem_start(*target) + fdt_load_offset <= u64::MAX,
        ensures
            r == fdt_phys_mem_start(*target) + fdt_load_offset,
    {
        match target {
            FdtTarget::Aarch64 => AARCH64_PHYS_MEM_START + fdt_load_offset,
            FdtTarget::Riscv64(_) => RISCV64_PHYS_MEM_START + fdt_load_offset,
        }
    }

    /// The bytes of the blob.
    pub fn as_bytes(&self) -> (r: &[u8])
        ensures
            r@ == self@,
    {
        self.fdt_blob.as_slice()
    }
}

/// A virtio-mmio device of the guest.
struct DeviceInfo {
    addr: u64,
    size: u64,
    irq: u32,
}

/// The architecture of the guest, with what the device tree needs to know of
/// its vCPUs.
#[derive(Clone, Copy, Debug)]
pub enum FdtTarget {
    Aarch64,
    /// A RISC-V guest, with the registers of its first vCPU.
    Riscv64(RiscvVcpuRegs),
}

/// Collects the settings of a guest and writes its device tree.
pub struct FdtBuilder {
    cmdline: Option<String>,
    mem_size: Option<u64>,
    num_vcpus: Option<u32>,
    serial_console: Option<(u64, u64)>,
    rtc: Option<(u64, u64)>,
    virtio_devices: Vec<DeviceInfo>,
    prebuilt: Option<Fdt>,
}

/// The settings held by an `FdtBuilder`.
pub struct FdtBuilderView {
    pub cmdline: Option<Seq<char>>,
    pub mem_size: Option<u64>,
    pub num_vcpus: Option<u32>,
    pub serial_console: Option<(u64, u64)>,
    pub rtc: Option<(u64, u64)>,
    /// Address, size and interrupt of each virtio-mmio device, in the order added.
    pub virtio_devices: Seq<(u64, u64, u32)>,
    pub prebuilt: Option<Seq<u8>>,
}

impl View for FdtBuilder {
    type V = FdtBuilderView;

    closed spec fn view(&self) -> FdtBuilderView {
        FdtBuilderView {
            cmdline: match self.cmdline {
                Some(c) => Some(c@),
                None => None,
            },
            mem_size: self.mem_size,
            num_vcpus: self.num_vcpus,
            serial_console: self.serial_console,
            rtc: self.rtc,
            virtio_devices: self.virtio_devices@.map_values(|d: DeviceInfo| (d.addr, d.size, d.irq)),
            prebuilt: match self.prebuilt {
                Some(f) => Some(f@),
                None => None,
            },
        }
    }
}

/// The settings of a new builder: none.
pub open spec fn fdt_builder_empty() -> FdtBuilderView {
    FdtBuilderView {
        cmdline: None,
        mem_size: None,
        num_vcpus: None,
        serial_console: None,
        rtc: None,
        virtio_devices: Seq::empty(),
        prebuilt: None,
    }
}

/// A call on an `FdtBuilder` that can change its settings, with its arguments.
pub enum FdtBuilderCall {
    WithPrebuiltFdt(Seq<u8>),
    WithCmdline(Seq<char>),
    WithMemSize(u64),
    WithNumVcpus(u32),
    WithSerialConsole(u64, u64),
    WithRtc(u64, u64),
    AddVirtioDevice(u64, u64, u32),
    CreateFdt,
}

/// The settings of a builder after a call.  A setter replaces its setting;
/// `add_virtio_device` appends a device; `create_fdt` leaves an empty blob in
/// place of a prebuilt one and otherwise changes nothing.
pub open spec fn fdt_builder_after(b: FdtBuilderView, call: FdtBuilderCall) -> FdtBuilderView {
    match call {
        FdtBuilderCall::WithPrebuiltFdt(blob) => FdtBuilderView { prebuilt: Some(blob), ..b },
        FdtBuilderCall::WithCmdline(c) => FdtBuilderView { cmdline: Some(c), ..b },
        FdtBuilderCall::WithMemSize(m) => FdtBuilderView { mem_size: Some(m), ..b },
        FdtBuilderCall::WithNumVcpus(n) => FdtBuilderView { num_vcpus: Some(n), ..b },
        FdtBuilderCall::WithSerialConsole(addr, size) => FdtBuilderView { serial_console: Some((addr, size)), ..b },
        FdtBuilderCall::WithRtc(addr, size) => FdtBuilderView { rtc: Some((addr, size)), ..b },
        FdtBuilderCall::AddVirtioDevice(addr, size, irq) => FdtBuilderView {
            virtio_devices: b.virtio_devices.push((addr, size, irq)),
            ..b
        },
        FdtBuilderCall::CreateFdt => match b.prebuilt {
            Some(_) => FdtBuilderView { prebuilt: Some(Seq::<u8>::empty()), ..b },
            None => b,
        },
    }
}

/// The settings of a builder after a sequence of calls, in order.
pub open spec fn fdt_builder_after_all(b: FdtBuilderView, calls: Seq<FdtBuilderCall>) -> FdtBuilderView
    decreases calls.len(),
{
    if calls.len() == 0 {
        b
    } else {
        fdt_builder_after(fdt_builder_after_all(b, calls.drop_last()), calls.last())
    }
}

/// The virtio-mmio devices that a sequence of calls adds, in order.
pub open spec fn fdt_virtio_devices_added(calls: Seq<FdtBuilderCall>) -> Seq<(u64, u64, u32)>
    decreases calls.len(),
{
    if calls.len() == 0 {
        Seq::empty()
    } else {
        let before = fdt_virtio_devices_added(calls.drop_last());
        match calls.last() {
            FdtBuilderCall::AddVirtioDevice(addr, size, irq) => before.push((addr, size, irq)),
            _ => before,
        }
    }
}

/// A builder holds a prebuilt blob exactly when some call gave it one: only
/// `with_prebuilt_fdt` sets it, and no call, `create_fdt` included, takes it
/// away.
pub proof fn law_prebuilt_set_only_by_with_prebuilt_fdt(calls: Seq<FdtBuilderCall>)
    ensures
        fdt_builder_after_all(fdt_builder_empty(), calls).prebuilt is Some
            <==> exists|i: int| 0 <= i < calls.len() && #[trigger] calls[i] is WithPrebuiltFdt,
    decreases calls.len(),
{
    if calls.len() > 0 {
        let front = calls.drop_last();
        law_prebuilt_set_only_by_with_prebuilt_fdt(front);
        if exists|i: int| 0 <= i < front.len() && #[trigger] front[i] is WithPrebuiltFdt {
            let i = choose|i: int| 0 <= i < front.len() && #[trigger] front[i] is WithPrebuiltFdt;
            assert(calls[i] == front[i]);
        }
        if exists|i: int| 0 <= i < calls.len() && #[trigger] calls[i] is WithPrebuiltFdt {
            let i = choose|i: int| 0 <= i < calls.len() && #[trigger] calls[i] is WithPrebuiltFdt;
            if i < calls.len() - 1 {
                assert(front[i] == calls[i]);
            }
        }
    }
}

/// A prebuilt blob is handed out once: `create_fdt` hands out the blob and
/// leaves an empty one in its place, which every later `create_fdt` hands out,
/// changing nothing more.
pub proof fn law_prebuilt_fdt_handed_out_once(b: FdtBuilderView, blob: Seq<u8>)
    requires
        b.prebuilt == Some(blob),
    ensures
        fdt_builder_after(b, FdtBuilderCall::CreateFdt).prebuilt == Some(Seq::<u8>::empty()),
        fdt_builder_after(fdt_builder_after(b, FdtBuilderCall::CreateFdt), FdtBuilderCall::CreateFdt)
            == fdt_builder_after(b, FdtBuilderCall::CreateFdt),
        fdt_builder_after(b, FdtBuilderCall::CreateFdt) == (FdtBuilderView { prebuilt: Some(Seq::<u8>::empty()), ..b }),
{
}

/// Without a prebuilt blob `create_fdt` leaves the settings as they were, so
/// calling it again gives the same outcome: the same blob, or the same error.
pub proof fn law_create_fdt_keeps_settings(b: FdtBuilderView, t: FdtTarget)
    requires
        b.prebuilt is None,
    ensures
        fdt_builder_after(b, FdtBuilderCall::CreateFdt) == b,
        fdt_build_outcome(fdt_builder_after(b, FdtBuilderCall::CreateFdt), t) == fdt_build_outcome(b, t),
{
}

/// The virtio-mmio devices of a builder are the ones added, in the order
/// added: no other call adds, drops or reorders them.
pub proof fn law_virtio_devices_in_order_added(calls: Seq<FdtBuilderCall>)
    ensures
        fdt_builder_after_all(fdt_builder_empty(), calls).virtio_devices == fdt_virtio_devices_added(calls),
    decreases calls.len(),
{
    if calls.len() > 0 {
        law_virtio_devices_in_order_added(calls.drop_last());
    }
}

// ----------------------------------------------------------------------------
// The device tree that `create_fdt` writes.

/// The architecture of a target.
pub open spec fn fdt_arch(t: FdtTarget) -> FdtArch {
    match t {
        FdtTarget::Aarch64 => FdtArch::Aarch64,
        FdtTarget::Riscv64(_) => FdtArch::Riscv64,
    }
}

/// Start of guest RAM.
pub open spec fn fdt_phys_mem_start(t: FdtTarget) -> u64 {
    match t {
        FdtTarget::Aarch64 => AARCH64_PHYS_MEM_START,
        FdtTarget::Riscv64(_) => RISCV64_PHYS_MEM_START,
    }
}

/// The root node up to its first child.
pub open spec fn fdt_root_head_tokens(t: FdtTarget) -> Seq<FdtToken> {
    let begin = match t {
        FdtTarget::Aarch64 => seq![FdtToken::BeginNode(""@)].push(FdtToken::U32("interrupt-parent"@, PHANDLE_GIC)),
        FdtTarget::Riscv64(_) => seq![FdtToken::BeginNode(""@)],
    };
    begin
        .push(FdtToken::U32("#address-cells"@, 2))
        .push(FdtToken::U32("#size-cells"@, 2))
        .push(FdtToken::Str("compatible"@, "riscv-virtio"@))
        .push(FdtToken::Str("model"@, "linux,dummy-virt"@))
}

/// The device tree up to the `chosen` node.
pub open spec fn fdt_tokens_through_chosen(b: FdtBuilderView, t: FdtTarget) -> Seq<FdtToken> {
    fdt_root_head_tokens(t) + chosen_node_tokens(b.cmdline.unwrap())
}

/// The device tree up to the `memory` node.
pub open spec fn fdt_tokens_through_memory(b: FdtBuilderView, t: FdtTarget) -> Seq<FdtToken> {
    fdt_tokens_through_chosen(b, t) + memory_node_tokens(fdt_phys_mem_start(t), b.mem_size.unwrap())
}

/// The vCPUs and the interrupt controllers.
pub open spec fn fdt_cpu_irq_tokens(t: FdtTarget, num_vcpus: u32) -> Seq<FdtToken> {
    match t {
        FdtTarget::Aarch64 => aarch64::cpus_node_tokens(num_vcpus as nat) + aarch64::gic_node_tokens(true, num_vcpus as u64),
        FdtTarget::Riscv64(regs) => riscv64::cpus_node_tokens(num_vcpus as nat, regs) + riscv64::aplic_node_tokens() + riscv64::imsic_node_tokens(num_vcpus as nat),
    }
}

/// The virtio-mmio device nodes, as a function of the device number.
pub open spec fn fdt_virtio_fn(arch: FdtArch, devices: Seq<(u64, u64, u32)>) -> spec_fn(nat) -> Seq<FdtToken> {
    |k: nat| virtio_node_tokens(arch, devices[k as int].0, devices[k as int].1, devices[k as int].2)
}

/// The ARM64 timer, PSCI and PMU nodes.
pub open spec fn fdt_arch_device_tokens(t: FdtTarget, num_vcpus: u32) -> Seq<FdtToken> {
    match t {
        FdtTarget::Aarch64 => aarch64::timer_node_tokens(num_vcpus) + aarch64::psci_node_tokens() + aarch64::pmu_node_tokens(num_vcpus),
        FdtTarget::Riscv64(_) => Seq::empty(),
    }
}

/// The serial port and RTC nodes, where they are set.
pub open spec fn fdt_console_tokens(b: FdtBuilderView, arch: FdtArch) -> Seq<FdtToken> {
    let serial = match b.serial_console {
        Some(s) => serial_node_tokens(arch, s.0, s.1),
        None => Seq::empty(),
    };
    let rtc = match b.rtc {
        Some(r) => rtc_node_tokens(arch, r.0, r.1),
        None => Seq::empty(),
    };
    serial + rtc
}

/// The device nodes: serial port, RTC, the ARM64 devices, and the virtio-mmio
/// devices in the order added.
pub open spec fn fdt_device_tokens(b: FdtBuilderView, t: FdtTarget, num_vcpus: u32) -> Seq<FdtToken> {
    fdt_console_tokens(b, fdt_arch(t)) + fdt_arch_device_tokens(t, num_vcpus) + fdt_repeat(
        b.virtio_devices.len(),
        fdt_virtio_fn(fdt_arch(t), b.virtio_devices),
    )
}

/// The whole device tree of a builder whose required settings are all given.
#[verifier::opaque]
pub open spec fn fdt_expected_tokens(b: FdtBuilderView, t: FdtTarget) -> Seq<FdtToken> {
    fdt_tokens_through_memory(b, t) + fdt_cpu_irq_tokens(t, b.num_vcpus.unwrap()) + fdt_device_tokens(
        b,
        t,
        b.num_vcpus.unwrap(),
    ) + seq![FdtToken::EndNode]
}

/// What writing the device tree of a builder without a prebuilt blob gives.
pub enum FdtOutcome {
    /// The blob of the device tree.
    Blob(Seq<u8>),
    /// A required setting is missing; its name as `MissingRequiredConfig`
    /// gives it.
    MissingSetting(Seq<char>),
    /// The writer refused a call, or the size of the blob.
    WriterRefused,
}

/// The outcome of writing the device tree of `b`, as a function of its
/// settings: the command line, the memory size and the number of vCPUs are
/// asked for in this order, each after the nodes before it were written.
pub open spec fn fdt_build_outcome(b: FdtBuilderView, t: FdtTarget) -> FdtOutcome {
    if b.cmdline is None {
        FdtOutcome::MissingSetting("cmdline"@)
    } else if !fdt_history_ok(fdt_tokens_through_chosen(b, t)) {
        FdtOutcome::WriterRefused
    } else if b.mem_size is None {
        FdtOutcome::MissingSetting("memory"@)
    } else if !fdt_history_ok(fdt_tokens_through_memory(b, t)) {
        FdtOutcome::WriterRefused
    } else if b.num_vcpus is None {
        FdtOutcome::MissingSetting("vcpu"@)
    } else if fdt_history_ok(fdt_expected_tokens(b, t)) && fdt_blob(fdt_expected_tokens(b, t)).len() <= u32::MAX {
        FdtOutcome::Blob(fdt_blob(fdt_expected_tokens(b, t)))
    } else {
        FdtOutcome::WriterRefused
    }
}

/// The outcome that a result of `create_fdt` stands for.
pub open spec fn fdt_outcome_of(r: Result<Fdt, FdtBuilderError>) -> Option<FdtOutcome> {
    match r {
        Ok(f) => Some(FdtOutcome::Blob(f@)),
        Err(FdtBuilderError::MissingRequiredConfig(s)) => Some(FdtOutcome::MissingSetting(s@)),
        Err(FdtBuilderError::Fdt(_)) => Some(FdtOutcome::WriterRefused),
        Err(_) => None,
    }
}

/// The command line, the memory size and the number of vCPUs are all given.
pub open spec fn fdt_config_complete(b: FdtBuilderView) -> bool {
    b.cmdline is Some && b.mem_size is Some && b.num_vcpus is Some
}

/// The phandles of the device tree are distinct.  On RISC-V the interrupt
/// controller of vCPU `i` has phandle `1 + i`, which meets the IMSIC's (9) from
/// nine vCPUs on.
pub open spec fn fdt_phandles_fit(t: FdtTarget, num_vcpus: u32) -> bool {
    match t {
        FdtTarget::Aarch64 => true,
        FdtTarget::Riscv64(_) => num_vcpus <= 8,
    }
}

/// `create_fdt` goes on past the memory node to the vCPU nodes, unless the
/// writer refuses the size of the blob: no prebuilt blob is set, the command
/// line holds no NUL, and the memory size and the number of vCPUs are given.
pub open spec fn fdt_reaches_cpu_nodes(b: FdtBuilderView) -> bool {
    &&& b.prebuilt is None
    &&& b.cmdline matches Some(c) && fdt_nul_free(c)
    &&& b.mem_size is Some
    &&& b.num_vcpus is Some
}

/// An ARM64 builder whose device tree would reach the timer node with 32 vCPUs
/// or more, where the CPU mask overflows.
pub open spec fn fdt_aarch64_too_many_vcpus(b: FdtBuilderView, t: FdtTarget) -> bool {
    &&& t is Aarch64
    &&& fdt_reaches_cpu_nodes(b)
    &&& b.num_vcpus.unwrap() >= 32
}

/// The device tree writer is owed success on every call that `create_fdt`
/// makes before it stops: the command line holds no NUL, the phandles are
/// distinct, and the blob stays within the writer's size limit.
pub open spec fn fdt_writes_owed(b: FdtBuilderView, t: FdtTarget) -> bool {
    &&& b.cmdline matches Some(c) && fdt_nul_free(c)
    &&& fdt_size_bound(fdt_tokens_through_chosen(b, t)) <= FDT_SIZE_LIMIT
    &&& b.mem_size is Some ==> fdt_size_bound(fdt_tokens_through_memory(b, t)) <= FDT_SIZE_LIMIT
    &&& (b.mem_size is Some && b.num_vcpus is Some) ==> fdt_phandles_fit(t, b.num_vcpus.unwrap())
        && fdt_size_bound(fdt_expected_tokens(b, t)) <= FDT_SIZE_LIMIT
}

// ----------------------------------------------------------------------------
// Writing the nodes.

/// The device tree is the part up to the memory node, then the vCPUs and
/// interrupt controllers, the devices, and the end of the root node.
pub proof fn lemma_expected_tokens(b: FdtBuilderView, t: FdtTarget)
    ensures
        fdt_expected_tokens(b, t) == fdt_tokens_through_memory(b, t) + fdt_cpu_irq_tokens(t, b.num_vcpus.unwrap())
            + fdt_device_tokens(b, t, b.num_vcpus.unwrap()) + seq![FdtToken::EndNode],
        fdt_size_bound(fdt_tokens_through_chosen(b, t)) <= fdt_size_bound(fdt_tokens_through_memory(b, t)),
        fdt_size_bound(fdt_tokens_through_memory(b, t)) <= fdt_size_bound(fdt_expected_tokens(b, t)),
{
    reveal(fdt_expected_tokens);
}

proof fn lemma_root_head_facts(t: FdtTarget)
    ensures
        fdt_depth(fdt_root_head_tokens(t)) == 1,
        fdt_healthy(fdt_root_head_tokens(t)),
        fdt_phandles(fdt_root_head_tokens(t)) == Set::<u32>::empty(),
        fdt_size_bound(fdt_root_head_tokens(t)) <= 1000,
        fdt_root_head_tokens(t).last() != FdtToken::EndNode,
{
    reveal_strlit("");
    reveal_strlit("interrupt-parent");
    reveal_strlit("#address-cells");
    reveal_strlit("#size-cells");
    reveal_strlit("compatible");
    reveal_strlit("riscv-virtio");
    reveal_strlit("model");
    reveal_strlit("linux,dummy-virt");
    assert(fdt_phandles(fdt_root_head_tokens(t)) =~= Set::<u32>::empty());
}

/// Opens the root node and writes its properties.
fn create_root_head(fdt: &mut FdtWriter, target: &FdtTarget) -> (r: Result<FdtWriterNode, vm_fdt::Error>)
    requires
        fdt_contents(*old(fdt)) == Seq::<FdtToken>::empty(),
    ensures
        r matches Ok(n) && fdt_contents(*final(fdt)) == fdt_root_head_tokens(*target) && fdt_node_depth(n) == 1,
        fdt_history_ok(fdt_contents(*final(fdt))),
{
    let ghost c0 = fdt_contents(*fdt);
    proof {
        reveal_strlit("");
        reveal_strlit("interrupt-parent");
        reveal_strlit("#address-cells");
        reveal_strlit("#size-cells");
        reveal_strlit("compatible");
        reveal_strlit("riscv-virtio");
        reveal_strlit("model");
        reveal_strlit("linux,dummy-virt");
        lemma_root_head_facts(*target);
    }
    // The whole thing is put into one giant node with some top level properties.
    let root_node = fdt.begin_node("")?;
    match target {
        FdtTarget::Aarch64 => {
            fdt.property_u32("interrupt-parent", PHANDLE_GIC)?;
        },
        FdtTarget::Riscv64(_) => {},
    }
    fdt.property_u32("#address-cells", 0x2)?;
    fdt.property_u32("#size-cells", 0x2)?;
    fdt.property_string("compatible", "riscv-virtio")?;
    fdt.property_string("model", "linux,dummy-virt")?;
    assert(fdt_contents(*fdt) =~= fdt_root_head_tokens(*target));
    Ok(root_node)
}

/// The phandles of the vCPU and interrupt controller nodes.
pub open spec fn fdt_cpu_irq_phandles(t: FdtTarget, num_vcpus: u32) -> Set<u32> {
    match t {
        FdtTarget::Aarch64 => set![PHANDLE_GIC],
        FdtTarget::Riscv64(_) => cpu_intc_phandles(num_vcpus as nat).insert(PHANDLE_APLIC).insert(PHANDLE_IMSIC),
    }
}

proof fn lemma_cpu_irq_facts(t: FdtTarget, num_vcpus: u32)
    ensures
        fdt_depth(fdt_cpu_irq_tokens(t, num_vcpus)) == 0,
        fdt_healthy(fdt_cpu_irq_tokens(t, num_vcpus)),
        fdt_phandles(fdt_cpu_irq_tokens(t, num_vcpus)) == fdt_cpu_irq_phandles(t, num_vcpus),
{
    match t {
        FdtTarget::Aarch64 => {
            aarch64::lemma_cpu_nodes_facts(num_vcpus as nat);
            let cpus = aarch64::cpus_node_tokens(num_vcpus as nat);
            assert(fdt_phandles(aarch64::cpus_head_tokens()) =~= Set::<u32>::empty());
            assert(fdt_phandles(cpus) =~= Set::<u32>::empty());
            assert(fdt_phandles(fdt_cpu_irq_tokens(t, num_vcpus)) =~= fdt_cpu_irq_phandles(t, num_vcpus));
        },
        FdtTarget::Riscv64(regs) => {
            riscv64::lemma_cpu_nodes_facts(num_vcpus as nat, regs);
            assert(fdt_phandles(riscv64::cpus_head_tokens(regs)) =~= Set::<u32>::empty());
            assert(fdt_phandles(fdt_cpu_irq_tokens(t, num_vcpus)) =~= fdt_cpu_irq_phandles(t, num_vcpus));
        },
    }
}

/// The phandles of a RISC-V device tree are distinct exactly up to eight
/// vCPUs: the interrupt controllers of `n` vCPUs take `1..=n`, which meet the
/// IMSIC's phandle (9) from nine vCPUs on, and the APLIC's (0xd) and the RTC
/// clock's (24) later still.
pub proof fn law_riscv_phandles_distinct_up_to_eight_vcpus(n: nat)
    ensures
        n <= 8 <==> (!cpu_intc_phandles(n).contains(PHANDLE_IMSIC) && !cpu_intc_phandles(n).contains(PHANDLE_APLIC)
            && !cpu_intc_phandles(n).contains(CLK_PHANDLE)),
        PHANDLE_IMSIC != PHANDLE_APLIC && PHANDLE_IMSIC != CLK_PHANDLE && PHANDLE_APLIC != CLK_PHANDLE,
{
    if n > 8 {
        assert(cpu_intc_phandles(n).contains(PHANDLE_IMSIC));
    }
}

/// Writes the vCPU and interrupt controller nodes.
#[verifier::spinoff_prover]
#[verifier::rlimit(40)]
fn create_cpu_irq_nodes(fdt: &mut FdtWriter, target: &FdtTarget, num_vcpus: u32) -> (r: Result<(), vm_fdt::Error>)
    requires
        *target is Aarch64 ==> num_vcpus < 32,
    ensures
        r is Ok ==> fdt_contents(*final(fdt)) == fdt_contents(*old(fdt)) + fdt_cpu_irq_tokens(*target, num_vcpus),
        fdt_history_ok(fdt_contents(*old(fdt))) ==> (r is Ok <==> fdt_history_ok(fdt_contents(*old(fdt)) + fdt_cpu_irq_tokens(*target, num_vcpus))),
        r is Ok && fdt_phandles(fdt_contents(*old(fdt))) == Set::<u32>::empty() ==> fdt_phandles_fit(*target, num_vcpus),
        fdt_child_ready(fdt_contents(*old(fdt)), 3) && fdt_phandles(fdt_contents(*old(fdt))) == Set::<u32>::empty()
            && fdt_phandles_fit(*target, num_vcpus)
            && fdt_size_bound(fdt_contents(*old(fdt)) + fdt_cpu_irq_tokens(*target, num_vcpus)) <= FDT_SIZE_LIMIT ==> r is Ok,
{
    let ghost c0 = fdt_contents(*fdt);
    match target {
        FdtTarget::Aarch64 => {
            proof {
                aarch64::lemma_cpu_nodes_facts(num_vcpus as nat);
                assert(fdt_phandles(aarch64::cpus_head_tokens()) =~= Set::<u32>::empty());
            }
            proof {
                let cpus = aarch64::cpus_node_tokens(num_vcpus as nat);
                lemma_history_prefix(c0 + cpus, aarch64::gic_node_tokens(true, num_vcpus as u64));
                assert(c0 + fdt_cpu_irq_tokens(*target, num_vcpus) =~= (c0 + cpus) + aarch64::gic_node_tokens(true, num_vcpus as u64));
            }
            aarch64::create_cpu_nodes(fdt, num_vcpus)?;
            aarch64::create_gic_node(fdt, true, num_vcpus as u64)?;
        },
        FdtTarget::Riscv64(regs) => {
            proof {
                riscv64::lemma_cpu_nodes_facts(num_vcpus as nat, *regs);
                assert(fdt_phandles(riscv64::cpus_head_tokens(*regs)) =~= Set::<u32>::empty());
                assert(fdt_phandles(riscv64::aplic_node_tokens()) =~= set![PHANDLE_APLIC]);
            }
            proof {
                let cpus = riscv64::cpus_node_tokens(num_vcpus as nat, *regs);
                let aplic = riscv64::aplic_node_tokens();
                let imsic = riscv64::imsic_node_tokens(num_vcpus as nat);
                lemma_history_prefix(c0 + cpus, aplic + imsic);
                assert(c0 + fdt_cpu_irq_tokens(*target, num_vcpus) =~= (c0 + cpus) + (aplic + imsic));
                lemma_history_prefix(c0 + cpus + aplic, imsic);
                assert(c0 + fdt_cpu_irq_tokens(*target, num_vcpus) =~= (c0 + cpus + aplic) + imsic);
            }
            riscv64::create_cpu_nodes(fdt, num_vcpus, regs)?;
            riscv64::create_aplic_node(fdt)?;
            riscv64::create_imsic_node(fdt, num_vcpus)?;
        },
    }
    assert(fdt_contents(*fdt) =~= c0 + fdt_cpu_irq_tokens(*target, num_vcpus));
    Ok(())
}

proof fn lemma_virtio_nodes_facts(arch: FdtArch, devices: Seq<(u64, u64, u32)>, n: nat)
    ensures
        fdt_depth(fdt_repeat(n, fdt_virtio_fn(arch, devices))) == 0,
        fdt_healthy(fdt_repeat(n, fdt_virtio_fn(arch, devices))),
        fdt_phandles(fdt_repeat(n, fdt_virtio_fn(arch, devices))) == Set::<u32>::empty(),
        fdt_repeat(n + 1, fdt_virtio_fn(arch, devices)) == fdt_repeat(n, fdt_virtio_fn(arch, devices))
            + virtio_node_tokens(arch, devices[n as int].0, devices[n as int].1, devices[n as int].2),
    decreases n,
{
    let f = fdt_virtio_fn(arch, devices);
    assert forall|k: nat| k < n implies fdt_depth(#[trigger] f(k)) == 0 && fdt_healthy(f(k)) by {
        assert(f(k) == virtio_node_tokens(arch, devices[k as int].0, devices[k as int].1, devices[k as int].2));
    }
    lemma_repeat_depth(n, f);
    lemma_repeat_healthy(n, f);
    assert(f(n) == virtio_node_tokens(arch, devices[n as int].0, devices[n as int].1, devices[n as int].2));
    if n > 0 {
        lemma_virtio_nodes_facts(arch, devices, (n - 1) as nat);
        let k = (n - 1) as nat;
        assert(f(k) == virtio_node_tokens(arch, devices[k as int].0, devices[k as int].1, devices[k as int].2));
        assert(fdt_phandles(f(k)) =~= Set::<u32>::empty());
        assert(fdt_phandles(fdt_repeat(n, f)) =~= Set::<u32>::empty());
    }
}

proof fn lemma_device_facts(b: FdtBuilderView, t: FdtTarget, num_vcpus: u32)
    ensures
        fdt_depth(fdt_device_tokens(b, t, num_vcpus)) == 0,
        fdt_healthy(fdt_device_tokens(b, t, num_vcpus)),
{
    lemma_virtio_nodes_facts(fdt_arch(t), b.virtio_devices, b.virtio_devices.len());
}

proof fn lemma_console_facts(b: FdtBuilderView, arch: FdtArch)
    ensures
        fdt_depth(fdt_console_tokens(b, arch)) == 0,
        fdt_healthy(fdt_console_tokens(b, arch)),
{
}

proof fn lemma_arch_device_facts(t: FdtTarget, num_vcpus: u32)
    ensures
        fdt_depth(fdt_arch_device_tokens(t, num_vcpus)) == 0,
        fdt_healthy(fdt_arch_device_tokens(t, num_vcpus)),
        fdt_phandles(fdt_arch_device_tokens(t, num_vcpus)) == Set::<u32>::empty(),
{
    assert(fdt_phandles(fdt_arch_device_tokens(t, num_vcpus)) =~= Set::<u32>::empty());
}

/// Writes the timer, PSCI and PMU nodes of an ARM64 guest.
fn create_arch_device_nodes(fdt: &mut FdtWriter, target: &FdtTarget, num_vcpus: u32) -> (r: Result<(), vm_fdt::Error>)
    requires
        *target is Aarch64 ==> num_vcpus < 32,
    ensures
        r is Ok ==> fdt_contents(*final(fdt)) == fdt_contents(*old(fdt)) + fdt_arch_device_tokens(*target, num_vcpus),
        fdt_history_ok(fdt_contents(*old(fdt))) ==> (r is Ok <==> fdt_history_ok(fdt_contents(*old(fdt)) + fdt_arch_device_tokens(*target, num_vcpus))),
        fdt_child_ready(fdt_contents(*old(fdt)), 1) && fdt_size_bound(fdt_contents(*old(fdt)) + fdt_arch_device_tokens(*target, num_vcpus)) <= FDT_SIZE_LIMIT ==> r is Ok,
{
    let ghost c0 = fdt_contents(*fdt);
    match target {
        FdtTarget::Aarch64 => {
            proof {
                let timer = aarch64::timer_node_tokens(num_vcpus);
                let psci = aarch64::psci_node_tokens();
                let pmu = aarch64::pmu_node_tokens(num_vcpus);
                lemma_history_prefix(c0 + timer, psci + pmu);
                assert(c0 + fdt_arch_device_tokens(*target, num_vcpus) =~= (c0 + timer) + (psci + pmu));
                lemma_history_prefix(c0 + timer + psci, pmu);
                assert(c0 + fdt_arch_device_tokens(*target, num_vcpus) =~= (c0 + timer + psci) + pmu);
            }
            aarch64::create_timer_node(fdt, num_vcpus)?;
            aarch64::create_psci_node(fdt)?;
            aarch64::create_pmu_node(fdt, num_vcpus)?;
        },
        FdtTarget::Riscv64(_) => {},
    }
    assert(fdt_contents(*fdt) =~= c0 + fdt_arch_device_tokens(*target, num_vcpus));
    Ok(())
}

// ----------------------------------------------------------------------------
// What holds of every device tree.

/// The node of vCPU `i`.
pub open spec fn fdt_vcpu_node_tokens(t: FdtTarget, i: nat) -> Seq<FdtToken> {
    match t {
        FdtTarget::Aarch64 => aarch64::cpu_node_tokens(i),
        FdtTarget::Riscv64(regs) => riscv64::cpu_node_tokens(i, regs),
    }
}

/// Every node that the device tree opens is closed, and every call on the
/// writer succeeds.
pub proof fn law_fdt_closes_every_node(b: FdtBuilderView, t: FdtTarget)
    requires
        fdt_config_complete(b),
    ensures
        fdt_depth(fdt_expected_tokens(b, t)) == 0,
        fdt_healthy(fdt_expected_tokens(b, t)),
{
    lemma_expected_tokens(b, t);
    lemma_root_head_facts(t);
    lemma_cpu_irq_facts(t, b.num_vcpus.unwrap());
    lemma_device_facts(b, t, b.num_vcpus.unwrap());
}

/// The device tree describes every vCPU: it holds the node of vCPU `i` for
/// each `i` below the number of vCPUs.
#[verifier::spinoff_prover]
#[verifier::rlimit(50)]
pub proof fn law_fdt_lists_every_vcpu(b: FdtBuilderView, t: FdtTarget, i: nat)
    requires
        fdt_config_complete(b),
        i < b.num_vcpus.unwrap(),
    ensures
        fdt_contains_run(fdt_expected_tokens(b, t), fdt_vcpu_node_tokens(t, i)),
{
    lemma_expected_tokens(b, t);
    let n = b.num_vcpus.unwrap();
    let post_devices = fdt_device_tokens(b, t, n) + seq![FdtToken::EndNode];
    match t {
        FdtTarget::Aarch64 => {
            let f = aarch64::cpu_node_fn();
            lemma_repeat_contains(i, n as nat, f);
            assert(f(i) == aarch64::cpu_node_tokens(i));
            let pre = fdt_tokens_through_memory(b, t) + aarch64::cpus_head_tokens();
            let post = seq![FdtToken::EndNode] + aarch64::gic_node_tokens(true, n as u64) + post_devices;
            lemma_contains_run_extend(fdt_repeat(n as nat, f), f(i), pre, post);
            assert(pre + fdt_repeat(n as nat, f) + post =~= fdt_expected_tokens(b, t));
        },
        FdtTarget::Riscv64(regs) => {
            let f = riscv64::cpu_node_fn(regs);
            lemma_repeat_contains(i, n as nat, f);
            assert(f(i) == riscv64::cpu_node_tokens(i, regs));
            let pre = fdt_tokens_through_memory(b, t) + riscv64::cpus_head_tokens(regs);
            let post = seq![FdtToken::EndNode] + riscv64::aplic_node_tokens() + riscv64::imsic_node_tokens(n as nat) + post_devices;
            lemma_contains_run_extend(fdt_repeat(n as nat, f), f(i), pre, post);
            assert(pre + fdt_repeat(n as nat, f) + post =~= fdt_expected_tokens(b, t));
        },
    }
}

/// The device tree describes every virtio-mmio device that was added: it holds
/// the node of device `k` for each `k` below the number added.
#[verifier::spinoff_prover]
#[verifier::rlimit(50)]
pub proof fn law_fdt_lists_every_virtio_device(b: FdtBuilderView, t: FdtTarget, k: nat)
    requires
        fdt_config_complete(b),
        k < b.virtio_devices.len(),
    ensures
        fdt_contains_run(
            fdt_expected_tokens(b, t),
            virtio_node_tokens(fdt_arch(t), b.virtio_devices[k as int].0, b.virtio_devices[k as int].1, b.virtio_devices[k as int].2),
        ),
{
    lemma_expected_tokens(b, t);
    let n = b.num_vcpus.unwrap();
    let f = fdt_virtio_fn(fdt_arch(t), b.virtio_devices);
    lemma_repeat_contains(k, b.virtio_devices.len(), f);
    let pre = fdt_tokens_through_memory(b, t) + fdt_cpu_irq_tokens(t, n) + fdt_console_tokens(b, fdt_arch(t)) + fdt_arch_device_tokens(t, n);
    let post = seq![FdtToken::EndNode];
    lemma_contains_run_extend(fdt_repeat(b.virtio_devices.len(), f), f(k), pre, post);
    assert(pre + fdt_repeat(b.virtio_devices.len(), f) + post =~= fdt_expected_tokens(b, t));
}

/// How a RISC-V device tree wires its interrupts: it holds the APLIC node, with
/// phandle 0xd and the IMSIC as MSI parent, and the IMSIC node, with phandle 9,
/// whose `interrupts-extended` pairs the local interrupt controller of each
/// vCPU `i` (phandle `1 + i`, in the node of vCPU `i`) with the supervisor
/// external interrupt.  The serial port, RTC and virtio-mmio nodes name the
/// APLIC as their interrupt parent.
#[verifier::spinoff_prover]
#[verifier::rlimit(50)]
pub proof fn law_riscv_interrupt_wiring(b: FdtBuilderView, regs: RiscvVcpuRegs)
    requires
        fdt_config_complete(b),
    ensures
        fdt_contains_run(fdt_expected_tokens(b, FdtTarget::Riscv64(regs)), riscv64::aplic_node_tokens()),
        riscv64::aplic_node_tokens().contains(FdtToken::Phandle(PHANDLE_APLIC)),
        riscv64::aplic_node_tokens().contains(FdtToken::U32("msi-parent"@, PHANDLE_IMSIC)),
        fdt_contains_run(
            fdt_expected_tokens(b, FdtTarget::Riscv64(regs)),
            riscv64::imsic_node_tokens(b.num_vcpus.unwrap() as nat),
        ),
        riscv64::imsic_node_tokens(b.num_vcpus.unwrap() as nat).contains(FdtToken::Phandle(PHANDLE_IMSIC)),
        riscv64::imsic_node_tokens(b.num_vcpus.unwrap() as nat).contains(
            FdtToken::ArrayU32("interrupts-extended"@, riscv64::imsic_cells(b.num_vcpus.unwrap() as nat)),
        ),
        riscv64::imsic_cells(b.num_vcpus.unwrap() as nat).len() == 2 * b.num_vcpus.unwrap(),
        forall|i: int| 0 <= i < b.num_vcpus.unwrap() ==> #[trigger] riscv64::imsic_cells(b.num_vcpus.unwrap() as nat)[2 * i] == 1 + i
            && riscv64::imsic_cells(b.num_vcpus.unwrap() as nat)[2 * i + 1] == IRQ_S_EXT,
        forall|i: nat| i < b.num_vcpus.unwrap() ==> #[trigger] riscv64::cpu_node_tokens(i, regs).contains(
            FdtToken::Phandle((1 + i) as u32),
        ),
        forall|addr: u64, size: u64| #[trigger] serial_node_tokens(FdtArch::Riscv64, addr, size).contains(
            FdtToken::U32("interrupt-parent"@, PHANDLE_APLIC),
        ),
        forall|addr: u64, size: u64| #[trigger] rtc_node_tokens(FdtArch::Riscv64, addr, size).contains(
            FdtToken::U32("interrupt-parent"@, PHANDLE_APLIC),
        ),
        forall|addr: u64, size: u64, irq: u32| #[trigger] virtio_node_tokens(FdtArch::Riscv64, addr, size, irq).contains(
            FdtToken::ArrayU32("interrupt-parent"@, seq![PHANDLE_APLIC]),
        ),
{
    lemma_riscv_irq_nodes_in_tree(b, regs);
    lemma_riscv_wiring_facts(b.num_vcpus.unwrap() as nat, regs);
}

#[verifier::spinoff_prover]
#[verifier::rlimit(50)]
proof fn lemma_riscv_irq_nodes_in_tree(b: FdtBuilderView, regs: RiscvVcpuRegs)
    requires
        fdt_config_complete(b),
    ensures
        fdt_contains_run(fdt_expected_tokens(b, FdtTarget::Riscv64(regs)), riscv64::aplic_node_tokens()),
        fdt_contains_run(
            fdt_expected_tokens(b, FdtTarget::Riscv64(regs)),
            riscv64::imsic_node_tokens(b.num_vcpus.unwrap() as nat),
        ),
{
    let t = FdtTarget::Riscv64(regs);
    let n = b.num_vcpus.unwrap();
    lemma_expected_tokens(b, t);
    let aplic = riscv64::aplic_node_tokens();
    let imsic = riscv64::imsic_node_tokens(n as nat);
    let mid = aplic + imsic;
    let pre = fdt_tokens_through_memory(b, t) + riscv64::cpus_node_tokens(n as nat, regs);
    let post = fdt_device_tokens(b, t, n) + seq![FdtToken::EndNode];
    assert(fdt_contains_run(mid, aplic)) by {
        assert(mid.subrange(0int, 0int + aplic.len()) =~= aplic);
    }
    assert(fdt_contains_run(mid, imsic)) by {
        assert(mid.subrange(aplic.len() as int, (aplic.len() as int) + imsic.len()) =~= imsic);
    }
    lemma_contains_run_extend(mid, aplic, pre, post);
    lemma_contains_run_extend(mid, imsic, pre, post);
    assert(pre + mid + post =~= fdt_expected_tokens(b, t));
}

#[verifier::spinoff_prover]
#[verifier::rlimit(50)]
proof fn lemma_riscv_wiring_facts(n: nat, regs: RiscvVcpuRegs)
    requires
        n <= u32::MAX,
    ensures
        riscv64::aplic_node_tokens().contains(FdtToken::Phandle(PHANDLE_APLIC)),
        riscv64::aplic_node_tokens().contains(FdtToken::U32("msi-parent"@, PHANDLE_IMSIC)),
        riscv64::imsic_node_tokens(n).contains(FdtToken::Phandle(PHANDLE_IMSIC)),
        riscv64::imsic_node_tokens(n).contains(FdtToken::ArrayU32("interrupts-extended"@, riscv64::imsic_cells(n))),
        riscv64::imsic_cells(n).len() == 2 * n,
        forall|i: int| 0 <= i < n ==> #[trigger] riscv64::imsic_cells(n)[2 * i] == 1 + i
            && riscv64::imsic_cells(n)[2 * i + 1] == IRQ_S_EXT,
        forall|i: nat| i < n ==> #[trigger] riscv64::cpu_node_tokens(i, regs).contains(FdtToken::Phandle((1 + i) as u32)),
        forall|addr: u64, size: u64| #[trigger] serial_node_tokens(FdtArch::Riscv64, addr, size).contains(
            FdtToken::U32("interrupt-parent"@, PHANDLE_APLIC),
        ),
        forall|addr: u64, size: u64| #[trigger] rtc_node_tokens(FdtArch::Riscv64, addr, size).contains(
            FdtToken::U32("interrupt-parent"@, PHANDLE_APLIC),
        ),
        forall|addr: u64, size: u64, irq: u32| #[trigger] virtio_node_tokens(FdtArch::Riscv64, addr, size, irq).contains(
            FdtToken::ArrayU32("interrupt-parent"@, seq![PHANDLE_APLIC]),
        ),
{
    let aplic = riscv64::aplic_node_tokens();
    let imsic = riscv64::imsic_node_tokens(n);
    assert(aplic[1] == FdtToken::Phandle(PHANDLE_APLIC));
    assert(aplic[3] == FdtToken::U32("msi-parent"@, PHANDLE_IMSIC));
    assert(imsic[7] == FdtToken::Phandle(PHANDLE_IMSIC));
    assert(imsic[2] == FdtToken::ArrayU32("interrupts-extended"@, riscv64::imsic_cells(n)));
    assert forall|i: int| 0 <= i < n implies #[trigger] riscv64::imsic_cells(n)[2 * i] == 1 + i
        && riscv64::imsic_cells(n)[2 * i + 1] == IRQ_S_EXT by {
        assert((2 * i) % 2 == 0 && (2 * i) / 2 == i);
        assert((2 * i + 1) % 2 == 1);
    }
    assert forall|i: nat| i < n implies #[trigger] riscv64::cpu_node_tokens(i, regs).contains(
        FdtToken::Phandle((1 + i) as u32),
    ) by {
        let c = riscv64::cpu_node_tokens(i, regs);
        let tail = riscv64::cpu_node_tail_tokens(i);
        let k = c.len() - 3;
        assert(c[k] == tail[6]);
    }
    assert forall|addr: u64, size: u64| #[trigger] serial_node_tokens(FdtArch::Riscv64, addr, size).contains(
        FdtToken::U32("interrupt-parent"@, PHANDLE_APLIC),
    ) by {
        assert(serial_node_tokens(FdtArch::Riscv64, addr, size)[2] == FdtToken::U32("interrupt-parent"@, PHANDLE_APLIC));
    }
    assert forall|addr: u64, size: u64| #[trigger] rtc_node_tokens(FdtArch::Riscv64, addr, size).contains(
        FdtToken::U32("interrupt-parent"@, PHANDLE_APLIC),
    ) by {
        let r = rtc_node_tokens(FdtArch::Riscv64, addr, size);
        let k = r.len() - 3;
        assert(r[k] == FdtToken::U32("interrupt-parent"@, PHANDLE_APLIC));
    }
    assert forall|addr: u64, size: u64, irq: u32| #[trigger] virtio_node_tokens(FdtArch::Riscv64, addr, size, irq).contains(
        FdtToken::ArrayU32("interrupt-parent"@, seq![PHANDLE_APLIC]),
    ) by {
        assert(virtio_node_tokens(FdtArch::Riscv64, addr, size, irq)[4] == FdtToken::ArrayU32("interrupt-parent"@, seq![PHANDLE_APLIC]));
    }
}

/// A run of calls occurs in itself.
proof fn lemma_contains_run_self(x: Seq<FdtToken>)
    ensures
        fdt_contains_run(x, x),
{
    assert(x.subrange(0int, 0int + x.len()) =~= x);
}

/// The `memory` node describes guest RAM as it is: the tree of settings with a
/// memory size holds a `memory` node whose unit address is the start of RAM
/// (0x80000000, where `load_address` counts from) and whose `reg` is that start
/// followed by the memory size.
#[verifier::spinoff_prover]
#[verifier::rlimit(40)]
pub proof fn law_memory_node_describes_ram(b: FdtBuilderView, t: FdtTarget)
    requires
        fdt_config_complete(b),
    ensures
        fdt_phys_mem_start(t) == 0x8000_0000,
        fdt_contains_run(fdt_expected_tokens(b, t), memory_node_tokens(fdt_phys_mem_start(t), b.mem_size.unwrap())),
        memory_node_tokens(fdt_phys_mem_start(t), b.mem_size.unwrap())[0]
            == FdtToken::BeginNode(unit_name("memory"@, fdt_phys_mem_start(t) as nat)),
        memory_node_tokens(fdt_phys_mem_start(t), b.mem_size.unwrap()).contains(
            FdtToken::ArrayU64("reg"@, seq![fdt_phys_mem_start(t), b.mem_size.unwrap()]),
        ),
{
    lemma_memory_in_tree(b, t);
    let start = fdt_phys_mem_start(t);
    let mem = memory_node_tokens(start, b.mem_size.unwrap());
    assert(mem[2] == FdtToken::ArrayU64("reg"@, seq![start, b.mem_size.unwrap()]));
}

#[verifier::spinoff_prover]
#[verifier::rlimit(40)]
proof fn lemma_memory_in_tree(b: FdtBuilderView, t: FdtTarget)
    requires
        fdt_config_complete(b),
    ensures
        fdt_contains_run(fdt_expected_tokens(b, t), memory_node_tokens(fdt_phys_mem_start(t), b.mem_size.unwrap())),
{
    lemma_expected_tokens(b, t);
    let mem = memory_node_tokens(fdt_phys_mem_start(t), b.mem_size.unwrap());
    let rest = fdt_cpu_irq_tokens(t, b.num_vcpus.unwrap()) + fdt_device_tokens(b, t, b.num_vcpus.unwrap());
    let post = rest + seq![FdtToken::EndNode];
    lemma_contains_run_self(mem);
    lemma_contains_run_extend(mem, mem, fdt_tokens_through_chosen(b, t), post);
    assert(fdt_expected_tokens(b, t) =~= fdt_tokens_through_memory(b, t) + rest + seq![FdtToken::EndNode]);
    assert(fdt_tokens_through_chosen(b, t) + mem + post =~= fdt_tokens_through_memory(b, t) + rest + seq![FdtToken::EndNode]);
}

/// The GICv3 node lays the redistributors of all vCPUs just below the
/// distributor: its `reg` is the distributor's base and size, then a range of
/// one redistributor per vCPU that ends exactly at the distributor's base.
pub proof fn law_gic_redistributors_below_distributor(num_cpus: u64)
    requires
        AARCH64_GIC_REDIST_SIZE * num_cpus <= AARCH64_GIC_DIST_BASE,
    ensures
        aarch64::gic_node_tokens(true, num_cpus).contains(
            FdtToken::ArrayU64("reg"@, aarch64::gic_reg_cells(true, num_cpus)),
        ),
        aarch64::gic_reg_cells(true, num_cpus).len() == 4,
        aarch64::gic_reg_cells(true, num_cpus)[0] == AARCH64_GIC_DIST_BASE,
        aarch64::gic_reg_cells(true, num_cpus)[1] == AARCH64_GIC_DIST_SIZE,
        aarch64::gic_reg_cells(true, num_cpus)[3] == AARCH64_GIC_REDIST_SIZE * num_cpus,
        aarch64::gic_reg_cells(true, num_cpus)[2] + aarch64::gic_reg_cells(true, num_cpus)[3] == AARCH64_GIC_DIST_BASE,
{
    assert(aarch64::gic_node_tokens(true, num_cpus)[4] == FdtToken::ArrayU64("reg"@, aarch64::gic_reg_cells(true, num_cpus)));
}

/// The ARM64 tree holds the GICv3 node of its vCPUs.
#[verifier::spinoff_prover]
#[verifier::rlimit(40)]
pub proof fn law_fdt_holds_gic_of_its_vcpus(b: FdtBuilderView)
    requires
        fdt_config_complete(b),
    ensures
        fdt_contains_run(fdt_expected_tokens(b, FdtTarget::Aarch64), aarch64::gic_node_tokens(true, b.num_vcpus.unwrap() as u64)),
{
    let t = FdtTarget::Aarch64;
    let n = b.num_vcpus.unwrap();
    lemma_expected_tokens(b, t);
    let gic = aarch64::gic_node_tokens(true, n as u64);
    lemma_contains_run_self(gic);
    let pre = fdt_tokens_through_memory(b, t) + aarch64::cpus_node_tokens(n as nat);
    let post = fdt_device_tokens(b, t, n) + seq![FdtToken::EndNode];
    lemma_contains_run_extend(gic, gic, pre, post);
    assert(pre + gic + post =~= fdt_expected_tokens(b, t));
}

/// Each RISC-V vCPU node gives the paging mode that `satp_mode` encodes:
/// 8 is Sv39, 9 is Sv48, 10 is Sv57, and any other value none.
pub proof fn law_riscv_mmu_type(cpu_id: nat, regs: RiscvVcpuRegs)
    ensures
        regs.satp_mode == 8 ==> riscv64::cpu_node_tokens(cpu_id, regs).contains(FdtToken::Str("mmu-type"@, "riscv,sv39"@)),
        regs.satp_mode == 9 ==> riscv64::cpu_node_tokens(cpu_id, regs).contains(FdtToken::Str("mmu-type"@, "riscv,sv48"@)),
        regs.satp_mode == 10 ==> riscv64::cpu_node_tokens(cpu_id, regs).contains(FdtToken::Str("mmu-type"@, "riscv,sv57"@)),
        !(8 <= regs.satp_mode <= 10) ==> riscv64::cpu_node_tokens(cpu_id, regs).contains(
            FdtToken::Str("mmu-type"@, "riscv,none"@),
        ),
{
    let node = riscv64::cpu_node_tokens(cpu_id, regs);
    assert(node[3] == FdtToken::Str("mmu-type"@, riscv64::mmu_type(regs.satp_mode)));
}

/// The node of a virtio-mmio device describes it as it was added: its unit
/// address and `reg` are the device's address and size, and its interrupt is
/// the device's `irq` (an SPI, rising edge, on ARM64; an APLIC source, level
/// high, on RISC-V).
pub proof fn law_virtio_node_describes_device(addr: u64, size: u64, irq: u32)
    ensures
        virtio_node_tokens(FdtArch::Aarch64, addr, size, irq)[0] == FdtToken::BeginNode(unit_name("virtio_mmio"@, addr as nat)),
        virtio_node_tokens(FdtArch::Riscv64, addr, size, irq)[0] == FdtToken::BeginNode(unit_name("virtio_mmio"@, addr as nat)),
        virtio_node_tokens(FdtArch::Aarch64, addr, size, irq).contains(FdtToken::ArrayU64("reg"@, seq![addr, size])),
        virtio_node_tokens(FdtArch::Riscv64, addr, size, irq).contains(FdtToken::ArrayU64("reg"@, seq![addr, size])),
        virtio_node_tokens(FdtArch::Aarch64, addr, size, irq).contains(
            FdtToken::ArrayU32("interrupts"@, seq![GIC_FDT_IRQ_TYPE_SPI, irq, IRQ_TYPE_EDGE_RISING]),
        ),
        virtio_node_tokens(FdtArch::Riscv64, addr, size, irq).contains(
            FdtToken::ArrayU32("interrupts"@, seq![irq, IRQ_TYPE_LEVEL_HIGH]),
        ),
{
    let a = virtio_node_tokens(FdtArch::Aarch64, addr, size, irq);
    let r = virtio_node_tokens(FdtArch::Riscv64, addr, size, irq);
    assert(a[2] == FdtToken::ArrayU64("reg"@, seq![addr, size]));
    assert(r[2] == FdtToken::ArrayU64("reg"@, seq![addr, size]));
    assert(a[3] == FdtToken::ArrayU32("interrupts"@, seq![GIC_FDT_IRQ_TYPE_SPI, irq, IRQ_TYPE_EDGE_RISING]));
    assert(r[3] == FdtToken::ArrayU32("interrupts"@, seq![irq, IRQ_TYPE_LEVEL_HIGH]));
}

/// The RTC node describes the RTC as it was set: its unit address and `reg`
/// are the address and size given to `with_rtc`, and the tree of settings
/// with an RTC holds that node.
#[verifier::spinoff_prover]
#[verifier::rlimit(40)]
pub proof fn law_rtc_node_describes_rtc(b: FdtBuilderView, t: FdtTarget)
    requires
        fdt_config_complete(b),
        b.rtc is Some,
    ensures
        fdt_contains_run(fdt_expected_tokens(b, t), rtc_node_tokens(fdt_arch(t), b.rtc.unwrap().0, b.rtc.unwrap().1)),
        rtc_node_tokens(fdt_arch(t), b.rtc.unwrap().0, b.rtc.unwrap().1).contains(
            FdtToken::BeginNode(unit_name("rtc"@, b.rtc.unwrap().0 as nat)),
        ),
        rtc_node_tokens(fdt_arch(t), b.rtc.unwrap().0, b.rtc.unwrap().1).contains(
            FdtToken::ArrayU64("reg"@, seq![b.rtc.unwrap().0, b.rtc.unwrap().1]),
        ),
{
    let (addr, size) = b.rtc.unwrap();
    let arch = fdt_arch(t);
    let rtc = rtc_node_tokens(arch, addr, size);
    lemma_rtc_in_tree(b, t);
    let k = nodes::clock_node_tokens().len() as int;
    assert(rtc[k] == FdtToken::BeginNode(unit_name("rtc"@, addr as nat)));
    assert(rtc[k + 2] == FdtToken::ArrayU64("reg"@, seq![addr, size]));
}

#[verifier::spinoff_prover]
#[verifier::rlimit(40)]
proof fn lemma_rtc_in_tree(b: FdtBuilderView, t: FdtTarget)
    requires
        fdt_config_complete(b),
        b.rtc is Some,
    ensures
        fdt_contains_run(fdt_expected_tokens(b, t), rtc_node_tokens(fdt_arch(t), b.rtc.unwrap().0, b.rtc.unwrap().1)),
{
    let (addr, size) = b.rtc.unwrap();
    let arch = fdt_arch(t);
    let n = b.num_vcpus.unwrap();
    let rtc = rtc_node_tokens(arch, addr, size);
    let serial = match b.serial_console {
        Some(s) => serial_node_tokens(arch, s.0, s.1),
        None => Seq::<FdtToken>::empty(),
    };
    let empty = Seq::<FdtToken>::empty();
    let console = fdt_console_tokens(b, arch);
    let rest = fdt_arch_device_tokens(t, n) + fdt_repeat(b.virtio_devices.len(), fdt_virtio_fn(arch, b.virtio_devices));
    let devices = fdt_device_tokens(b, t, n);
    let head = fdt_tokens_through_memory(b, t) + fdt_cpu_irq_tokens(t, n);
    lemma_contains_run_self(rtc);
    lemma_contains_run_extend(rtc, rtc, serial, empty);
    assert(serial + rtc + empty =~= console);
    lemma_contains_run_extend(console, rtc, empty, rest);
    assert(empty + console + rest =~= devices);
    lemma_contains_run_extend(devices, rtc, head, seq![FdtToken::EndNode]);
    lemma_expected_tokens(b, t);
}

/// The serial port node describes the port as it was set: its unit address
/// and `reg` are the address and size given to `with_serial_console`, and on
/// RISC-V its interrupt is APLIC source 4, level high.
pub proof fn law_serial_node_describes_port(addr: u64, size: u64)
    ensures
        serial_node_tokens(FdtArch::Aarch64, addr, size)[0] == FdtToken::BeginNode(unit_name("uart"@, addr as nat)),
        serial_node_tokens(FdtArch::Riscv64, addr, size)[0] == FdtToken::BeginNode(unit_name("serial"@, addr as nat)),
        serial_node_tokens(FdtArch::Aarch64, addr, size).contains(FdtToken::ArrayU64("reg"@, seq![addr, size])),
        serial_node_tokens(FdtArch::Riscv64, addr, size).contains(FdtToken::ArrayU64("reg"@, seq![addr, size])),
        serial_node_tokens(FdtArch::Riscv64, addr, size).contains(FdtToken::ArrayU32("interrupts"@, seq![4, IRQ_TYPE_LEVEL_HIGH])),
{
    assert(serial_node_tokens(FdtArch::Aarch64, addr, size)[2] == FdtToken::ArrayU64("reg"@, seq![addr, size]));
    assert(serial_node_tokens(FdtArch::Riscv64, addr, size)[4] == FdtToken::ArrayU64("reg"@, seq![addr, size]));
    assert(serial_node_tokens(FdtArch::Riscv64, addr, size)[1] == FdtToken::ArrayU32("interrupts"@, seq![4, IRQ_TYPE_LEVEL_HIGH]));
}

/// The node of vCPU `i` is named after `i` in hexadecimal and has `reg` `i`,
/// on both architectures.
pub proof fn law_cpu_node_numbers_vcpu(i: nat, regs: RiscvVcpuRegs)
    requires
        i <= u32::MAX,
    ensures
        aarch64::cpu_node_tokens(i)[0] == FdtToken::BeginNode(unit_name("cpu"@, i)),
        riscv64::cpu_node_tokens(i, regs)[0] == FdtToken::BeginNode(unit_name("cpu"@, i)),
        aarch64::cpu_node_tokens(i).contains(FdtToken::U32("reg"@, i as u32)),
        riscv64::cpu_node_tokens(i, regs).contains(FdtToken::U32("reg"@, i as u32)),
        i as u32 == i,
{
    assert(aarch64::cpu_node_tokens(i)[2] == FdtToken::U32("reg"@, i as u32));
    let node = riscv64::cpu_node_tokens(i, regs);
    let k = riscv64::cpu_node_head_tokens(i, regs).len() + riscv64::cbo_block_size_tokens(regs).len();
    assert(node[k as int] == FdtToken::U32("reg"@, i as u32));
}

proof fn lemma_root_head_history(t: FdtTarget)
    ensures
        fdt_history_ok(fdt_root_head_tokens(t)),
{
    broadcast use group_fdt_acceptance;
    reveal(fdt_property_accepted);
    reveal_strlit("");
    reveal_strlit("interrupt-parent");
    reveal_strlit("#address-cells");
    reveal_strlit("#size-cells");
    reveal_strlit("compatible");
    reveal_strlit("riscv-virtio");
    reveal_strlit("model");
    reveal_strlit("linux,dummy-virt");
    lemma_root_head_facts(t);
}

/// The writer accepts the root node's head and the `chosen` node when the
/// command line holds no NUL and its `bootargs` value fits in 32 bits.
proof fn lemma_chosen_history(b: FdtBuilderView, t: FdtTarget)
    requires
        b.cmdline matches Some(c) && fdt_nul_free(c) && fdt_utf8_len(c) < u32::MAX,
    ensures
        fdt_history_ok(fdt_tokens_through_chosen(b, t)),
{
    broadcast use group_fdt_acceptance;
    lemma_root_head_history(t);
    lemma_root_head_facts(t);
    reveal(fdt_property_accepted);
    reveal_strlit("chosen");
    reveal_strlit("bootargs");
    let root = fdt_root_head_tokens(t);
    let c = b.cmdline.unwrap();
    assert(fdt_tokens_through_chosen(b, t) =~= root.push(FdtToken::BeginNode("chosen"@))
        .push(FdtToken::Str("bootargs"@, c)).push(FdtToken::EndNode));
}

/// The writer accepts the `memory` node after the `chosen` node.
#[verifier::spinoff_prover]
#[verifier::rlimit(40)]
proof fn lemma_memory_history(b: FdtBuilderView, t: FdtTarget)
    requires
        b.cmdline matches Some(c) && fdt_nul_free(c) && fdt_utf8_len(c) < u32::MAX,
        b.mem_size is Some,
    ensures
        fdt_history_ok(fdt_tokens_through_memory(b, t)),
{
    broadcast use group_fdt_acceptance;
    lemma_chosen_history(b, t);
    lemma_root_head_facts(t);
    reveal(fdt_property_accepted);
    reveal_strlit("chosen");
    reveal_strlit("bootargs");
    reveal_strlit("memory");
    reveal_strlit("device_type");
    reveal_strlit("reg");
    let start = fdt_phys_mem_start(t);
    lemma_unit_name_ok("memory"@, start as nat);
    let chosen = fdt_tokens_through_chosen(b, t);
    assert(fdt_depth(chosen) == 1);
    assert(fdt_names_len(chosen) <= 1000);
    let m0 = chosen.push(FdtToken::BeginNode(unit_name("memory"@, start as nat)));
    assert(fdt_history_ok(m0));
    let m1 = m0.push(FdtToken::Str("device_type"@, "memory"@));
    assert(fdt_history_ok(m1));
    let m2 = m1.push(FdtToken::ArrayU64("reg"@, seq![start, b.mem_size.unwrap()]));
    assert(fdt_history_ok(m2));
    assert(fdt_tokens_through_memory(b, t) =~= chosen.push(FdtToken::BeginNode(unit_name("memory"@, start as nat)))
        .push(FdtToken::Str("device_type"@, "memory"@)).push(FdtToken::ArrayU64("reg"@, seq![start, b.mem_size.unwrap()]))
        .push(FdtToken::EndNode));
}

/// A missing memory size or vCPU count is named, however long the command line,
/// as long as it holds no NUL and its `bootargs` value fits in 32 bits: the
/// writer accepts every node before the check.
pub proof fn law_missing_setting_named(b: FdtBuilderView, t: FdtTarget)
    requires
        b.cmdline matches Some(c) && fdt_nul_free(c) && fdt_utf8_len(c) < u32::MAX,
    ensures
        b.mem_size is None ==> fdt_build_outcome(b, t) == FdtOutcome::MissingSetting("memory"@),
        b.mem_size is Some && b.num_vcpus is None ==> fdt_build_outcome(b, t) == FdtOutcome::MissingSetting("vcpu"@),
{
    lemma_chosen_history(b, t);
    if b.mem_size is Some {
        lemma_memory_history(b, t);
    }
}

// ----------------------------------------------------------------------------
// The builder.

impl Default for FdtBuilder {
    fn default() -> (r: Self)
        ensures
            r@ == fdt_builder_empty(),
    {
        FdtBuilder::new()
    }
}

impl FdtBuilder {
    /// A builder with no settings.
    pub fn new() -> (r: Self)
        ensures
            r@ == fdt_builder_empty(),
    {
        let r = FdtBuilder {
            cmdline: None,
            mem_size: None,
            num_vcpus: None,
            serial_console: None,
            rtc: None,
            virtio_devices: Vec::new(),
            prebuilt: None,
        };
        assert(r@.virtio_devices =~= Seq::<(u64, u64, u32)>::empty());
        r
    }

    /// Uses the given blob as the device tree, in place of building one.
    pub fn with_prebuilt_fdt(&mut self, fdt_blob: Vec<u8>) -> (r: &mut Self)
        ensures
            *final(self) == *final(r),
            r@ == fdt_builder_after(old(self)@, FdtBuilderCall::WithPrebuiltFdt(fdt_blob@)),
    {
        self.prebuilt = Some(Fdt { fdt_blob });
        self
    }

    /// A prebuilt blob is set.
    pub fn has_prebuilt_fdt(&self) -> (r: bool)
        ensures
            r == self@.prebuilt is Some,
    {
        self.prebuilt.is_some()
    }

    /// A copy of the prebuilt blob, if one is set.
    pub fn get_prebuilt_fdt(&self) -> (r: Option<Fdt>)
        ensures
            match self@.prebuilt {
                Some(blob) => r matches Some(f) && f@ == blob,
                None => r is None,
            },
    {
        match &self.prebuilt {
            Some(f) => Some(f.clone()),
            None => None,
        }
    }

    /// Sets the kernel command line.
    pub fn with_cmdline(&mut self, cmdline: String) -> (r: &mut Self)
        ensures
            *final(self) == *final(r),
            r@ == fdt_builder_after(old(self)@, FdtBuilderCall::WithCmdline(cmdline@)),
    {
        self.cmdline = Some(cmdline);
        self
    }

    /// Sets the size of guest RAM, in bytes.
    pub fn with_mem_size(&mut self, mem_size: u64) -> (r: &mut Self)
        ensures
            *final(self) == *final(r),
            r@ == fdt_builder_after(old(self)@, FdtBuilderCall::WithMemSize(mem_size)),
    {
        self.mem_size = Some(mem_size);
        self
    }

    /// Sets the number of vCPUs.
    pub fn with_num_vcpus(&mut self, num_vcpus: u32) -> (r: &mut Self)
        ensures
            *final(self) == *final(r),
            r@ == fdt_builder_after(old(self)@, FdtBuilderCall::WithNumVcpus(num_vcpus)),
    {
        self.num_vcpus = Some(num_vcpus);
        self
    }

    /// Sets the MMIO range of the serial port.
    pub fn with_serial_console(&mut self, addr: u64, size: u64) -> (r: &mut Self)
        ensures
            *final(self) == *final(r),
            r@ == fdt_builder_after(old(self)@, FdtBuilderCall::WithSerialConsole(addr, size)),
    {
        self.serial_console = Some((addr, size));
        self
    }

    /// Sets the MMIO range of the RTC.
    pub fn with_rtc(&mut self, addr: u64, size: u64) -> (r: &mut Self)
        ensures
            *final(self) == *final(r),
            r@ == fdt_builder_after(old(self)@, FdtBuilderCall::WithRtc(addr, size)),
    {
        self.rtc = Some((addr, size));
        self
    }

    /// Adds a virtio-mmio device after those already added.
    pub fn add_virtio_device(&mut self, addr: u64, size: u64, irq: u32) -> (r: &mut Self)
        ensures
            *final(self) == *final(r),
            r@ == fdt_builder_after(old(self)@, FdtBuilderCall::AddVirtioDevice(addr, size, irq)),
    {
        self.virtio_devices.push(DeviceInfo { addr, size, irq });
        assert(self@.virtio_devices =~= old(self)@.virtio_devices.push((addr, size, irq)));
        self
    }

    /// Writes the nodes of the virtio-mmio devices, in the order added.
    fn create_virtio_nodes(&self, fdt: &mut FdtWriter, arch: FdtArch) -> (r: Result<(), vm_fdt::Error>)
        ensures
            r is Ok ==> fdt_contents(*final(fdt)) == fdt_contents(*old(fdt)) + fdt_repeat(self@.virtio_devices.len(), fdt_virtio_fn(arch, self@.virtio_devices)),
            fdt_history_ok(fdt_contents(*old(fdt))) ==> (r is Ok <==> fdt_history_ok(fdt_contents(*old(fdt)) + fdt_repeat(self@.virtio_devices.len(), fdt_virtio_fn(arch, self@.virtio_devices)))),
            fdt_child_ready(fdt_contents(*old(fdt)), 1) && fdt_size_bound(fdt_contents(*old(fdt)) + fdt_repeat(self@.virtio_devices.len(), fdt_virtio_fn(arch, self@.virtio_devices))) <= FDT_SIZE_LIMIT ==> r is Ok,
    {
        let ghost c0 = fdt_contents(*fdt);
        let ghost devs = self@.virtio_devices;
        let ghost n = devs.len();
        let ghost owed = fdt_child_ready(c0, 1) && fdt_size_bound(c0 + fdt_repeat(n, fdt_virtio_fn(arch, devs))) <= FDT_SIZE_LIMIT;
        assert(fdt_contents(*fdt) =~= c0 + fdt_repeat(0, fdt_virtio_fn(arch, devs)));
        for i in 0..self.virtio_devices.len()
            invariant
                c0 == fdt_contents(*old(fdt)),
                devs == self@.virtio_devices,
                n == self.virtio_devices@.len(),
                owed == (fdt_child_ready(c0, 1) && fdt_size_bound(c0 + fdt_repeat(n, fdt_virtio_fn(arch, devs))) <= FDT_SIZE_LIMIT),
                fdt_contents(*fdt) == c0 + fdt_repeat(i as nat, fdt_virtio_fn(arch, devs)),
                fdt_history_ok(c0) ==> fdt_history_ok(fdt_contents(*fdt)),
        {
            let info = &self.virtio_devices[i];
            proof {
                lemma_virtio_nodes_facts(arch, devs, i as nat);
                lemma_repeat_size_mono(i as nat + 1, n, fdt_virtio_fn(arch, devs));
                assert(devs[i as int] == (info.addr, info.size, info.irq));
                lemma_history_repeat_prefix(c0, i as nat + 1, n, fdt_virtio_fn(arch, devs));
                assert(c0 + fdt_repeat(i as nat, fdt_virtio_fn(arch, devs)) + fdt_virtio_fn(arch, devs)(i as nat)
                    =~= c0 + fdt_repeat(i as nat + 1, fdt_virtio_fn(arch, devs)));
            }
            create_virtio_node(fdt, arch, info.addr, info.size, info.irq)?;
            assert(fdt_contents(*fdt) =~= c0 + fdt_repeat(i as nat + 1, fdt_virtio_fn(arch, devs)));
        }
        Ok(())
    }

    /// Writes the serial port and RTC nodes, where they are set.
    fn create_console_nodes(&self, fdt: &mut FdtWriter, arch: FdtArch) -> (r: Result<(), vm_fdt::Error>)
        ensures
            r is Ok ==> fdt_contents(*final(fdt)) == fdt_contents(*old(fdt)) + fdt_console_tokens(self@, arch),
            fdt_history_ok(fdt_contents(*old(fdt))) ==> (r is Ok <==> fdt_history_ok(fdt_contents(*old(fdt)) + fdt_console_tokens(self@, arch))),
            fdt_child_ready(fdt_contents(*old(fdt)), 1) && !fdt_phandles(fdt_contents(*old(fdt))).contains(CLK_PHANDLE)
                && fdt_size_bound(fdt_contents(*old(fdt)) + fdt_console_tokens(self@, arch)) <= FDT_SIZE_LIMIT ==> r is Ok,
    {
        let ghost c0 = fdt_contents(*fdt);
        let ghost b = self@;
        let ghost serial = match b.serial_console {
            Some(s) => serial_node_tokens(arch, s.0, s.1),
            None => Seq::<FdtToken>::empty(),
        };
        proof {
            assert(c0 + Seq::<FdtToken>::empty() =~= c0);
            assert(fdt_phandles(serial) =~= Set::<u32>::empty());
        }
        proof {
            lemma_history_prefix(c0 + serial, fdt_console_tokens(b, arch).skip(serial.len() as int));
            assert(c0 + fdt_console_tokens(b, arch) =~= (c0 + serial) + fdt_console_tokens(b, arch).skip(serial.len() as int));
        }
        if let Some(serial_console) = self.serial_console {
            create_serial_node(fdt, arch, serial_console.0, serial_console.1)?;
        }
        let ghost c1 = fdt_contents(*fdt);
        assert(c1 == c0 + serial);
        proof {
            assert(c1 + Seq::<FdtToken>::empty() =~= c1);
            assert(c0 + fdt_console_tokens(b, arch) =~= c1 + (fdt_console_tokens(b, arch).skip(serial.len() as int)));
            if let Some(rtc) = b.rtc {
                assert(fdt_console_tokens(b, arch).skip(serial.len() as int) =~= rtc_node_tokens(arch, rtc.0, rtc.1));
            }
        }
        if let Some(rtc) = self.rtc {
            create_rtc_node(fdt, arch, rtc.0, rtc.1)?;
        }
        assert(fdt_contents(*fdt) =~= c0 + fdt_console_tokens(b, arch));
        Ok(())
    }

    /// Writes the device nodes: serial port, RTC, the ARM64 devices and the
    /// virtio-mmio devices.
    fn create_device_nodes(&self, fdt: &mut FdtWriter, target: &FdtTarget, num_vcpus: u32) -> (r: Result<(), vm_fdt::Error>)
        requires
            *target is Aarch64 ==> num_vcpus < 32,
        ensures
            r is Ok ==> fdt_contents(*final(fdt)) == fdt_contents(*old(fdt)) + fdt_device_tokens(self@, *target, num_vcpus),
            fdt_history_ok(fdt_contents(*old(fdt))) ==> (r is Ok <==> fdt_history_ok(fdt_contents(*old(fdt)) + fdt_device_tokens(self@, *target, num_vcpus))),
            fdt_child_ready(fdt_contents(*old(fdt)), 1) && !fdt_phandles(fdt_contents(*old(fdt))).contains(CLK_PHANDLE)
                && fdt_size_bound(fdt_contents(*old(fdt)) + fdt_device_tokens(self@, *target, num_vcpus)) <= FDT_SIZE_LIMIT ==> r is Ok,
    {
        let ghost c0 = fdt_contents(*fdt);
        let ghost b = self@;
        let arch = match target {
            FdtTarget::Aarch64 => FdtArch::Aarch64,
            FdtTarget::Riscv64(_) => FdtArch::Riscv64,
        };
        proof {
            lemma_console_facts(b, arch);
            lemma_arch_device_facts(*target, num_vcpus);
        }
        proof {
            let console = fdt_console_tokens(b, arch);
            let arch_devs = fdt_arch_device_tokens(*target, num_vcpus);
            let virtio = fdt_repeat(b.virtio_devices.len(), fdt_virtio_fn(arch, b.virtio_devices));
            lemma_history_prefix(c0 + console, arch_devs + virtio);
            assert(c0 + fdt_device_tokens(b, *target, num_vcpus) =~= (c0 + console) + (arch_devs + virtio));
            lemma_history_prefix(c0 + console + arch_devs, virtio);
            assert(c0 + fdt_device_tokens(b, *target, num_vcpus) =~= (c0 + console + arch_devs) + virtio);
        }
        self.create_console_nodes(fdt, arch)?;
        create_arch_device_nodes(fdt, target, num_vcpus)?;
        self.create_virtio_nodes(fdt, arch)?;
        assert(fdt_contents(*fdt) =~= c0 + fdt_device_tokens(b, *target, num_vcpus));
        Ok(())
    }

    /// Writes the vCPU, interrupt controller and device nodes, closes the root
    /// node and emits the blob.
    fn finish_fdt(&self, fdt: FdtWriter, root_node: FdtWriterNode, target: &FdtTarget, num_vcpus: u32) -> (r: Result<Vec<u8>, vm_fdt::Error>)
        requires
            *target is Aarch64 ==> num_vcpus < 32,
            fdt_node_depth(root_node) == 1,
        ensures
            r matches Ok(blob) ==> blob@ == fdt_blob(fdt_contents(fdt) + fdt_cpu_irq_tokens(*target, num_vcpus)
                + fdt_device_tokens(self@, *target, num_vcpus) + seq![FdtToken::EndNode]),
            r is Ok && fdt_phandles(fdt_contents(fdt)) == Set::<u32>::empty() ==> fdt_phandles_fit(*target, num_vcpus),
            fdt_history_ok(fdt_contents(fdt)) && fdt_depth(fdt_contents(fdt)) == 1 ==> (r is Ok <==> ({
                let all = fdt_contents(fdt) + fdt_cpu_irq_tokens(*target, num_vcpus) + fdt_device_tokens(self@, *target, num_vcpus)
                    + seq![FdtToken::EndNode];
                fdt_history_ok(all) && fdt_blob(all).len() <= u32::MAX
            })),
            fdt_healthy(fdt_contents(fdt)) && fdt_depth(fdt_contents(fdt)) == 1
                && fdt_phandles(fdt_contents(fdt)) == Set::<u32>::empty() && fdt_phandles_fit(*target, num_vcpus)
                && fdt_size_bound(fdt_contents(fdt) + fdt_cpu_irq_tokens(*target, num_vcpus)
                + fdt_device_tokens(self@, *target, num_vcpus) + seq![FdtToken::EndNode]) <= FDT_SIZE_LIMIT ==> r is Ok,
    {
        let mut fdt = fdt;
        let ghost c0 = fdt_contents(fdt);
        proof {
            lemma_cpu_irq_facts(*target, num_vcpus);
            lemma_device_facts(self@, *target, num_vcpus);
            let cpu_irq = fdt_cpu_irq_tokens(*target, num_vcpus);
            let devices = fdt_device_tokens(self@, *target, num_vcpus);
            let all = c0 + cpu_irq + devices + seq![FdtToken::EndNode];
            lemma_history_prefix(c0 + cpu_irq, devices + seq![FdtToken::EndNode]);
            assert(all =~= (c0 + cpu_irq) + (devices + seq![FdtToken::EndNode]));
            lemma_history_prefix(c0 + cpu_irq + devices, seq![FdtToken::EndNode]);
        }
        create_cpu_irq_nodes(&mut fdt, target, num_vcpus)?;
        self.create_device_nodes(&mut fdt, target, num_vcpus)?;
        fdt.end_node(root_node)?;
        assert(fdt_contents(fdt) =~= c0 + fdt_cpu_irq_tokens(*target, num_vcpus)
            + fdt_device_tokens(self@, *target, num_vcpus) + seq![FdtToken::EndNode]);
        fdt.finish()
    }

    /// Writes the device tree from the settings.
    #[verifier::spinoff_prover]
    #[verifier::rlimit(80)]
    fn build_fdt(&self, target: &FdtTarget) -> (r: Result<Fdt, FdtBuilderError>)
        requires
            !fdt_aarch64_too_many_vcpus(self@, *target),
            self@.prebuilt is None,
        ensures
            self@.cmdline is None ==> (r matches Err(FdtBuilderError::MissingRequiredConfig(s)) && s@ == "cmdline"@),
            self@.cmdline matches Some(c) && !fdt_nul_free(c) ==> r matches Err(FdtBuilderError::Fdt(_)),
            fdt_outcome_of(r) == Some(fdt_build_outcome(self@, *target)),
            self@.cmdline is Some && self@.mem_size is None && fdt_writes_owed(self@, *target)
                ==> (r matches Err(FdtBuilderError::MissingRequiredConfig(s)) && s@ == "memory"@),
            self@.cmdline is Some && self@.mem_size is Some && self@.num_vcpus is None && fdt_writes_owed(self@, *target)
                ==> (r matches Err(FdtBuilderError::MissingRequiredConfig(s)) && s@ == "vcpu"@),
            fdt_config_complete(self@) && fdt_writes_owed(self@, *target)
                ==> (r matches Ok(f) && f@ == fdt_blob(fdt_expected_tokens(self@, *target))),
            r matches Ok(f) ==> fdt_config_complete(self@)
                && fdt_phandles_fit(*target, self@.num_vcpus.unwrap())
                && f@ == fdt_blob(fdt_expected_tokens(self@, *target)),
            r matches Err(FdtBuilderError::MissingRequiredConfig(s)) ==> (
                (self@.cmdline is None && s@ == "cmdline"@)
                || (self@.cmdline is Some && self@.mem_size is None && s@ == "memory"@)
                || (self@.cmdline is Some && self@.mem_size is Some && self@.num_vcpus is None && s@ == "vcpu"@)),
            r matches Err(FdtBuilderError::Fdt(_)) ==> self@.cmdline is Some && !fdt_writes_owed(self@, *target),
            r is Err ==> r matches Err(FdtBuilderError::MissingRequiredConfig(_)) || r matches Err(FdtBuilderError::Fdt(_)),
    {
        let ghost b = self@;
        let mut fdt = match FdtWriter::new() {
            Ok(w) => w,
            Err(e) => return Err(FdtBuilderError::Fdt(e)),
        };
        let root_node = match create_root_head(&mut fdt, target) {
            Ok(n) => n,
            Err(e) => return Err(FdtBuilderError::Fdt(e)),
        };
        proof {
            lemma_root_head_facts(*target);
            lemma_expected_tokens(b, *target);
            reveal_strlit("cmdline");
            reveal_strlit("memory");
            reveal_strlit("vcpu");
        }

        let cmdline = match &self.cmdline {
            Some(c) => c,
            None => return Err(FdtBuilderError::MissingRequiredConfig(String::from_str("cmdline"))),
        };
        if let Err(e) = create_chosen_node(&mut fdt, cmdline.as_str()) {
            return Err(FdtBuilderError::Fdt(e));
        }
        assert(fdt_contents(fdt) == fdt_tokens_through_chosen(b, *target));

        let mem_size = match self.mem_size {
            Some(m) => m,
            None => return Err(FdtBuilderError::MissingRequiredConfig(String::from_str("memory"))),
        };
        let mem_start = match target {
            FdtTarget::Aarch64 => AARCH64_PHYS_MEM_START,
            FdtTarget::Riscv64(_) => RISCV64_PHYS_MEM_START,
        };
        if let Err(e) = create_memory_node(&mut fdt, mem_start, mem_size) {
            return Err(FdtBuilderError::Fdt(e));
        }
        assert(fdt_contents(fdt) == fdt_tokens_through_memory(b, *target));
        assert(fdt_phandles(fdt_contents(fdt)) =~= Set::<u32>::empty());
        proof {
            lemma_expected_tokens(b, *target);
        }

        let num_vcpus = match self.num_vcpus {
            Some(n) => n,
            None => return Err(FdtBuilderError::MissingRequiredConfig(String::from_str("vcpu"))),
        };
        match self.finish_fdt(fdt, root_node, target, num_vcpus) {
            Ok(fdt_blob) => Ok(Fdt { fdt_blob }),
            Err(e) => Err(FdtBuilderError::Fdt(e)),
        }
    }

    /// Writes the device tree of the guest.
    ///
    /// A prebuilt blob is handed out once as it is; the builder then keeps an
    /// empty blob in its place.  Otherwise the command line, the memory size and
    /// the number of vCPUs are required, checked in this order, and the outcome
    /// is a function of the settings (`fdt_build_outcome`).
    pub fn create_fdt(&mut self, target: &FdtTarget) -> (r: Result<Fdt, FdtBuilderError>)
        requires
            !fdt_aarch64_too_many_vcpus(old(self)@, *target),
        ensures
            final(self)@ == fdt_builder_after(old(self)@, FdtBuilderCall::CreateFdt),
            old(self)@.prebuilt is None ==> fdt_outcome_of(r) == Some(fdt_build_outcome(old(self)@, *target)),
            old(self)@.prebuilt matches Some(blob) ==> (r matches Ok(f) && f@ == blob),
            old(self)@.prebuilt is None && (old(self)@.cmdline matches Some(c) && !fdt_nul_free(c))
                ==> r matches Err(FdtBuilderError::Fdt(_)),
            old(self)@.prebuilt is None && old(self)@.cmdline is None
                ==> (r matches Err(FdtBuilderError::MissingRequiredConfig(s)) && s@ == "cmdline"@),
            old(self)@.prebuilt is None && old(self)@.cmdline is Some && old(self)@.mem_size is None && fdt_writes_owed(old(self)@, *target)
                ==> (r matches Err(FdtBuilderError::MissingRequiredConfig(s)) && s@ == "memory"@),
            old(self)@.prebuilt is None && old(self)@.cmdline is Some && old(self)@.mem_size is Some && old(self)@.num_vcpus is None && fdt_writes_owed(old(self)@, *target)
                ==> (r matches Err(FdtBuilderError::MissingRequiredConfig(s)) && s@ == "vcpu"@),
            old(self)@.prebuilt is None && fdt_config_complete(old(self)@) && fdt_writes_owed(old(self)@, *target)
                ==> (r matches Ok(f) && f@ == fdt_blob(fdt_expected_tokens(old(self)@, *target))),
            r matches Ok(f) ==> (old(self)@.prebuilt is None ==> fdt_config_complete(old(self)@)
                && fdt_phandles_fit(*target, old(self)@.num_vcpus.unwrap())
                && f@ == fdt_blob(fdt_expected_tokens(old(self)@, *target))),
            r matches Err(FdtBuilderError::MissingRequiredConfig(s)) ==> old(self)@.prebuilt is None && (
                (old(self)@.cmdline is None && s@ == "cmdline"@)
                || (old(self)@.cmdline is Some && old(self)@.mem_size is None && s@ == "memory"@)
                || (old(self)@.cmdline is Some && old(self)@.mem_size is Some && old(self)@.num_vcpus is None && s@ == "vcpu"@)),
            r matches Err(FdtBuilderError::Fdt(_)) ==> old(self)@.prebuilt is None && old(self)@.cmdline is Some
                && !fdt_writes_owed(old(self)@, *target),
            r is Err ==> r matches Err(FdtBuilderError::MissingRequiredConfig(_)) || r matches Err(FdtBuilderError::Fdt(_)),
    {
        let ghost b = self@;
        if let Some(fdt) = &self.prebuilt {
            let ret: Fdt = fdt.clone();
            self.prebuilt = Some(Fdt::default());
            proof {
                assert(self@.virtio_devices =~= b.virtio_devices);
            }
            return Ok(ret);
        }
        self.build_fdt(target)
    }

    /// An ARM64 device tree of these settings would reach the timer node with
    /// 32 vCPUs or more, whose CPU mask cannot be computed: `create_fdt` must
    /// not be called then.
    pub fn aarch64_timer_overflows(&self, target: &FdtTarget) -> (r: bool)
        ensures
            r == fdt_aarch64_too_many_vcpus(self@, *target),
    {
        match target {
            FdtTarget::Aarch64 => {},
            FdtTarget::Riscv64(_) => return false,
        }
        if !self.reaches_cpu_nodes() {
            return false;
        }
        match self.num_vcpus {
            Some(n) => n >= 32,
            None => false,
        }
    }

    /// `create_fdt` goes on to the vCPU nodes, unless the writer refuses the
    /// size of the blob.  Only then does a RISC-V device tree describe the
    /// registers of a vCPU.
    pub fn reaches_cpu_nodes(&self) -> (r: bool)
        ensures
            r == fdt_reaches_cpu_nodes(self@),
    {
        if self.prebuilt.is_some() || self.mem_size.is_none() || self.num_vcpus.is_none() {
            return false;
        }
        match &self.cmdline {
            Some(c) => !str_has_nul(c.as_str()),
            None => false,
        }
    }

    /// Number of virtio-mmio devices added.
    pub fn virtio_device_len(&self) -> (r: usize)
        ensures
            r == self@.virtio_devices.len(),
    {
        self.virtio_devices.len()
    }
}

} // verus!

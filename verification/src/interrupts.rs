//! Setup of the RISC-V advanced interrupt architecture (AIA) of a guest: what
//! the in-kernel APLIC/IMSIC device is told, in which order.
use vstd::prelude::*;
use vstd::arithmetic::power2::{lemma_pow2_unfold, pow2};
use vstd::std_specs::bits::{axiom_u64_leading_zeros, u64_leading_zeros};

verus! {

/// Bits of a bitmap word.
pub const BITS_PER_LONG: usize = 64;

/// Bit `i` of a bitmap made of 64-bit words, least significant bit first.
pub open spec fn bitmap_bit(addr: Seq<u64>, i: int) -> bool {
    (addr[i / 64] >> ((i % 64) as u64)) & 1u64 == 1u64
}

/// `i` is the last set bit of the first `size` bits of the bitmap.
pub open spec fn is_last_set_bit(addr: Seq<u64>, size: int, i: int) -> bool {
    &&& 0 <= i < size
    &&& bitmap_bit(addr, i)
    &&& forall|j: int| i < j < size ==> !#[trigger] bitmap_bit(addr, j)
}

/// None of the first `size` bits of the bitmap is set.
pub open spec fn bitmap_clear_below(addr: Seq<u64>, size: int) -> bool {
    forall|j: int| 0 <= j < size ==> !#[trigger] bitmap_bit(addr, j)
}

proof fn lemma_word_top_bit(w: u64)
    requires
        w != 0,
    ensures
        0 <= 63 - u64_leading_zeros(w) < 64,
        (w >> ((63 - u64_leading_zeros(w)) as u64)) & 1u64 == 1u64,
        forall|j: u64| 63 - u64_leading_zeros(w) < j < 64 ==> #[trigger] ((w >> j) & 1u64) == 0u64,
{
    broadcast use axiom_u64_leading_zeros;
    let lz = u64_leading_zeros(w);
    assert(0 <= lz < 64);
    let t = (63 - lz) as u64;
    assert((w >> t) & 1u64 != 0u64);
    assert((w >> t) & 1u64 == 1u64) by (bit_vector)
        requires
            (w >> t) & 1u64 != 0u64,
    ;
}

proof fn lemma_masked_bits(w: u64, rem: u64, sh: u64)
    requires
        0 < rem < 64,
        sh == 64 - rem,
    ensures
        forall|j: u64| j < rem ==> #[trigger] ((w & (0xffff_ffff_ffff_ffffu64 >> sh)) >> j) & 1u64 == (w >> j) & 1u64,
        forall|j: u64| rem <= j < 64 ==> #[trigger] ((w & (0xffff_ffff_ffff_ffffu64 >> sh)) >> j) & 1u64 == 0u64,
{
    assert forall|j: u64| j < rem implies #[trigger] ((w & (0xffff_ffff_ffff_ffffu64 >> sh)) >> j) & 1u64 == (w >> j) & 1u64 by {
        assert(((w & (0xffff_ffff_ffff_ffffu64 >> sh)) >> j) & 1u64 == (w >> j) & 1u64) by (bit_vector)
            requires
                0 < rem < 64,
                sh == 64u64 - rem,
                j < rem,
        ;
    }
    assert forall|j: u64| rem <= j < 64 implies #[trigger] ((w & (0xffff_ffff_ffff_ffffu64 >> sh)) >> j) & 1u64 == 0u64 by {
        assert(((w & (0xffff_ffff_ffff_ffffu64 >> sh)) >> j) & 1u64 == 0u64) by (bit_vector)
            requires
                0 < rem < 64,
                sh == 64u64 - rem,
                rem <= j < 64,
        ;
    }
}

/// Index of the last set bit among the first `size` bits of the bitmap `addr`,
/// or `size` when none is set.  The bitmap must hold `size` bits.
pub fn find_last_bit(addr: &[u64], size: usize) -> (r: u64)
    requires
        size <= addr@.len() * 64,
        size <= usize::MAX - 64,
    ensures
        is_last_set_bit(addr@, size as int, r as int) || (r == size && bitmap_clear_below(addr@, size as int)),
{
    let mut words = size / BITS_PER_LONG;

    if size & (BITS_PER_LONG - 1) == 0 {
        assert(size % 64 == 0) by (bit_vector)
            requires
                size & 63usize == 0usize,
        ;
        assert(words * 64 == size);
    }
    if size & (BITS_PER_LONG - 1) != 0 {
        let remaining_bits = size & (BITS_PER_LONG - 1);
        assert(remaining_bits == size % 64) by (bit_vector)
            requires
                remaining_bits == size & 63usize,
        ;
        let shift = (BITS_PER_LONG - remaining_bits) as u64;
        let tmp = addr[words] & (0xffff_ffff_ffff_ffffu64 >> shift);
        proof {
            lemma_masked_bits(addr@[words as int], remaining_bits as u64, shift);
        }
        if tmp != 0 {
            proof {
                lemma_word_top_bit(tmp);
            }
            let r = words * BITS_PER_LONG + (BITS_PER_LONG - 1 - tmp.leading_zeros() as usize);
            proof {
                let t = 63 - u64_leading_zeros(tmp);
                assert(r / 64 == words && r % 64 == t);
                assert forall|j: int| r < j < size implies !#[trigger] bitmap_bit(addr@, j) by {
                    assert(j / 64 == words);
                    let jb = (j % 64) as u64;
                    assert(((tmp >> jb) & 1u64) == 0u64);
                }
            }
            return r as u64;
        }
        proof {
            assert forall|j: int| words * 64 <= j < size implies !#[trigger] bitmap_bit(addr@, j) by {
                assert(j / 64 == words);
                let jb = (j % 64) as u64;
                assert(tmp >> jb == 0u64) by (bit_vector)
                    requires
                        tmp == 0u64,
                ;
            }
        }
    }

    while words > 0
        invariant
            words <= size / 64,
            size <= addr@.len() * 64,
            size <= usize::MAX - 64,
            forall|j: int| words * 64 <= j < size ==> !#[trigger] bitmap_bit(addr@, j),
        decreases words,
    {
        words -= 1;
        let tmp = addr[words];
        if tmp != 0 {
            proof {
                lemma_word_top_bit(tmp);
            }
            let r = words * BITS_PER_LONG + (BITS_PER_LONG - 1 - tmp.leading_zeros() as usize);
            proof {
                let t = 63 - u64_leading_zeros(tmp);
                assert(r / 64 == words && r % 64 == t);
                assert forall|j: int| r < j < size implies !#[trigger] bitmap_bit(addr@, j) by {
                    if j < (words + 1) * 64 {
                        assert(j / 64 == words);
                        let jb = (j % 64) as u64;
                        assert(((tmp >> jb) & 1u64) == 0u64);
                    }
                }
            }
            return r as u64;
        }
        proof {
            assert forall|j: int| words * 64 <= j < (words + 1) * 64 implies !#[trigger] bitmap_bit(addr@, j) by {
                assert(j / 64 == words);
                let jb = (j % 64) as u64;
                assert(tmp >> jb == 0u64) by (bit_vector)
                    requires
                        tmp == 0u64,
                ;
            }
        }
    }
    size as u64
}

/// Base of the IMSIC files of the guest.
pub const IMSIC_BASE: u64 = 0x28000000;

/// Base of the APLIC of the guest.
pub const APLIC_BASE: u64 = 0xc000000;

/// Smallest group shift of the IMSIC MMIO layout.
pub const IMSIC_MMIO_GROUP_MIN_SHIFT: u64 = 24;

/// Wired interrupt sources of the APLIC.
pub const AIA_IRQ_NUM_SRCS: u64 = 96;

/// MSI identities of an IMSIC file.
pub const AIA_MSI_NUM: u64 = 255;

/// Size of the IMSIC page of one guest file.
pub const IMSIC_MMIO_PAGE_SZ: u64 = 0x1000;

/// The settings of the APLIC.
#[derive(Debug, Clone, Copy, Default)]
pub struct APlicConfig {
    /// Number of CPUs that this APLIC supports.  This is not used when
    /// configuring the APLIC: `device_attrs` lays out the IMSIC files of the
    /// harts that the VM has.
    pub num_cpus: u8,
}

/// An attribute of the in-kernel AIA device, with the value it is set to.
#[derive(Debug, Clone, Copy, PartialEq, Eq)]
pub enum AiaDeviceAttr {
    /// Number of wired interrupt sources.
    ConfigSrcs(u64),
    /// Number of MSI identities.
    ConfigIds(u64),
    /// Bits of the socket (group) number.
    ConfigGroupBits(u64),
    /// Position of the socket number in an IMSIC address.
    ConfigGroupShift(u64),
    /// Bits of the guest file number.
    ConfigGuestBits(u64),
    /// Base address of the APLIC.
    AddrAplic(u64),
    /// Base address `addr` of the IMSIC of one hart; `attr` is the attribute
    /// number, one more than the hart's.
    AddrImsic { attr: u64, addr: u64 },
    /// Bits of the hart number.
    ConfigHartBits(u64),
    /// Finish the setup.
    CtrlInit,
}

/// Number of bits of `x`: zero for zero, else one more than the index of its
/// highest set bit.
pub open spec fn u64_bit_len(x: u64) -> nat
    decreases x,
{
    if x == 0 {
        0
    } else {
        1 + u64_bit_len(x / 2)
    }
}

/// Bits of the hart number for `num_harts` harts: the bits of the highest hart
/// number, none for a single hart.
pub open spec fn aia_hart_bits(num_harts: u64) -> u64 {
    if num_harts > 1 {
        u64_bit_len((num_harts - 1) as u64) as u64
    } else {
        0
    }
}

/// The IMSIC addresses of `num_harts` harts: hart `i` has attribute `1 + i` and
/// the `i`-th page after the IMSIC base.
pub open spec fn aia_imsic_attrs(num_harts: nat) -> Seq<AiaDeviceAttr> {
    Seq::new(
        num_harts,
        |i: int| AiaDeviceAttr::AddrImsic { attr: (1 + i) as u64, addr: (IMSIC_BASE + i * IMSIC_MMIO_PAGE_SZ) as u64 },
    )
}

/// The attributes that configure the APLIC itself, in order: its wired
/// sources, the MSI identities, no guest files, and its base address.
pub open spec fn aia_aplic_attrs() -> Seq<AiaDeviceAttr> {
    seq![AiaDeviceAttr::ConfigSrcs(AIA_IRQ_NUM_SRCS)]
        .push(AiaDeviceAttr::ConfigIds(AIA_MSI_NUM))
        .push(AiaDeviceAttr::ConfigGuestBits(0))
        .push(AiaDeviceAttr::AddrAplic(APLIC_BASE))
}

/// The attributes that set up the AIA device of a VM with `num_harts` harts,
/// in order: one socket and no guest files.  The APLIC's own attributes come
/// first, then the IMSIC file of each hart and the hart bits, then the
/// initialisation.
pub open spec fn aia_device_attrs(num_harts: u32) -> Seq<AiaDeviceAttr> {
    aia_aplic_attrs() + aia_imsic_attrs(num_harts as nat)
        + seq![AiaDeviceAttr::ConfigHartBits(aia_hart_bits(num_harts as u64))].push(AiaDeviceAttr::CtrlInit)
}

/// The message of the error when the device refuses an attribute.
pub open spec fn aia_attr_failure_message(a: AiaDeviceAttr) -> Seq<char> {
    match a {
        AiaDeviceAttr::ConfigSrcs(_) => "Could not config srcs"@,
        AiaDeviceAttr::ConfigIds(_) => "Could not config ids"@,
        AiaDeviceAttr::ConfigGroupBits(_) => "Could not set group bits"@,
        AiaDeviceAttr::ConfigGroupShift(_) => "Could not set group shift"@,
        AiaDeviceAttr::ConfigGuestBits(_) => "Could not set guest bits"@,
        AiaDeviceAttr::AddrAplic(_) => "Could not set APLIC base address"@,
        AiaDeviceAttr::AddrImsic { .. } => "Could not set IMSIC addr"@,
        AiaDeviceAttr::ConfigHartBits(_) => "Could not set hart bits"@,
        AiaDeviceAttr::CtrlInit => "Could not initialize AIA"@,
    }
}

impl AiaDeviceAttr {
    /// What the error says when the device refuses this attribute.
    pub fn failure_message(&self) -> (r: &'static str)
        ensures
            r@ == aia_attr_failure_message(*self),
    {
        match self {
            AiaDeviceAttr::ConfigSrcs(_) => "Could not config srcs",
            AiaDeviceAttr::ConfigIds(_) => "Could not config ids",
            AiaDeviceAttr::ConfigGroupBits(_) => "Could not set group bits",
            AiaDeviceAttr::ConfigGroupShift(_) => "Could not set group shift",
            AiaDeviceAttr::ConfigGuestBits(_) => "Could not set guest bits",
            AiaDeviceAttr::AddrAplic(_) => "Could not set APLIC base address",
            AiaDeviceAttr::AddrImsic { .. } => "Could not set IMSIC addr",
            AiaDeviceAttr::ConfigHartBits(_) => "Could not set hart bits",
            AiaDeviceAttr::CtrlInit => "Could not initialize AIA",
        }
    }
}

pub proof fn lemma_bit_len_leading_zeros(x: u64)
    ensures
        u64_bit_len(x) + u64_leading_zeros(x) == 64,
    decreases x,
{
    reveal(u64_leading_zeros);
    if x != 0 {
        lemma_bit_len_leading_zeros(x / 2);
        assert(u64_bit_len(x) == 1 + u64_bit_len(x / 2));
        assert(u64_leading_zeros(x) == u64_leading_zeros(x / 2) - 1);
    } else {
        assert(u64_bit_len(x) == 0);
        assert(u64_leading_zeros(x) == 64);
    }
}

/// The last set bit of a single word `x != 0` is its bit length less one.
proof fn lemma_single_word_last_bit(x: u64, r: int)
    requires
        x != 0,
        is_last_set_bit(seq![x], 64, r),
    ensures
        r + 1 == u64_bit_len(x),
{
    lemma_word_top_bit(x);
    lemma_bit_len_leading_zeros(x);
    let t = 63 - u64_leading_zeros(x);
    let s = seq![x];
    assert(bitmap_bit(s, t)) by {
        assert(t / 64 == 0 && t % 64 == t);
    }
    if r < t {
        assert(!bitmap_bit(s, t));
    }
    if r > t {
        assert(bitmap_bit(s, r));
        assert(r / 64 == 0 && r % 64 == r);
        assert(((x >> (r as u64)) & 1u64) == 0u64);
    }
}

/// The hart bits of `max_hart_per_socket` harts, as the device is told.
fn compute_hart_bits(max_hart_per_socket: u64) -> (r: u64)
    ensures
        r == aia_hart_bits(max_hart_per_socket),
{
    if max_hart_per_socket > 1 {
        let max_hart = max_hart_per_socket - 1;
        let bitmap = [max_hart];
        let last = find_last_bit(&bitmap, BITS_PER_LONG);
        proof {
            assert(bitmap@ == seq![max_hart]);
            if last == 64 {
                assert(bitmap_clear_below(seq![max_hart], 64));
                lemma_word_top_bit(max_hart);
                let t = 63 - u64_leading_zeros(max_hart);
                assert(t / 64 == 0 && t % 64 == t);
                assert(bitmap_bit(seq![max_hart], t));
            }
            lemma_single_word_last_bit(max_hart, last as int);
        }
        last + 1
    } else {
        0
    }
}

impl APlicConfig {
    /// The attributes that set up the AIA device of a VM with `num_harts`
    /// harts, in the order they are set.  The number of CPUs of the
    /// configuration is not used: two configurations give the same list.
    pub fn device_attrs(&self, num_harts: u32) -> (r: Vec<AiaDeviceAttr>)
        ensures
            r@ == aia_device_attrs(num_harts),
    {
        let hart_count = num_harts as u64;
        let socket_count: u64 = 1;
        let mut max_hart_per_socket: u64 = 0;
        let imsic_base: u64 = IMSIC_BASE;
        let aplic_base: u64 = APLIC_BASE;

        let mut attrs: Vec<AiaDeviceAttr> = Vec::new();
        attrs.push(AiaDeviceAttr::ConfigSrcs(AIA_IRQ_NUM_SRCS));
        attrs.push(AiaDeviceAttr::ConfigIds(AIA_MSI_NUM));

        if socket_count > 1 {
            let socket_bitmap = [socket_count];
            let socket_bits: u64 = find_last_bit(&socket_bitmap, BITS_PER_LONG) + 1;
            attrs.push(AiaDeviceAttr::ConfigGroupBits(socket_bits));
            attrs.push(AiaDeviceAttr::ConfigGroupShift(IMSIC_MMIO_GROUP_MIN_SHIFT));
        }

        let mut guest_bits: u64 = 0;
        let guest_num: u64 = 0;
        if guest_num != 0 {
            let guest_bitmap = [guest_bits];
            let last_bit = find_last_bit(&guest_bitmap, BITS_PER_LONG) + 1;
            guest_bits = last_bit;
        }
        attrs.push(AiaDeviceAttr::ConfigGuestBits(guest_bits));
        attrs.push(AiaDeviceAttr::AddrAplic(aplic_base));
        let ghost head = attrs@;

        let imsic_hart_num_guests: u64 = 1u64 << guest_bits;
        assert(imsic_hart_num_guests == 1) by (bit_vector)
            requires
                imsic_hart_num_guests == 1u64 << guest_bits,
                guest_bits == 0u64,
        ;
        let imsic_hart_size: u64 = imsic_hart_num_guests * IMSIC_MMIO_PAGE_SZ;
        let group_shift = IMSIC_MMIO_GROUP_MIN_SHIFT;
        for socket in 0..socket_count
            invariant
                socket_count == 1,
                hart_count == num_harts as u64,
                hart_count <= u32::MAX,
                imsic_hart_size == IMSIC_MMIO_PAGE_SZ,
                group_shift == IMSIC_MMIO_GROUP_MIN_SHIFT,
                imsic_base == IMSIC_BASE,
                socket == 0 ==> max_hart_per_socket == 0 && attrs@ == head,
                socket == 1 ==> max_hart_per_socket == hart_count
                    && attrs@ == head + aia_imsic_attrs(hart_count as nat),
        {
            assert(socket == 0);
            let socket_imsic_base = imsic_base + socket * (1u64 << group_shift);
            if max_hart_per_socket < hart_count {
                max_hart_per_socket = hart_count;
            }
            for i in 0..hart_count
                invariant
                    socket == 0,
                    hart_count <= u32::MAX,
                    imsic_hart_size == IMSIC_MMIO_PAGE_SZ,
                    socket_imsic_base == IMSIC_BASE,
                    attrs@ == head + aia_imsic_attrs(i as nat),
            {
                let imsic_addr: u64 = socket_imsic_base + i * imsic_hart_size;
                attrs.push(AiaDeviceAttr::AddrImsic { attr: 1 + i, addr: imsic_addr });
                assert(attrs@ =~= head + aia_imsic_attrs(i as nat + 1));
            }
        }

        let hart_bits = compute_hart_bits(max_hart_per_socket);
        attrs.push(AiaDeviceAttr::ConfigHartBits(hart_bits));
        attrs.push(AiaDeviceAttr::CtrlInit);
        assert(attrs@ =~= aia_device_attrs(num_harts));
        attrs
    }
}

/// `x` has `u64_bit_len(x)` bits: it lies below `2^len`, and from `2^(len-1)`
/// on when it is not zero.
pub proof fn lemma_bit_len_bounds(x: u64)
    ensures
        x < pow2(u64_bit_len(x)),
        x > 0 ==> pow2((u64_bit_len(x) - 1) as nat) <= x,
    decreases x,
{
    if x == 0 {
        assert(pow2(0) == 1) by {
            vstd::arithmetic::power2::lemma2_to64();
        }
    } else {
        let h = x / 2;
        lemma_bit_len_bounds(h);
        let l = u64_bit_len(x);
        assert(l == 1 + u64_bit_len(h));
        lemma_pow2_unfold(l);
        if h == 0 {
            assert(x == 1);
            assert(u64_bit_len(h) == 0);
            assert(pow2(0) == 1) by {
                vstd::arithmetic::power2::lemma2_to64();
            }
        } else {
            lemma_pow2_unfold(u64_bit_len(h));
        }
    }
}

/// The hart bits suffice to number every hart, and no fewer would: for `n >= 1`
/// harts, `n <= 2^bits`, and `2^(bits-1) < n` when `bits > 0`.
pub proof fn law_hart_bits_number_every_hart(num_harts: u64)
    requires
        num_harts >= 1,
    ensures
        num_harts <= pow2(aia_hart_bits(num_harts) as nat),
        aia_hart_bits(num_harts) > 0 ==> pow2((aia_hart_bits(num_harts) - 1) as nat) < num_harts,
{
    if num_harts > 1 {
        lemma_bit_len_bounds((num_harts - 1) as u64);
        assert(u64_bit_len((num_harts - 1) as u64) <= 64) by {
            lemma_bit_len_leading_zeros((num_harts - 1) as u64);
            broadcast use axiom_u64_leading_zeros;
        }
    } else {
        assert(pow2(0) == 1) by {
            vstd::arithmetic::power2::lemma2_to64();
        }
    }
}

/// The IMSIC files of distinct harts have distinct attribute numbers and do not
/// overlap: each takes one page, at increasing addresses.
pub proof fn law_imsic_files_disjoint(num_harts: nat, i: int, j: int)
    requires
        0 <= i < j < num_harts <= 0x1_0000_0000,
    ensures
        aia_imsic_attrs(num_harts)[i] matches AiaDeviceAttr::AddrImsic { attr: ai, addr: xi }
            && aia_imsic_attrs(num_harts)[j] matches AiaDeviceAttr::AddrImsic { attr: aj, addr: xj }
            && ai != aj && xi + IMSIC_MMIO_PAGE_SZ <= xj,
{
}

} // verus!

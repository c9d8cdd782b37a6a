//! Descriptors, selectors, exceptions and model-specific registers of the
//! x86-64 processor, as the numbers the processor reads.

use vstd::prelude::*;
use vstd::std_specs::convert::FromSpecImpl;
use crate::arch::page::PhysicalAddress;
use crate::task::irql::ProcessorCoreType;

verus! {

/// The identifier of the local interrupt controller of a processor.
#[derive(Debug, Copy, Clone, Default, PartialEq, Eq, Structural, PartialOrd, Ord)]
pub struct ApicId(pub u32);

impl ApicId {
    pub fn as_u32(&self) -> (r: u32)
        ensures
            r == self.0,
    {
        self.0
    }
}

/// What is known about all processors of the machine.
#[derive(Debug, Copy, Clone, PartialEq, Eq, Structural)]
pub struct SharedCpu {
    pub max_cpuid_level_0: u32,
    pub max_cpuid_level_8: u32,
    pub smt_topology: u32,
    pub has_smt: bool,
    pub is_hybrid: bool,
    pub max_physical_address_bits: usize,
    pub max_virtual_address_bits: usize,
    pub vram_base: PhysicalAddress,
    pub vram_size_min: usize,
}

impl SharedCpu {
    /// What is assumed before the processor was asked: 36 bits of physical
    /// and 48 bits of virtual address, no hybrid cores.
    pub fn new() -> (r: Self)
        ensures
            r == (SharedCpu {
                max_cpuid_level_0: 0,
                max_cpuid_level_8: 0,
                smt_topology: 0,
                has_smt: false,
                is_hybrid: false,
                max_physical_address_bits: 36,
                max_virtual_address_bits: 48,
                vram_base: PhysicalAddress(0),
                vram_size_min: 0,
            }),
    {
        SharedCpu {
            max_cpuid_level_0: 0,
            max_cpuid_level_8: 0,
            smt_topology: 0,
            has_smt: false,
            is_hybrid: false,
            max_physical_address_bits: 36,
            max_virtual_address_bits: 48,
            vram_base: PhysicalAddress(0),
            vram_size_min: 0,
        }
    }
}

/// A processor.
#[derive(Debug, Copy, Clone, PartialEq, Eq, Structural)]
pub struct Cpu {
    pub apic_id: ApicId,
    pub core_type: ProcessorCoreType,
    pub tsc_base: u64,
}

impl Cpu {
    /// Whether the machine has cores of different kinds.
    pub fn is_hybrid(shared: &SharedCpu) -> (r: bool)
        ensures
            r == shared.is_hybrid,
    {
        shared.is_hybrid
    }

    /// The kind of the core that answered CPUID leaf 0x1A with `eax`; none
    /// on a machine whose cores are all alike.
    pub fn native_model_core_type(shared: &SharedCpu, eax: u32) -> (r: Option<NativeModelCoreType>)
        ensures
            r == if shared.is_hybrid {
                NativeModelCoreType::spec_from_u8((eax >> 24) as u8)
            } else {
                None
            },
    {
        if Self::is_hybrid(shared) {
            NativeModelCoreType::from_u8(
                #[verifier::truncate]
                ((eax >> 24) as u8),
            )
        } else {
            None
        }
    }

    /// The mask of the bits of a physical address.
    pub fn physical_address_mask(shared: &SharedCpu) -> (r: u64)
        requires
            shared.max_physical_address_bits < 64,
        ensures
            r == ((1u64 << (shared.max_physical_address_bits as u64)) - 1) as u64,
    {
        let bits = shared.max_physical_address_bits as u64;
        assert(bits < 64 ==> (1u64 << bits) >= 1) by (bit_vector);
        (1u64 << bits) - 1
    }

    /// The mask of the bits of a virtual address.
    pub fn virtual_address_mask(shared: &SharedCpu) -> (r: u64)
        requires
            shared.max_virtual_address_bits < 64,
        ensures
            r == ((1u64 << (shared.max_virtual_address_bits as u64)) - 1) as u64,
    {
        let bits = shared.max_virtual_address_bits as u64;
        assert(bits < 64 ==> (1u64 << bits) >= 1) by (bit_vector);
        (1u64 << bits) - 1
    }

    pub fn apic_id(&self) -> (r: ApicId)
        ensures
            r == self.apic_id,
    {
        self.apic_id
    }

    pub fn physical_id(&self) -> (r: usize)
        ensures
            r == self.apic_id.0,
    {
        self.apic_id().as_u32() as usize
    }

    pub fn processor_type(&self) -> (r: ProcessorCoreType)
        ensures
            r == self.core_type,
    {
        self.core_type
    }

    pub fn set_tsc_base(&mut self, value: u64)
        ensures
            *final(self) == (Cpu { tsc_base: value, ..*old(self) }),
    {
        self.tsc_base = value;
    }
}

/// The slots of the register context of a thread, each eight bytes wide.
#[allow(non_camel_case_types)]
#[derive(Debug, Clone, Copy, PartialEq, Eq, Structural)]
pub enum ContextIndex {
    USER_CS_DESC,
    USER_DS_DESC,
    RSP,
    RBP,
    RBX,
    R12,
    R13,
    R14,
    R15,
    TSS_RSP0,
    Segs,
    FPU,
    Max,
}

impl ContextIndex {
    /// The number of the slot.
    pub open spec fn slot(self) -> int {
        match self {
            ContextIndex::USER_CS_DESC => 2,
            ContextIndex::USER_DS_DESC => 3,
            ContextIndex::RSP => 4,
            ContextIndex::RBP => 5,
            ContextIndex::RBX => 6,
            ContextIndex::R12 => 7,
            ContextIndex::R13 => 8,
            ContextIndex::R14 => 9,
            ContextIndex::R15 => 10,
            ContextIndex::TSS_RSP0 => 11,
            ContextIndex::Segs => 12,
            ContextIndex::FPU => 32,
            ContextIndex::Max => 96,
        }
    }

    /// The offset of the slot in the context, in bytes.
    pub fn to_offset(&self) -> (r: usize)
        ensures
            r == 8 * self.slot(),
    {
        let slot: usize = match self {
            ContextIndex::USER_CS_DESC => 2,
            ContextIndex::USER_DS_DESC => 3,
            ContextIndex::RSP => 4,
            ContextIndex::RBP => 5,
            ContextIndex::RBX => 6,
            ContextIndex::R12 => 7,
            ContextIndex::R13 => 8,
            ContextIndex::R14 => 9,
            ContextIndex::R15 => 10,
            ContextIndex::TSS_RSP0 => 11,
            ContextIndex::Segs => 12,
            ContextIndex::FPU => 32,
            ContextIndex::Max => 96,
        };
        8 * slot
    }
}

/// The register context of a thread: 96 slots of eight bytes.
pub struct CpuContextData {
    pub regs: Vec<u64>,
}

impl CpuContextData {
    pub const SIZE_OF_CONTEXT: usize = 1024;

    pub const SIZE_OF_STACK: usize = 0x10000;

    pub const CTX_DS: usize = 96;

    pub const CTX_ES: usize = 98;

    pub const CTX_FS: usize = 100;

    pub const CTX_GS: usize = 102;

    /// A context with every slot zero.
    pub fn new() -> (r: Self)
        ensures
            r.regs@.len() == 96,
            forall|i: int| 0 <= i < 96 ==> r.regs@[i] == 0,
    {
        let mut regs: Vec<u64> = Vec::new();
        let mut i: usize = 0;
        while i < 96
            invariant
                i <= 96,
                regs@.len() == i,
                forall|j: int| 0 <= j < i ==> regs@[j] == 0,
            decreases 96 - i,
        {
            regs.push(0);
            i = i + 1;
        }
        CpuContextData { regs }
    }
}

/// The flags register.
#[derive(Debug, Copy, Clone, Default, PartialEq, Eq, Structural)]
pub struct Rflags(pub usize);

impl Rflags {
    /// Carry flag.
    pub const CF: usize = 0x0000_0001;

    /// Reserved, always set.
    pub const _VF: usize = 0x0000_0002;

    /// Parity flag.
    pub const PF: usize = 0x0000_0004;

    /// Adjust flag.
    pub const AF: usize = 0x0000_0010;

    /// Zero flag.
    pub const ZF: usize = 0x0000_0040;

    /// Sign flag.
    pub const SF: usize = 0x0000_0080;

    /// Trap flag.
    pub const TF: usize = 0x0000_0100;

    /// Interrupt enable flag.
    pub const IF: usize = 0x0000_0200;

    /// Direction flag.
    pub const DF: usize = 0x0000_0400;

    /// Overflow flag.
    pub const OF: usize = 0x0000_0800;

    /// I/O privilege level.
    pub const IOPL3: usize = 0x0000_3000;

    /// Nested task flag.
    pub const NT: usize = 0x0000_4000;

    /// Mode flag.
    pub const MD: usize = 0x0000_8000;

    /// Resume flag.
    pub const RF: usize = 0x0001_0000;

    /// Virtual 8086 mode flag.
    pub const VM: usize = 0x0002_0000;

    /// Alignment check.
    pub const AC: usize = 0x0004_0000;

    /// Virtual interrupt flag.
    pub const VIF: usize = 0x0008_0000;

    /// Virtual interrupt pending.
    pub const VIP: usize = 0x0010_0000;

    /// The CPUID instruction can be used.
    pub const ID: usize = 0x0020_0000;

    pub fn from_bits_retain(bits: usize) -> (r: Self)
        ensures
            r.0 == bits,
    {
        Rflags(bits)
    }

    pub fn bits(&self) -> (r: usize)
        ensures
            r == self.0,
    {
        self.0
    }

    /// The I/O privilege level: bits 12 and 13.
    pub fn iopl(&self) -> (r: PrivilegeLevel)
        ensures
            r == PrivilegeLevel::spec_from_usize((self.0 & 0x3000) >> 12),
    {
        PrivilegeLevel::from_usize((self.bits() & Self::IOPL3) >> 12)
    }

    /// Sets the I/O privilege level and keeps every other bit.
    pub fn set_iopl(&mut self, iopl: PrivilegeLevel)
        ensures
            final(self).0 == (old(self).0 & !0x3000usize) | ((iopl.spec_ring() as usize) << 12),
    {
        self.0 = (self.0 & !Self::IOPL3) | (iopl.ring() << 12);
    }
}

/// A privilege level of the processor.
#[derive(Debug, Copy, Clone, PartialEq, Eq, Structural, PartialOrd, Ord)]
pub enum PrivilegeLevel {
    Kernel,
    _Ring1,
    _Ring2,
    User,
}

impl PrivilegeLevel {
    /// The number of the ring.
    pub open spec fn spec_ring(self) -> int {
        match self {
            PrivilegeLevel::Kernel => 0,
            PrivilegeLevel::_Ring1 => 1,
            PrivilegeLevel::_Ring2 => 2,
            PrivilegeLevel::User => 3,
        }
    }

    pub fn ring(self) -> (r: usize)
        ensures
            r == self.spec_ring(),
    {
        match self {
            PrivilegeLevel::Kernel => 0,
            PrivilegeLevel::_Ring1 => 1,
            PrivilegeLevel::_Ring2 => 2,
            PrivilegeLevel::User => 3,
        }
    }

    /// The level in the two lowest bits of `value`.
    pub open spec fn spec_from_usize(value: usize) -> PrivilegeLevel {
        if value & 3 == 0 {
            PrivilegeLevel::Kernel
        } else if value & 3 == 1 {
            PrivilegeLevel::_Ring1
        } else if value & 3 == 2 {
            PrivilegeLevel::_Ring2
        } else {
            PrivilegeLevel::User
        }
    }

    pub fn from_usize(value: usize) -> (r: Self)
        ensures
            r == Self::spec_from_usize(value),
            r.spec_ring() == value & 3,
    {
        let low = value & 3;
        assert(value & 3 <= 3) by (bit_vector);
        if low == 0 {
            PrivilegeLevel::Kernel
        } else if low == 1 {
            PrivilegeLevel::_Ring1
        } else if low == 2 {
            PrivilegeLevel::_Ring2
        } else {
            PrivilegeLevel::User
        }
    }
}

impl From<usize> for PrivilegeLevel {
    fn from(value: usize) -> (r: PrivilegeLevel) {
        PrivilegeLevel::from_usize(value)
    }
}

impl FromSpecImpl<usize> for PrivilegeLevel {
    open spec fn obeys_from_spec() -> bool {
        true
    }

    open spec fn from_spec(value: usize) -> PrivilegeLevel {
        PrivilegeLevel::spec_from_usize(value)
    }
}

/// What has a place in a descriptor.
pub trait AsDescriptorEntry {
    /// The bits of a descriptor that encode the value.
    spec fn descriptor_bits(&self) -> u64;

    fn as_descriptor_entry(&self) -> (r: u64)
        ensures
            r == self.descriptor_bits(),
    ;
}

impl AsDescriptorEntry for PrivilegeLevel {
    /// The descriptor privilege level: bits 45 and 46.
    open spec fn descriptor_bits(&self) -> u64 {
        (self.spec_ring() as u64) << 45
    }

    fn as_descriptor_entry(&self) -> (r: u64) {
        (self.ring() as u64) << 45
    }
}

/// A segment limit of 16 bits.
#[derive(Debug, Copy, Clone, PartialEq, Eq, Structural, PartialOrd, Ord)]
pub struct Limit16(pub u16);

impl AsDescriptorEntry for Limit16 {
    open spec fn descriptor_bits(&self) -> u64 {
        self.0 as u64
    }

    fn as_descriptor_entry(&self) -> (r: u64) {
        self.0 as u64
    }
}

/// A segment limit of 32 bits.
#[derive(Debug, Copy, Clone, PartialEq, Eq, Structural, PartialOrd, Ord)]
pub struct Limit32(pub u32);

impl Limit32 {
    /// The largest limit.
    pub fn max_value() -> (r: Self)
        ensures
            r.0 == u32::MAX,
    {
        Limit32(u32::MAX)
    }
}

impl AsDescriptorEntry for Limit32 {
    /// A limit up to 0xFFFF is stored as it is. A larger limit is stored in
    /// pages of 4096 bytes, with the granularity bit set: bits 12 to 27 of
    /// the limit go to the low word, bits 28 to 31 to bits 48 to 51.
    open spec fn descriptor_bits(&self) -> u64 {
        let limit = self.0 as u64;
        if self.0 > 0xFFFF {
            0x0080_0000_0000_0000 | ((limit >> 12) & 0xFFFF) | ((limit & 0xF000_0000) << 20)
        } else {
            limit
        }
    }

    fn as_descriptor_entry(&self) -> (r: u64) {
        let limit = self.0;
        if limit > 0xFFFF {
            0x0080_0000_0000_0000 | ((limit as u64) >> 12) & 0xFFFF | ((limit as u64 & 0xF000_0000)
                << 20)
        } else {
            limit as u64
        }
    }
}

/// A linear address of 32 bits.
#[derive(Debug, Copy, Clone, PartialEq, Eq, Structural, PartialOrd, Ord)]
pub struct Linear32(pub u32);

impl Linear32 {
    /// The bits of a segment descriptor that hold the base: bits 0 to 23 of
    /// the base go to bits 16 to 39, bits 24 to 31 to bits 56 to 63.
    pub fn as_segment_base(&self) -> (r: u64)
        ensures
            r == ((self.0 as u64 & 0x00FF_FFFF) << 16) | ((self.0 as u64 & 0xFF00_0000) << 32),
    {
        ((self.0 as u64 & 0x00FF_FFFF) << 16) | ((self.0 as u64 & 0xFF00_0000) << 32)
    }
}

/// A linear address of 64 bits.
#[derive(Debug, Copy, Clone, PartialEq, Eq, Structural, PartialOrd, Ord)]
pub struct Linear64(pub u64);

impl Linear64 {
    /// The base as the two halves of a system descriptor store it: the low
    /// 32 bits as a segment base, the high 32 bits as they are.
    pub fn as_segment_base_pair(&self) -> (r: (u64, u64))
        ensures
            r.0 == (((self.0 as u32) as u64 & 0x00FF_FFFF) << 16) | (((self.0 as u32) as u64
                & 0xFF00_0000) << 32),
            r.1 == self.0 >> 32,
    {
        let low = Linear32(
            #[verifier::truncate]
            (self.0 as u32),
        ).as_segment_base();
        let high = self.0 >> 32;
        (low, high)
    }
}

/// An offset of 32 bits into a code segment.
#[derive(Debug, Copy, Clone, PartialEq, Eq, Structural, PartialOrd, Ord)]
pub struct Offset32(pub u32);

impl Offset32 {
    /// The bits of a gate descriptor that hold the offset: bits 0 to 15 stay,
    /// bits 16 to 31 go to bits 48 to 63.
    pub fn as_gate_offset(&self) -> (r: u64)
        ensures
            r == (self.0 as u64 & 0xFFFF) | ((self.0 as u64 & 0xFFFF_0000) << 32),
    {
        let offset = self.0 as u64;
        (offset & 0xFFFF) | (offset & 0xFFFF_0000) << 32
    }
}

/// An offset of 64 bits into a code segment.
#[derive(Debug, Copy, Clone, PartialEq, Eq, Structural, PartialOrd, Ord)]
pub struct Offset64(pub u64);

impl Offset64 {
    /// The offset as the two halves of a gate descriptor store it.
    pub fn as_gate_offset_pair(&self) -> (r: (u64, u64))
        ensures
            r.0 == ((self.0 as u32) as u64 & 0xFFFF) | (((self.0 as u32) as u64 & 0xFFFF_0000)
                << 32),
            r.1 == self.0 >> 32,
    {
        let low = Offset32(
            #[verifier::truncate]
            (self.0 as u32),
        ).as_gate_offset();
        let high = self.0 >> 32;
        (low, high)
    }
}

/// A segment selector: the index of a descriptor and a requested privilege
/// level.
#[derive(Debug, Copy, Clone, PartialEq, Eq, Structural, PartialOrd, Ord)]
pub struct Selector(pub u16);

impl Selector {
    pub const NULL: u16 = 0;

    /// Index 1, kernel.
    pub const KERNEL_CODE: u16 = 0x08;

    /// Index 2, kernel.
    pub const KERNEL_DATA: u16 = 0x10;

    /// Index 3, user.
    pub const LEGACY_CODE: u16 = 0x1B;

    /// Index 4, user.
    pub const LEGACY_DATA: u16 = 0x23;

    /// Index 5, user.
    pub const USER_CODE: u16 = 0x2B;

    /// Index 6, user.
    pub const USER_DATA: u16 = 0x33;

    /// Index 8, kernel.
    pub const SYSTEM_TSS: u16 = 0x40;

    /// The selector of the descriptor at `index` with the requested
    /// privilege level `rpl`.
    pub fn new(index: usize, rpl: PrivilegeLevel) -> (r: Self)
        requires
            index < 8192,
        ensures
            r.0 == (((index << 3) as u16) | (rpl.spec_ring() as u16)),
    {
        assert(index < 8192 ==> (index << 3) <= 0xFFF8) by (bit_vector);
        Selector(((index << 3) as u16) | (rpl.ring() as u16))
    }

    pub fn rpl(self) -> (r: PrivilegeLevel)
        ensures
            r == PrivilegeLevel::spec_from_usize(self.0 as usize),
    {
        PrivilegeLevel::from_usize(self.0 as usize)
    }

    pub fn index(self) -> (r: usize)
        ensures
            r == (self.0 >> 3),
            r < 8192,
    {
        let v = self.0;
        assert((v >> 3) < 8192) by (bit_vector);
        (self.0 >> 3) as usize
    }
}

impl AsDescriptorEntry for Selector {
    /// The selector of a gate: bits 16 to 31.
    open spec fn descriptor_bits(&self) -> u64 {
        (self.0 as u64) << 16
    }

    fn as_descriptor_entry(&self) -> (r: u64) {
        (self.0 as u64) << 16
    }
}

/// The type of a system descriptor.
#[derive(Debug, Copy, Clone, PartialEq, Eq, Structural, PartialOrd, Ord)]
pub enum DescriptorType {
    Null,
    Tss,
    TssBusy,
    InterruptGate,
    TrapGate,
}

impl DescriptorType {
    /// The number of the type.
    pub open spec fn spec_code(self) -> u64 {
        match self {
            DescriptorType::Null => 0,
            DescriptorType::Tss => 9,
            DescriptorType::TssBusy => 11,
            DescriptorType::InterruptGate => 14,
            DescriptorType::TrapGate => 15,
        }
    }

    pub fn code(self) -> (r: u64)
        ensures
            r == self.spec_code(),
    {
        match self {
            DescriptorType::Null => 0,
            DescriptorType::Tss => 9,
            DescriptorType::TssBusy => 11,
            DescriptorType::InterruptGate => 14,
            DescriptorType::TrapGate => 15,
        }
    }
}

impl AsDescriptorEntry for DescriptorType {
    /// The type field: bits 40 to 43.
    open spec fn descriptor_bits(&self) -> u64 {
        self.spec_code() << 40
    }

    fn as_descriptor_entry(&self) -> (r: u64) {
        let ty = self.code();
        ty << 40
    }
}

/// The default operand size of a code segment.
#[derive(Debug, Copy, Clone, PartialEq, Eq, Structural)]
pub enum DefaultSize {
    Use16,
    Use32,
    Use64,
}

impl DefaultSize {
    pub open spec fn spec_bits(self) -> u64 {
        match self {
            DefaultSize::Use16 => 0x0000_0000_0000_0000,
            DefaultSize::Use32 => 0x0040_0000_0000_0000,
            DefaultSize::Use64 => 0x0020_0000_0000_0000,
        }
    }

    /// The size bits of a code segment descriptor: bit 54 for 32 bits, bit
    /// 53 for 64 bits.
    pub fn as_descriptor_entry(&self) -> (r: u64)
        ensures
            r == self.spec_bits(),
    {
        match self {
            DefaultSize::Use16 => 0x0000_0000_0000_0000,
            DefaultSize::Use32 => 0x0040_0000_0000_0000,
            DefaultSize::Use64 => 0x0020_0000_0000_0000,
        }
    }

    /// The operand size a descriptor gives: none unless it is a code
    /// segment, and none if it claims both sizes.
    pub open spec fn spec_from_descriptor(value: DescriptorEntry) -> Option<DefaultSize> {
        if value.spec_is_code_segment() {
            let is_32 = (value.0 & 0x0040_0000_0000_0000) != 0;
            let is_64 = (value.0 & 0x0020_0000_0000_0000) != 0;
            if is_32 {
                if is_64 {
                    None
                } else {
                    Some(DefaultSize::Use32)
                }
            } else {
                if is_64 {
                    Some(DefaultSize::Use64)
                } else {
                    Some(DefaultSize::Use16)
                }
            }
        } else {
            None
        }
    }

    pub fn from_descriptor(value: DescriptorEntry) -> (r: Option<Self>)
        ensures
            r == Self::spec_from_descriptor(value),
    {
        if value.is_code_segment() {
            let is_32 = (value.0 & 0x0040_0000_0000_0000) != 0;
            let is_64 = (value.0 & 0x0020_0000_0000_0000) != 0;
            match (is_32, is_64) {
                (false, false) => Some(DefaultSize::Use16),
                (false, true) => Some(DefaultSize::Use64),
                (true, false) => Some(DefaultSize::Use32),
                (true, true) => None,
            }
        } else {
            None
        }
    }
}

/// One of the seven stacks an interrupt can switch to.
#[derive(Debug, Clone, Copy, PartialEq, Eq, Structural, PartialOrd, Ord)]
pub enum InterruptStackTable {
    IST1,
    IST2,
    IST3,
    IST4,
    IST5,
    IST6,
    IST7,
}

impl InterruptStackTable {
    /// The number of the stack, from 1 to 7.
    pub open spec fn spec_number(self) -> u64 {
        match self {
            InterruptStackTable::IST1 => 1,
            InterruptStackTable::IST2 => 2,
            InterruptStackTable::IST3 => 3,
            InterruptStackTable::IST4 => 4,
            InterruptStackTable::IST5 => 5,
            InterruptStackTable::IST6 => 6,
            InterruptStackTable::IST7 => 7,
        }
    }

    pub fn number(self) -> (r: u64)
        ensures
            r == self.spec_number(),
    {
        match self {
            InterruptStackTable::IST1 => 1,
            InterruptStackTable::IST2 => 2,
            InterruptStackTable::IST3 => 3,
            InterruptStackTable::IST4 => 4,
            InterruptStackTable::IST5 => 5,
            InterruptStackTable::IST6 => 6,
            InterruptStackTable::IST7 => 7,
        }
    }
}

impl AsDescriptorEntry for InterruptStackTable {
    /// The stack field of a gate: bits 32 to 34.
    open spec fn descriptor_bits(&self) -> u64 {
        self.spec_number() << 32
    }

    fn as_descriptor_entry(&self) -> (r: u64) {
        self.number() << 32
    }
}

/// The stack field of a gate that may switch stacks; zero if it does not.
pub open spec fn ist_bits(ist: Option<InterruptStackTable>) -> u64 {
    match ist {
        Some(v) => v.descriptor_bits(),
        None => 0,
    }
}

/// A descriptor, or one half of a system descriptor.
#[derive(Debug, Copy, Clone, PartialEq, Eq, Structural)]
pub struct DescriptorEntry(pub u64);

/// A system descriptor of 16 bytes.
#[derive(Debug, Copy, Clone, PartialEq, Eq, Structural)]
pub struct DescriptorPair {
    pub low: DescriptorEntry,
    pub high: DescriptorEntry,
}

impl DescriptorPair {
    pub fn new(low: DescriptorEntry, high: DescriptorEntry) -> (r: Self)
        ensures
            r == (DescriptorPair { low, high }),
    {
        DescriptorPair { low, high }
    }
}

impl DescriptorEntry {
    /// The present bit.
    pub const PRESENT: u64 = 0x8000_0000_0000;

    /// The bit that makes a data segment one of 32 bits.
    pub const BIG_DATA: u64 = 0x0040_0000_0000_0000;

    pub fn null() -> (r: Self)
        ensures
            r.0 == 0,
    {
        DescriptorEntry(0)
    }

    /// The code segment that covers the whole address space.
    pub fn flat_code_segment(dpl: PrivilegeLevel, size: DefaultSize) -> (r: DescriptorEntry)
        ensures
            r == Self::spec_code_segment(Linear32(0), Limit32(u32::MAX), dpl, size),
    {
        Self::code_segment(Linear32(0), Limit32::max_value(), dpl, size)
    }

    /// The descriptor of a code segment: type code, readable, present, with
    /// the given base, limit, privilege level and operand size.
    pub open spec fn spec_code_segment(
        base: Linear32,
        limit: Limit32,
        dpl: PrivilegeLevel,
        size: DefaultSize,
    ) -> DescriptorEntry {
        DescriptorEntry(
            0x0000_1A00_0000_0000u64 | (((base.0 as u64 & 0x00FF_FFFF) << 16) | ((base.0 as u64
                & 0xFF00_0000) << 32)) | limit.descriptor_bits() | 0x8000_0000_0000
                | dpl.descriptor_bits() | size.spec_bits(),
        )
    }

    pub fn code_segment(base: Linear32, limit: Limit32, dpl: PrivilegeLevel, size: DefaultSize) -> (r:
        DescriptorEntry)
        ensures
            r == Self::spec_code_segment(base, limit, dpl, size),
    {
        DescriptorEntry(
            0x0000_1A00_0000_0000u64 | base.as_segment_base() | limit.as_descriptor_entry()
                | Self::PRESENT | dpl.as_descriptor_entry() | size.as_descriptor_entry(),
        )
    }

    /// The data segment that covers the whole address space.
    pub fn flat_data_segment(dpl: PrivilegeLevel) -> (r: DescriptorEntry)
        ensures
            r == Self::spec_data_segment(Linear32(0), Limit32(u32::MAX), dpl),
    {
        Self::data_segment(Linear32(0), Limit32::max_value(), dpl)
    }

    /// The descriptor of a data segment: type data, writable, present, of
    /// 32 bits, with the given base, limit and privilege level.
    pub open spec fn spec_data_segment(
        base: Linear32,
        limit: Limit32,
        dpl: PrivilegeLevel,
    ) -> DescriptorEntry {
        DescriptorEntry(
            0x0000_1200_0000_0000u64 | (((base.0 as u64 & 0x00FF_FFFF) << 16) | ((base.0 as u64
                & 0xFF00_0000) << 32)) | limit.descriptor_bits() | 0x8000_0000_0000
                | 0x0040_0000_0000_0000 | dpl.descriptor_bits(),
        )
    }

    pub fn data_segment(base: Linear32, limit: Limit32, dpl: PrivilegeLevel) -> (r: DescriptorEntry)
        ensures
            r == Self::spec_data_segment(base, limit, dpl),
    {
        DescriptorEntry(
            0x0000_1200_0000_0000u64 | base.as_segment_base() | limit.as_descriptor_entry()
                | Self::PRESENT | Self::BIG_DATA | dpl.as_descriptor_entry(),
        )
    }

    /// The descriptor of the task state segment at `base`.
    pub fn tss_descriptor(base: Linear64, limit: Limit16) -> (r: DescriptorPair)
        ensures
            r.low.0 == (9u64 << 40) | ((((base.0 as u32) as u64 & 0x00FF_FFFF) << 16) | (((
            base.0 as u32) as u64 & 0xFF00_0000) << 32)) | (limit.0 as u64) | 0x8000_0000_0000,
            r.high.0 == base.0 >> 32,
    {
        let (base_low, base_high) = base.as_segment_base_pair();
        let low = DescriptorEntry(
            DescriptorType::Tss.as_descriptor_entry() | base_low | limit.as_descriptor_entry()
                | Self::PRESENT,
        );
        let high = DescriptorEntry(base_high);
        DescriptorPair::new(low, high)
    }

    /// The descriptor of a gate to the code at `offset` in the segment
    /// `sel`.
    pub fn gate_descriptor(
        offset: Offset64,
        sel: Selector,
        dpl: PrivilegeLevel,
        ty: DescriptorType,
        ist: Option<InterruptStackTable>,
    ) -> (r: DescriptorPair)
        ensures
            r.low.0 == ty.descriptor_bits() | (((offset.0 as u32) as u64 & 0xFFFF) | (((
            offset.0 as u32) as u64 & 0xFFFF_0000) << 32)) | sel.descriptor_bits() | ist_bits(ist)
                | dpl.descriptor_bits() | 0x8000_0000_0000,
            r.high.0 == offset.0 >> 32,
    {
        let (offset_low, offset_high) = offset.as_gate_offset_pair();
        let stack = match ist {
            Some(v) => v.as_descriptor_entry(),
            None => 0,
        };
        let low = DescriptorEntry(
            ty.as_descriptor_entry() | offset_low | sel.as_descriptor_entry() | stack
                | dpl.as_descriptor_entry() | Self::PRESENT,
        );
        let high = DescriptorEntry(offset_high);
        DescriptorPair::new(low, high)
    }

    pub fn is_null(&self) -> (r: bool)
        ensures
            r == (self.0 == 0),
    {
        self.0 == 0
    }

    pub fn is_present(&self) -> (r: bool)
        ensures
            r == ((self.0 & 0x8000_0000_0000) != 0),
    {
        (self.0 & Self::PRESENT) != 0
    }

    /// Whether the descriptor is a code or data segment: bit 44.
    pub open spec fn spec_is_segment(&self) -> bool {
        (self.0 & 0x1000_0000_0000) != 0
    }

    pub fn is_segment(&self) -> (r: bool)
        ensures
            r == self.spec_is_segment(),
    {
        (self.0 & 0x1000_0000_0000) != 0
    }

    /// Whether the descriptor is a code segment: bits 44 and 43.
    pub open spec fn spec_is_code_segment(&self) -> bool {
        self.spec_is_segment() && (self.0 & 0x0800_0000_0000) != 0
    }

    pub fn is_code_segment(&self) -> (r: bool)
        ensures
            r == self.spec_is_code_segment(),
    {
        self.is_segment() && (self.0 & 0x0800_0000_0000) != 0
    }

    pub fn default_operand_size(&self) -> (r: Option<DefaultSize>)
        ensures
            r == DefaultSize::spec_from_descriptor(*self),
    {
        DefaultSize::from_descriptor(*self)
    }
}

/// The global descriptor table: sixteen descriptors.
pub struct GlobalDescriptorTable {
    pub table: [DescriptorEntry; 16],
    pub tss: TaskStateSegment,
}

impl GlobalDescriptorTable {
    pub const NUM_ITEMS: usize = 16;

    pub const OFFSET_TSS: usize = 128;

    /// The table of a processor whose task state segment lies at
    /// `tss_address`: flat code and data segments for the kernel at the
    /// indexes 1 and 2 and for user programs at 5 and 6, the descriptor of
    /// the task state segment at 8 and 9, nothing elsewhere.
    pub fn new(tss_address: u64) -> (r: Self)
        ensures
            r.table@[1] == DescriptorEntry::spec_code_segment(
                Linear32(0),
                Limit32(u32::MAX),
                PrivilegeLevel::Kernel,
                DefaultSize::Use64,
            ),
            r.table@[2] == DescriptorEntry::spec_data_segment(
                Linear32(0),
                Limit32(u32::MAX),
                PrivilegeLevel::Kernel,
            ),
            r.table@[5] == DescriptorEntry::spec_code_segment(
                Linear32(0),
                Limit32(u32::MAX),
                PrivilegeLevel::User,
                DefaultSize::Use64,
            ),
            r.table@[6] == DescriptorEntry::spec_data_segment(
                Linear32(0),
                Limit32(u32::MAX),
                PrivilegeLevel::User,
            ),
            r.table@[8].0 == (9u64 << 40) | ((((tss_address as u32) as u64 & 0x00FF_FFFF) << 16) | (((
            tss_address as u32) as u64 & 0xFF00_0000) << 32)) | 0x67 | 0x8000_0000_0000,
            r.table@[9].0 == tss_address >> 32,
            forall|i: int|
                0 <= i < 16 && i != 1 && i != 2 && i != 5 && i != 6 && i != 8 && i != 9
                    ==> r.table@[i].0 == 0,
    {
        let mut gdt = GlobalDescriptorTable {
            table: [DescriptorEntry(0); 16],
            tss: TaskStateSegment::new(),
        };
        assert(0x08u16 >> 3 == 1 && 0x10u16 >> 3 == 2 && 0x2Bu16 >> 3 == 5 && 0x33u16 >> 3 == 6
            && 0x40u16 >> 3 == 8 && 0x48u16 >> 3 == 9) by (bit_vector);
        let _ = gdt.set_item(
            Selector(Selector::KERNEL_CODE),
            DescriptorEntry::flat_code_segment(PrivilegeLevel::Kernel, DefaultSize::Use64),
        );
        let _ = gdt.set_item(
            Selector(Selector::KERNEL_DATA),
            DescriptorEntry::flat_data_segment(PrivilegeLevel::Kernel),
        );
        let _ = gdt.set_item(
            Selector(Selector::USER_CODE),
            DescriptorEntry::flat_code_segment(PrivilegeLevel::User, DefaultSize::Use64),
        );
        let _ = gdt.set_item(
            Selector(Selector::USER_DATA),
            DescriptorEntry::flat_data_segment(PrivilegeLevel::User),
        );
        let tss_pair = gdt.tss.as_descriptor_pair(tss_address);
        let _ = gdt.set_item(Selector(Selector::SYSTEM_TSS), tss_pair.low);
        let _ = gdt.set_item(Selector(0x48), tss_pair.high);
        gdt
    }

    /// The descriptor that `selector` selects, if its index lies in the
    /// table.
    pub fn item(&self, selector: Selector) -> (r: Option<DescriptorEntry>)
        ensures
            r == if (selector.0 >> 3) < 16 {
                Some(self.table@[(selector.0 >> 3) as int])
            } else {
                None
            },
    {
        let index = selector.index();
        if index < Self::NUM_ITEMS {
            Some(self.table[index])
        } else {
            None
        }
    }

    /// Replaces the descriptor that `selector` selects. Returns `None`, and
    /// changes nothing, if its index lies outside the table.
    pub fn set_item(&mut self, selector: Selector, desc: DescriptorEntry) -> (r: Option<()>)
        ensures
            r.is_some() == ((selector.0 >> 3) < 16),
            final(self).tss == old(self).tss,
            (selector.0 >> 3) < 16 ==> final(self).table@ == old(self).table@.update(
                (selector.0 >> 3) as int,
                desc,
            ),
            (selector.0 >> 3) >= 16 ==> final(self).table@ == old(self).table@,
    {
        let index = selector.index();
        if index < Self::NUM_ITEMS {
            self.table[index] = desc;
            Some(())
        } else {
            None
        }
    }
}

/// The interrupt descriptor table: 256 gates of two descriptors each.
pub struct InterruptDescriptorTable {
    pub table: Vec<DescriptorEntry>,
}

impl InterruptDescriptorTable {
    pub const MAX: usize = 256;

    /// The table without any gate.
    pub fn new() -> (r: Self)
        ensures
            r.table@.len() == 512,
            forall|i: int| 0 <= i < 512 ==> r.table@[i].0 == 0,
    {
        let mut table: Vec<DescriptorEntry> = Vec::new();
        let mut i: usize = 0;
        while i < 512
            invariant
                i <= 512,
                table@.len() == i,
                forall|j: int| 0 <= j < i ==> table@[j].0 == 0,
            decreases 512 - i,
        {
            table.push(DescriptorEntry(0));
            i = i + 1;
        }
        InterruptDescriptorTable { table }
    }

    /// The type of descriptor an interrupt gets: an interrupt gate for the
    /// privilege level `Kernel`, a trap gate for any other level.
    pub open spec fn gate_type(dpl: PrivilegeLevel) -> DescriptorType {
        if dpl == PrivilegeLevel::Kernel {
            DescriptorType::InterruptGate
        } else {
            DescriptorType::TrapGate
        }
    }

    /// Points the interrupt `vec` to the code that begins at `offset` in
    /// the code segment of the kernel. Its place in the table must be free.
    pub fn register(&mut self, vec: InterruptVector, offset: usize, dpl: PrivilegeLevel)
        requires
            old(self).table@.len() == 512,
            old(self).table@[vec.0 * 2].0 == 0,
        ensures
            final(self).table@.len() == 512,
            final(self).table@[vec.0 * 2].0 == Self::gate_type(dpl).descriptor_bits() | (((
            (offset as u64) as u32) as u64 & 0xFFFF) | ((((offset as u64) as u32) as u64
                & 0xFFFF_0000) << 32)) | (0x08u64 << 16) | 0 | dpl.descriptor_bits()
                | 0x8000_0000_0000,
            final(self).table@[vec.0 * 2 + 1].0 == (offset as u64) >> 32,
            forall|i: int|
                0 <= i < 512 && i != vec.0 * 2 && i != vec.0 * 2 + 1 ==> final(self).table@[i]
                    == old(self).table@[i],
    {
        let table_offset = vec.0 as usize * 2;
        let ty = if dpl == PrivilegeLevel::Kernel {
            DescriptorType::InterruptGate
        } else {
            DescriptorType::TrapGate
        };
        let pair = DescriptorEntry::gate_descriptor(
            Offset64(offset as u64),
            Selector(Selector::KERNEL_CODE),
            dpl,
            ty,
            None,
        );
        self.table[table_offset + 1] = pair.high;
        self.table[table_offset] = pair.low;
    }
}

/// The number of an interrupt.
#[derive(Debug, Copy, Clone, PartialEq, Eq, Structural, PartialOrd, Ord)]
pub struct InterruptVector(pub u8);

impl InterruptVector {
    pub const IPI_INVALIDATE_TLB: u8 = 0xEE;

    pub const IPI_SCHEDULE: u8 = 0xFC;
}

/// The exceptions of the processor.
#[derive(Debug, Copy, Clone, PartialEq, Eq, Structural, PartialOrd, Ord)]
pub enum ExceptionType {
    DivideError,
    Debug,
    NonMaskable,
    Breakpoint,
    Overflow,
    InvalidOpcode,
    DeviceNotAvailable,
    DoubleFault,
    InvalidTss,
    SegmentNotPresent,
    StackException,
    GeneralProtection,
    PageFault,
    FloatingPointException,
    AlignmentCheck,
    MachineCheck,
    SimdException,
    Virtualization,
    ControlProtection,
    Security,
    MAX,
}

impl ExceptionType {
    /// The interrupt number of the exception.
    pub open spec fn spec_vec(self) -> u8 {
        match self {
            ExceptionType::DivideError => 0,
            ExceptionType::Debug => 1,
            ExceptionType::NonMaskable => 2,
            ExceptionType::Breakpoint => 3,
            ExceptionType::Overflow => 4,
            ExceptionType::InvalidOpcode => 6,
            ExceptionType::DeviceNotAvailable => 7,
            ExceptionType::DoubleFault => 8,
            ExceptionType::InvalidTss => 10,
            ExceptionType::SegmentNotPresent => 11,
            ExceptionType::StackException => 12,
            ExceptionType::GeneralProtection => 13,
            ExceptionType::PageFault => 14,
            ExceptionType::FloatingPointException => 16,
            ExceptionType::AlignmentCheck => 17,
            ExceptionType::MachineCheck => 18,
            ExceptionType::SimdException => 19,
            ExceptionType::Virtualization => 20,
            ExceptionType::ControlProtection => 21,
            ExceptionType::Security => 30,
            ExceptionType::MAX => 32,
        }
    }

    pub fn as_vec(self) -> (r: InterruptVector)
        ensures
            r.0 == self.spec_vec(),
    {
        InterruptVector(
            match self {
                ExceptionType::DivideError => 0,
                ExceptionType::Debug => 1,
                ExceptionType::NonMaskable => 2,
                ExceptionType::Breakpoint => 3,
                ExceptionType::Overflow => 4,
                ExceptionType::InvalidOpcode => 6,
                ExceptionType::DeviceNotAvailable => 7,
                ExceptionType::DoubleFault => 8,
                ExceptionType::InvalidTss => 10,
                ExceptionType::SegmentNotPresent => 11,
                ExceptionType::StackException => 12,
                ExceptionType::GeneralProtection => 13,
                ExceptionType::PageFault => 14,
                ExceptionType::FloatingPointException => 16,
                ExceptionType::AlignmentCheck => 17,
                ExceptionType::MachineCheck => 18,
                ExceptionType::SimdException => 19,
                ExceptionType::Virtualization => 20,
                ExceptionType::ControlProtection => 21,
                ExceptionType::Security => 30,
                ExceptionType::MAX => 32,
            },
        )
    }

    /// The exception with the given interrupt number, if there is one.
    pub fn from_vec(vec: InterruptVector) -> (r: Option<Self>)
        ensures
            r.is_some() == (exists|e: ExceptionType| e.spec_vec() == vec.0),
            r matches Some(e) ==> e.spec_vec() == vec.0,
    {
        let r = match vec.0 {
            0 => Some(ExceptionType::DivideError),
            1 => Some(ExceptionType::Debug),
            2 => Some(ExceptionType::NonMaskable),
            3 => Some(ExceptionType::Breakpoint),
            4 => Some(ExceptionType::Overflow),
            6 => Some(ExceptionType::InvalidOpcode),
            7 => Some(ExceptionType::DeviceNotAvailable),
            8 => Some(ExceptionType::DoubleFault),
            10 => Some(ExceptionType::InvalidTss),
            11 => Some(ExceptionType::SegmentNotPresent),
            12 => Some(ExceptionType::StackException),
            13 => Some(ExceptionType::GeneralProtection),
            14 => Some(ExceptionType::PageFault),
            16 => Some(ExceptionType::FloatingPointException),
            17 => Some(ExceptionType::AlignmentCheck),
            18 => Some(ExceptionType::MachineCheck),
            19 => Some(ExceptionType::SimdException),
            20 => Some(ExceptionType::Virtualization),
            21 => Some(ExceptionType::ControlProtection),
            30 => Some(ExceptionType::Security),
            32 => Some(ExceptionType::MAX),
            _ => None,
        };
        proof {
            if r.is_some() {
                assert(r.unwrap().spec_vec() == vec.0);
            }
        }
        r
    }

    /// Whether the processor pushes an error code with the exception.
    pub open spec fn spec_has_error_code(&self) -> bool {
        match self {
            ExceptionType::DoubleFault
            | ExceptionType::InvalidTss
            | ExceptionType::SegmentNotPresent
            | ExceptionType::StackException
            | ExceptionType::GeneralProtection
            | ExceptionType::PageFault
            | ExceptionType::AlignmentCheck
            | ExceptionType::Security => true,
            _ => false,
        }
    }

    pub fn has_error_code(&self) -> (r: bool)
        ensures
            r == self.spec_has_error_code(),
    {
        match self {
            ExceptionType::DoubleFault
            | ExceptionType::InvalidTss
            | ExceptionType::SegmentNotPresent
            | ExceptionType::StackException
            | ExceptionType::GeneralProtection
            | ExceptionType::PageFault
            | ExceptionType::AlignmentCheck
            | ExceptionType::Security => true,
            _ => false,
        }
    }

    /// The short name of the exception.
    pub open spec fn spec_mnemonic(&self) -> Seq<char> {
        match self {
            ExceptionType::DivideError => "#DE"@,
            ExceptionType::Debug => "#DB"@,
            ExceptionType::NonMaskable => "NMI"@,
            ExceptionType::Breakpoint => "#BP"@,
            ExceptionType::Overflow => "#OV"@,
            ExceptionType::InvalidOpcode => "#UD"@,
            ExceptionType::DeviceNotAvailable => "#NM"@,
            ExceptionType::DoubleFault => "#DF"@,
            ExceptionType::InvalidTss => "#TS"@,
            ExceptionType::SegmentNotPresent => "#NP"@,
            ExceptionType::StackException => "#SS"@,
            ExceptionType::GeneralProtection => "#GP"@,
            ExceptionType::PageFault => "#PF"@,
            ExceptionType::FloatingPointException => "#MF"@,
            ExceptionType::AlignmentCheck => "#AC"@,
            ExceptionType::MachineCheck => "#MC"@,
            ExceptionType::SimdException => "#XM"@,
            ExceptionType::Virtualization => "#VE"@,
            ExceptionType::Security => "#SX"@,
            _ => ""@,
        }
    }

    pub fn mnemonic(&self) -> (r: &'static str)
        ensures
            r@ == self.spec_mnemonic(),
    {
        match self {
            ExceptionType::DivideError => "#DE",
            ExceptionType::Debug => "#DB",
            ExceptionType::NonMaskable => "NMI",
            ExceptionType::Breakpoint => "#BP",
            ExceptionType::Overflow => "#OV",
            ExceptionType::InvalidOpcode => "#UD",
            ExceptionType::DeviceNotAvailable => "#NM",
            ExceptionType::DoubleFault => "#DF",
            ExceptionType::InvalidTss => "#TS",
            ExceptionType::SegmentNotPresent => "#NP",
            ExceptionType::StackException => "#SS",
            ExceptionType::GeneralProtection => "#GP",
            ExceptionType::PageFault => "#PF",
            ExceptionType::FloatingPointException => "#MF",
            ExceptionType::AlignmentCheck => "#AC",
            ExceptionType::MachineCheck => "#MC",
            ExceptionType::SimdException => "#XM",
            ExceptionType::Virtualization => "#VE",
            ExceptionType::Security => "#SX",
            _ => "",
        }
    }
}

impl From<ExceptionType> for InterruptVector {
    fn from(ex: ExceptionType) -> (r: InterruptVector) {
        ex.as_vec()
    }
}

impl FromSpecImpl<ExceptionType> for InterruptVector {
    open spec fn obeys_from_spec() -> bool {
        true
    }

    open spec fn from_spec(ex: ExceptionType) -> InterruptVector {
        InterruptVector(ex.spec_vec())
    }
}

/// The task state segment.
#[derive(Debug, Copy, Clone, Default, PartialEq, Eq)]
pub struct TaskStateSegment {
    pub stack_pointer: [u64; 3],
    pub ist: [u64; 7],
    pub iomap_base: u16,
}

impl TaskStateSegment {
    /// The offset of the stack pointer for ring 0.
    pub const OFFSET_RSP0: usize = 0x04;

    /// The limit of the segment: its size less one.
    pub const LIMIT: u16 = 0x67;

    /// A segment with every field zero.
    pub fn new() -> (r: Self)
        ensures
            forall|i: int| 0 <= i < 3 ==> r.stack_pointer@[i] == 0,
            forall|i: int| 0 <= i < 7 ==> r.ist@[i] == 0,
            r.iomap_base == 0,
    {
        TaskStateSegment { stack_pointer: [0u64; 3], ist: [0u64; 7], iomap_base: 0 }
    }

    /// The descriptor of the segment, which lies at `address`.
    pub fn as_descriptor_pair(&self, address: u64) -> (r: DescriptorPair)
        ensures
            r.low.0 == (9u64 << 40) | ((((address as u32) as u64 & 0x00FF_FFFF) << 16) | (((
            address as u32) as u64 & 0xFF00_0000) << 32)) | 0x67 | 0x8000_0000_0000,
            r.high.0 == address >> 32,
    {
        DescriptorEntry::tss_descriptor(Linear64(address), Limit16(Self::LIMIT))
    }
}

/// A processor feature, by the CPUID register that reports it.
#[derive(Debug, Copy, Clone, PartialEq, Eq, Structural)]
pub enum Feature {
    F01D(F01D),
    F01C(F01C),
    F07B(F070B),
    F07C(F070C),
    F07D(F070D),
    F81D(F81D),
    F81C(F81C),
}

impl Feature {
    /// The bit of its register that reports the feature.
    pub open spec fn spec_bit(self) -> u32 {
        match self {
            Feature::F01D(bit) => bit.spec_bit(),
            Feature::F01C(bit) => bit.spec_bit(),
            Feature::F07B(bit) => bit.spec_bit(),
            Feature::F07C(bit) => bit.spec_bit(),
            Feature::F07D(bit) => bit.spec_bit(),
            Feature::F81D(bit) => bit.spec_bit(),
            Feature::F81C(bit) => bit.spec_bit(),
        }
    }

    /// Whether the feature is reported in `register`, the CPUID register
    /// that reports it.
    pub fn has_feature(&self, register: u32) -> (r: bool)
        ensures
            r == ((register & (1u32 << self.spec_bit())) != 0),
    {
        let bit = match *self {
            Feature::F01D(bit) => bit.bit(),
            Feature::F01C(bit) => bit.bit(),
            Feature::F07B(bit) => bit.bit(),
            Feature::F07C(bit) => bit.bit(),
            Feature::F07D(bit) => bit.bit(),
            Feature::F81D(bit) => bit.bit(),
            Feature::F81C(bit) => bit.bit(),
        };
        (register & (1u32 << bit)) != 0
    }
}

/// Processor features reported by CPUID leaf 1, register EDX.
#[allow(non_camel_case_types)]
#[derive(Debug, Copy, Clone, PartialEq, Eq, Structural)]
pub enum F01D {
    FPU,
    VME,
    DE,
    PSE,
    TSC,
    MSR,
    PAE,
    MCE,
    CX8,
    APIC,
    SEP,
    MTRR,
    MGE,
    MCA,
    CMOV,
    PAT,
    PSE36,
    PSN,
    CLFSH,
    DS,
    ACPI,
    MMX,
    FXSR,
    SSE,
    SSE2,
    SS,
    HTT,
    TM,
    IA64,
    PBE,
}

impl F01D {
    /// The bit of the register that reports the feature.
    pub open spec fn spec_bit(self) -> u32 {
        match self {
            F01D::FPU => 0,
            F01D::VME => 1,
            F01D::DE => 2,
            F01D::PSE => 3,
            F01D::TSC => 4,
            F01D::MSR => 5,
            F01D::PAE => 6,
            F01D::MCE => 7,
            F01D::CX8 => 8,
            F01D::APIC => 9,
            F01D::SEP => 11,
            F01D::MTRR => 12,
            F01D::MGE => 13,
            F01D::MCA => 14,
            F01D::CMOV => 15,
            F01D::PAT => 16,
            F01D::PSE36 => 17,
            F01D::PSN => 18,
            F01D::CLFSH => 19,
            F01D::DS => 21,
            F01D::ACPI => 22,
            F01D::MMX => 23,
            F01D::FXSR => 24,
            F01D::SSE => 25,
            F01D::SSE2 => 26,
            F01D::SS => 27,
            F01D::HTT => 28,
            F01D::TM => 29,
            F01D::IA64 => 30,
            F01D::PBE => 31,
        }
    }

    pub fn bit(self) -> (r: u32)
        ensures
            r == self.spec_bit(),
            r < 32,
    {
        match self {
            F01D::FPU => 0,
            F01D::VME => 1,
            F01D::DE => 2,
            F01D::PSE => 3,
            F01D::TSC => 4,
            F01D::MSR => 5,
            F01D::PAE => 6,
            F01D::MCE => 7,
            F01D::CX8 => 8,
            F01D::APIC => 9,
            F01D::SEP => 11,
            F01D::MTRR => 12,
            F01D::MGE => 13,
            F01D::MCA => 14,
            F01D::CMOV => 15,
            F01D::PAT => 16,
            F01D::PSE36 => 17,
            F01D::PSN => 18,
            F01D::CLFSH => 19,
            F01D::DS => 21,
            F01D::ACPI => 22,
            F01D::MMX => 23,
            F01D::FXSR => 24,
            F01D::SSE => 25,
            F01D::SSE2 => 26,
            F01D::SS => 27,
            F01D::HTT => 28,
            F01D::TM => 29,
            F01D::IA64 => 30,
            F01D::PBE => 31,
        }
    }
}

/// Processor features reported by CPUID leaf 1, register ECX.
#[allow(non_camel_case_types)]
#[derive(Debug, Copy, Clone, PartialEq, Eq, Structural)]
pub enum F01C {
    SSE3,
    PCLMULQDQ,
    DTES64,
    MONITOR,
    DS_CPL,
    VMX,
    SMX,
    EST,
    TM2,
    SSSE3,
    CNXT_ID,
    SDBG,
    FMA,
    CX16,
    XTPR,
    PDCM,
    PCID,
    DCA,
    SSE4_1,
    SSE4_2,
    X2APIC,
    MOVBE,
    POPCNT,
    TSC_DEADLINE,
    AES,
    XSAVE,
    OSXSAVE,
    AVX,
    F16C,
    RDRND,
    HYPERVISOR,
}

impl F01C {
    /// The bit of the register that reports the feature.
    pub open spec fn spec_bit(self) -> u32 {
        match self {
            F01C::SSE3 => 0,
            F01C::PCLMULQDQ => 1,
            F01C::DTES64 => 2,
            F01C::MONITOR => 3,
            F01C::DS_CPL => 4,
            F01C::VMX => 5,
            F01C::SMX => 6,
            F01C::EST => 7,
            F01C::TM2 => 8,
            F01C::SSSE3 => 9,
            F01C::CNXT_ID => 10,
            F01C::SDBG => 11,
            F01C::FMA => 12,
            F01C::CX16 => 13,
            F01C::XTPR => 14,
            F01C::PDCM => 15,
            F01C::PCID => 17,
            F01C::DCA => 18,
            F01C::SSE4_1 => 19,
            F01C::SSE4_2 => 20,
            F01C::X2APIC => 21,
            F01C::MOVBE => 22,
            F01C::POPCNT => 23,
            F01C::TSC_DEADLINE => 24,
            F01C::AES => 25,
            F01C::XSAVE => 26,
            F01C::OSXSAVE => 27,
            F01C::AVX => 28,
            F01C::F16C => 29,
            F01C::RDRND => 30,
            F01C::HYPERVISOR => 31,
        }
    }

    pub fn bit(self) -> (r: u32)
        ensures
            r == self.spec_bit(),
            r < 32,
    {
        match self {
            F01C::SSE3 => 0,
            F01C::PCLMULQDQ => 1,
            F01C::DTES64 => 2,
            F01C::MONITOR => 3,
            F01C::DS_CPL => 4,
            F01C::VMX => 5,
            F01C::SMX => 6,
            F01C::EST => 7,
            F01C::TM2 => 8,
            F01C::SSSE3 => 9,
            F01C::CNXT_ID => 10,
            F01C::SDBG => 11,
            F01C::FMA => 12,
            F01C::CX16 => 13,
            F01C::XTPR => 14,
            F01C::PDCM => 15,
            F01C::PCID => 17,
            F01C::DCA => 18,
            F01C::SSE4_1 => 19,
            F01C::SSE4_2 => 20,
            F01C::X2APIC => 21,
            F01C::MOVBE => 22,
            F01C::POPCNT => 23,
            F01C::TSC_DEADLINE => 24,
            F01C::AES => 25,
            F01C::XSAVE => 26,
            F01C::OSXSAVE => 27,
            F01C::AVX => 28,
            F01C::F16C => 29,
            F01C::RDRND => 30,
            F01C::HYPERVISOR => 31,
        }
    }
}

/// Processor features reported by CPUID leaf 7, subleaf 0, register EBX.
#[allow(non_camel_case_types)]
#[derive(Debug, Copy, Clone, PartialEq, Eq, Structural)]
pub enum F070B {
    FSGSBASE,
    IA32_TSC_ADJUST,
    SGX,
    BMI1,
    HLE,
    AVX2,
    FDP_EXCPTN_ONLY,
    SMEP,
    BMI2,
    ERMS,
    INVPCID,
    RTM,
    PQM,
    MPX,
    PQE,
    AVX512_F,
    AVX512_DQ,
    RDSEED,
    ADX,
    SMAP,
    AVX512_IFMA,
    PCOMMIT,
    CLFLUSHIPT,
    CLWB,
    INTEL_PT,
    AVX512_PF,
    AVX512_ER,
    AVX512_CD,
    SHA,
    AVX512_BW,
    AVX512_VL,
}

impl F070B {
    /// The bit of the register that reports the feature.
    pub open spec fn spec_bit(self) -> u32 {
        match self {
            F070B::FSGSBASE => 0,
            F070B::IA32_TSC_ADJUST => 1,
            F070B::SGX => 2,
            F070B::BMI1 => 3,
            F070B::HLE => 4,
            F070B::AVX2 => 5,
            F070B::FDP_EXCPTN_ONLY => 6,
            F070B::SMEP => 7,
            F070B::BMI2 => 8,
            F070B::ERMS => 9,
            F070B::INVPCID => 10,
            F070B::RTM => 11,
            F070B::PQM => 12,
            F070B::MPX => 14,
            F070B::PQE => 15,
            F070B::AVX512_F => 16,
            F070B::AVX512_DQ => 17,
            F070B::RDSEED => 18,
            F070B::ADX => 19,
            F070B::SMAP => 20,
            F070B::AVX512_IFMA => 21,
            F070B::PCOMMIT => 22,
            F070B::CLFLUSHIPT => 23,
            F070B::CLWB => 24,
            F070B::INTEL_PT => 25,
            F070B::AVX512_PF => 26,
            F070B::AVX512_ER => 27,
            F070B::AVX512_CD => 28,
            F070B::SHA => 29,
            F070B::AVX512_BW => 30,
            F070B::AVX512_VL => 31,
        }
    }

    pub fn bit(self) -> (r: u32)
        ensures
            r == self.spec_bit(),
            r < 32,
    {
        match self {
            F070B::FSGSBASE => 0,
            F070B::IA32_TSC_ADJUST => 1,
            F070B::SGX => 2,
            F070B::BMI1 => 3,
            F070B::HLE => 4,
            F070B::AVX2 => 5,
            F070B::FDP_EXCPTN_ONLY => 6,
            F070B::SMEP => 7,
            F070B::BMI2 => 8,
            F070B::ERMS => 9,
            F070B::INVPCID => 10,
            F070B::RTM => 11,
            F070B::PQM => 12,
            F070B::MPX => 14,
            F070B::PQE => 15,
            F070B::AVX512_F => 16,
            F070B::AVX512_DQ => 17,
            F070B::RDSEED => 18,
            F070B::ADX => 19,
            F070B::SMAP => 20,
            F070B::AVX512_IFMA => 21,
            F070B::PCOMMIT => 22,
            F070B::CLFLUSHIPT => 23,
            F070B::CLWB => 24,
            F070B::INTEL_PT => 25,
            F070B::AVX512_PF => 26,
            F070B::AVX512_ER => 27,
            F070B::AVX512_CD => 28,
            F070B::SHA => 29,
            F070B::AVX512_BW => 30,
            F070B::AVX512_VL => 31,
        }
    }
}

/// Processor features reported by CPUID leaf 7, subleaf 0, register ECX.
#[allow(non_camel_case_types)]
#[derive(Debug, Copy, Clone, PartialEq, Eq, Structural)]
pub enum F070C {
    PREFETCHWT1,
    AVX512_VBMI,
    UMIP,
    PKU,
    OSPKE,
    WAITPKG,
    AVX512_VBMI2,
    CET_SS,
    GFNI,
    VAES,
    VPCLMULQDQ,
    AVX512_VNNI,
    AVX512_BITALG,
    AVX512_VPOPCNTDQ,
    LA57,
    RDPID,
    CLDEMOTE,
    MOVDIRI,
    MOVDIR64B,
    ENQCMD,
    SGX_LC,
    PKS,
}

impl F070C {
    /// The bit of the register that reports the feature.
    pub open spec fn spec_bit(self) -> u32 {
        match self {
            F070C::PREFETCHWT1 => 0,
            F070C::AVX512_VBMI => 1,
            F070C::UMIP => 2,
            F070C::PKU => 3,
            F070C::OSPKE => 4,
            F070C::WAITPKG => 5,
            F070C::AVX512_VBMI2 => 6,
            F070C::CET_SS => 7,
            F070C::GFNI => 8,
            F070C::VAES => 9,
            F070C::VPCLMULQDQ => 10,
            F070C::AVX512_VNNI => 11,
            F070C::AVX512_BITALG => 12,
            F070C::AVX512_VPOPCNTDQ => 14,
            F070C::LA57 => 16,
            F070C::RDPID => 22,
            F070C::CLDEMOTE => 25,
            F070C::MOVDIRI => 27,
            F070C::MOVDIR64B => 28,
            F070C::ENQCMD => 29,
            F070C::SGX_LC => 30,
            F070C::PKS => 31,
        }
    }

    pub fn bit(self) -> (r: u32)
        ensures
            r == self.spec_bit(),
            r < 32,
    {
        match self {
            F070C::PREFETCHWT1 => 0,
            F070C::AVX512_VBMI => 1,
            F070C::UMIP => 2,
            F070C::PKU => 3,
            F070C::OSPKE => 4,
            F070C::WAITPKG => 5,
            F070C::AVX512_VBMI2 => 6,
            F070C::CET_SS => 7,
            F070C::GFNI => 8,
            F070C::VAES => 9,
            F070C::VPCLMULQDQ => 10,
            F070C::AVX512_VNNI => 11,
            F070C::AVX512_BITALG => 12,
            F070C::AVX512_VPOPCNTDQ => 14,
            F070C::LA57 => 16,
            F070C::RDPID => 22,
            F070C::CLDEMOTE => 25,
            F070C::MOVDIRI => 27,
            F070C::MOVDIR64B => 28,
            F070C::ENQCMD => 29,
            F070C::SGX_LC => 30,
            F070C::PKS => 31,
        }
    }
}

/// Processor features reported by CPUID leaf 7, subleaf 0, register EDX.
#[allow(non_camel_case_types)]
#[derive(Debug, Copy, Clone, PartialEq, Eq, Structural)]
pub enum F070D {
    AVX512_4VNNIW,
    AVX512_4FMAPS,
    FSRM,
    AVX512_VP2INTERSECT,
    SRBDS_CTRL,
    MD_CLEAR,
    TSX_FORCE_ABORT,
    SERIALIZE,
    HYBRID,
    TSXLDTRK,
    PCONFIG,
    LBR,
    CET_IBT,
    AMX_BF16,
    AMX_TILE,
    AMX_INT8,
    IBRS_IBPB,
    STIBP,
    L1D_FLUSH,
    IA32_ARCH_CAPABILITIES,
    IA32_CORE_CAPABILITIES,
    SSBD,
}

impl F070D {
    /// The bit of the register that reports the feature.
    pub open spec fn spec_bit(self) -> u32 {
        match self {
            F070D::AVX512_4VNNIW => 2,
            F070D::AVX512_4FMAPS => 3,
            F070D::FSRM => 4,
            F070D::AVX512_VP2INTERSECT => 8,
            F070D::SRBDS_CTRL => 9,
            F070D::MD_CLEAR => 10,
            F070D::TSX_FORCE_ABORT => 13,
            F070D::SERIALIZE => 14,
            F070D::HYBRID => 15,
            F070D::TSXLDTRK => 16,
            F070D::PCONFIG => 18,
            F070D::LBR => 19,
            F070D::CET_IBT => 20,
            F070D::AMX_BF16 => 22,
            F070D::AMX_TILE => 24,
            F070D::AMX_INT8 => 25,
            F070D::IBRS_IBPB => 26,
            F070D::STIBP => 27,
            F070D::L1D_FLUSH => 28,
            F070D::IA32_ARCH_CAPABILITIES => 29,
            F070D::IA32_CORE_CAPABILITIES => 30,
            F070D::SSBD => 31,
        }
    }

    pub fn bit(self) -> (r: u32)
        ensures
            r == self.spec_bit(),
            r < 32,
    {
        match self {
            F070D::AVX512_4VNNIW => 2,
            F070D::AVX512_4FMAPS => 3,
            F070D::FSRM => 4,
            F070D::AVX512_VP2INTERSECT => 8,
            F070D::SRBDS_CTRL => 9,
            F070D::MD_CLEAR => 10,
            F070D::TSX_FORCE_ABORT => 13,
            F070D::SERIALIZE => 14,
            F070D::HYBRID => 15,
            F070D::TSXLDTRK => 16,
            F070D::PCONFIG => 18,
            F070D::LBR => 19,
            F070D::CET_IBT => 20,
            F070D::AMX_BF16 => 22,
            F070D::AMX_TILE => 24,
            F070D::AMX_INT8 => 25,
            F070D::IBRS_IBPB => 26,
            F070D::STIBP => 27,
            F070D::L1D_FLUSH => 28,
            F070D::IA32_ARCH_CAPABILITIES => 29,
            F070D::IA32_CORE_CAPABILITIES => 30,
            F070D::SSBD => 31,
        }
    }
}

/// Processor features reported by CPUID leaf 0x8000_0001, register EDX.
#[allow(non_camel_case_types)]
#[derive(Debug, Copy, Clone, PartialEq, Eq, Structural)]
pub enum F81D {
    SYSCALL,
    NX,
    PDPE1GB,
    RDTSCP,
    LM,
}

impl F81D {
    /// The bit of the register that reports the feature.
    pub open spec fn spec_bit(self) -> u32 {
        match self {
            F81D::SYSCALL => 11,
            F81D::NX => 20,
            F81D::PDPE1GB => 26,
            F81D::RDTSCP => 27,
            F81D::LM => 29,
        }
    }

    pub fn bit(self) -> (r: u32)
        ensures
            r == self.spec_bit(),
            r < 32,
    {
        match self {
            F81D::SYSCALL => 11,
            F81D::NX => 20,
            F81D::PDPE1GB => 26,
            F81D::RDTSCP => 27,
            F81D::LM => 29,
        }
    }
}

/// Processor features reported by CPUID leaf 0x8000_0001, register ECX.
#[allow(non_camel_case_types)]
#[derive(Debug, Copy, Clone, PartialEq, Eq, Structural)]
pub enum F81C {
    LAHF_LM,
    CMP_LEGACY,
    SVM,
    EXTAPIC,
    CR8_LEGACY,
    ABM,
    SSE4A,
    MISALIGNSSE,
    _3DNOWPREFETCH,
    OSVW,
    IBS,
    XOP,
    SKINIT,
    WDT,
    LWP,
    FMA4,
    TCE,
    NODEID_MSR,
    TBM,
    TOPOEXT,
    PERFCTR_CORE,
    PERFCTR_NB,
    DBX,
    PERFTSC,
    PCX_L2I,
}

impl F81C {
    /// The bit of the register that reports the feature.
    pub open spec fn spec_bit(self) -> u32 {
        match self {
            F81C::LAHF_LM => 0,
            F81C::CMP_LEGACY => 1,
            F81C::SVM => 2,
            F81C::EXTAPIC => 3,
            F81C::CR8_LEGACY => 4,
            F81C::ABM => 5,
            F81C::SSE4A => 6,
            F81C::MISALIGNSSE => 7,
            F81C::_3DNOWPREFETCH => 8,
            F81C::OSVW => 9,
            F81C::IBS => 10,
            F81C::XOP => 11,
            F81C::SKINIT => 12,
            F81C::WDT => 13,
            F81C::LWP => 15,
            F81C::FMA4 => 16,
            F81C::TCE => 17,
            F81C::NODEID_MSR => 19,
            F81C::TBM => 21,
            F81C::TOPOEXT => 22,
            F81C::PERFCTR_CORE => 23,
            F81C::PERFCTR_NB => 24,
            F81C::DBX => 26,
            F81C::PERFTSC => 27,
            F81C::PCX_L2I => 28,
        }
    }

    pub fn bit(self) -> (r: u32)
        ensures
            r == self.spec_bit(),
            r < 32,
    {
        match self {
            F81C::LAHF_LM => 0,
            F81C::CMP_LEGACY => 1,
            F81C::SVM => 2,
            F81C::EXTAPIC => 3,
            F81C::CR8_LEGACY => 4,
            F81C::ABM => 5,
            F81C::SSE4A => 6,
            F81C::MISALIGNSSE => 7,
            F81C::_3DNOWPREFETCH => 8,
            F81C::OSVW => 9,
            F81C::IBS => 10,
            F81C::XOP => 11,
            F81C::SKINIT => 12,
            F81C::WDT => 13,
            F81C::LWP => 15,
            F81C::FMA4 => 16,
            F81C::TCE => 17,
            F81C::NODEID_MSR => 19,
            F81C::TBM => 21,
            F81C::TOPOEXT => 22,
            F81C::PERFCTR_CORE => 23,
            F81C::PERFCTR_NB => 24,
            F81C::DBX => 26,
            F81C::PERFTSC => 27,
            F81C::PCX_L2I => 28,
        }
    }
}

/// The kind of a core of a hybrid processor.
#[derive(Debug, Clone, Copy, PartialEq, Eq, Structural)]
pub enum NativeModelCoreType {
    Performance,
    Efficient,
}

impl NativeModelCoreType {
    pub const CORE_TYPE_ATOM: u8 = 0x20;

    pub const CORE_TYPE_CORE: u8 = 0x40;

    pub open spec fn spec_from_u8(value: u8) -> Option<NativeModelCoreType> {
        if value == 0x20 {
            Some(NativeModelCoreType::Efficient)
        } else if value == 0x40 {
            Some(NativeModelCoreType::Performance)
        } else {
            None
        }
    }

    /// The kind of core that CPUID reports as `value`.
    pub fn from_u8(value: u8) -> (r: Option<Self>)
        ensures
            r == Self::spec_from_u8(value),
    {
        if value == Self::CORE_TYPE_ATOM {
            Some(NativeModelCoreType::Efficient)
        } else if value == Self::CORE_TYPE_CORE {
            Some(NativeModelCoreType::Performance)
        } else {
            None
        }
    }
}

/// The number of a variable memory type range register pair.
#[derive(Debug, Clone, Copy, PartialEq, Eq, Structural, PartialOrd, Ord)]
pub struct MtrrIndex(pub u8);

/// The address of a model-specific register.
#[derive(Debug, Copy, Clone, PartialEq, Eq, Structural, PartialOrd, Ord)]
pub struct MSR(pub u32);

#[allow(non_upper_case_globals)]
impl MSR {
    pub const IA32_TSC: u32 = 0x0000_0010;

    pub const IA32_PLATFORM_ID: u32 = 0x0000_0017;

    pub const IA32_APIC_BASE: u32 = 0x0000_001B;

    pub const IA32_FEATURE_CONTROL: u32 = 0x0000_003A;

    pub const IA32_TSC_ADJUST: u32 = 0x0000_003B;

    pub const IA32_MTRRCAP: u32 = 0x0000_00FE;

    pub const IA32_MISC_ENABLE: u32 = 0x0000_01A0;

    pub const IA32_TSC_DEADLINE: u32 = 0x0000_06E0;

    pub const IA32_SYSENTER_CS: u32 = 0x0000_0174;

    pub const IA32_SYSENTER_ESP: u32 = 0x0000_0175;

    pub const IA32_SYSENTER_EIP: u32 = 0x0000_0176;

    pub const IA32_PAT: u32 = 0x0000_0277;

    pub const IA32_MTRR_DEF_TYPE: u32 = 0x0000_02FF;

    pub const IA32_HW_FEEDBACK_PTR: u32 = 0x0000_17D0;

    pub const IA32_HW_FEEDBACK_CONFIG: u32 = 0x0000_17D1;

    pub const IA32_THREAD_FEEDBACK_CHAR: u32 = 0x0000_17D2;

    pub const IA32_HW_FEEDBACK_THREAD_CONFIG: u32 = 0x0000_17D4;

    pub const IA32_EFER: u32 = 0xC000_0080;

    pub const IA32_STAR: u32 = 0xC000_0081;

    pub const IA32_LSTAR: u32 = 0xC000_0082;

    pub const IA32_CSTAR: u32 = 0xC000_0083;

    pub const IA32_FMASK: u32 = 0xC000_0084;

    pub const IA32_FS_BASE: u32 = 0xC000_0100;

    pub const IA32_GS_BASE: u32 = 0xC000_0101;

    pub const IA32_KERNEL_GS_BASE: u32 = 0xC000_0102;

    pub const IA32_TSC_AUX: u32 = 0xC000_0103;

    pub const CPU_WATCHDOG_TIMER: u32 = 0xC001_0074;

    /// The register that holds the base of range `n`.
    #[allow(non_snake_case)]
    pub fn IA32_MTRRphysBase(n: MtrrIndex) -> (r: Self)
        ensures
            r.0 == 0x200 + n.0 * 2,
    {
        MSR(0x0000_0200 + n.0 as u32 * 2)
    }

    /// The register that holds the mask of range `n`.
    #[allow(non_snake_case)]
    pub fn IA32_MTRRphysMask(n: MtrrIndex) -> (r: Self)
        ensures
            r.0 == 0x201 + n.0 * 2,
    {
        MSR(0x0000_0201 + n.0 as u32 * 2)
    }

    /// The value of IA32_PAT for the eight given memory types: entry `i`
    /// in byte `i`.
    pub open spec fn spec_pat_value(values: Seq<PAT>, n: int) -> u64
        decreases n,
    {
        if n <= 0 {
            0
        } else {
            Self::spec_pat_value(values, n - 1) | ((values[n - 1].spec_code() as u64) << ((8 * (n
                - 1)) as u64))
        }
    }

    pub fn pat_value(values: &[PAT; 8]) -> (r: u64)
        ensures
            r == Self::spec_pat_value(values@, 8),
    {
        let mut data: u64 = 0;
        let mut i: usize = 0;
        while i < 8
            invariant
                i <= 8,
                data == Self::spec_pat_value(values@, i as int),
            decreases 8 - i,
        {
            let shift: u64 = 8 * (i as u64);
            data = data | ((values[i].code() as u64) << shift);
            i = i + 1;
        }
        data
    }
}

/// The two halves of the value of a model-specific register.
#[derive(Debug, Copy, Clone, Default, PartialEq, Eq, Structural)]
pub struct EaxAndEdx {
    pub eax: u32,
    pub edx: u32,
}

impl EaxAndEdx {
    /// The halves of `value`.
    pub fn from_qword(value: u64) -> (r: Self)
        ensures
            r.eax == value as u32,
            r.edx == (value >> 32) as u32,
    {
        EaxAndEdx {
            eax: #[verifier::truncate]
            (value as u32),
            edx: #[verifier::truncate]
            ((value >> 32) as u32),
        }
    }

    /// The value with these halves.
    pub fn qword(&self) -> (r: u64)
        ensures
            r == (self.eax as u64) | ((self.edx as u64) << 32),
    {
        (self.eax as u64) | ((self.edx as u64) << 32)
    }
}

/// A memory type of a memory type range register.
#[derive(Debug, Clone, Copy, PartialEq, Eq, Structural, PartialOrd, Ord)]
pub enum Mtrr {
    UC,
    WC,
    WT,
    WP,
    WB,
}

impl Mtrr {
    pub open spec fn spec_code(self) -> u8 {
        match self {
            Mtrr::UC => 0,
            Mtrr::WC => 1,
            Mtrr::WT => 4,
            Mtrr::WP => 5,
            Mtrr::WB => 6,
        }
    }

    pub fn code(self) -> (r: u8)
        ensures
            r == self.spec_code(),
    {
        match self {
            Mtrr::UC => 0,
            Mtrr::WC => 1,
            Mtrr::WT => 4,
            Mtrr::WP => 5,
            Mtrr::WB => 6,
        }
    }

    /// Whether `value` is the code of a memory type.
    pub open spec fn is_code(value: u8) -> bool {
        value == 0 || value == 1 || value == 4 || value == 5 || value == 6
    }

    /// The memory type with the code `value`.
    pub fn from_raw(value: u8) -> (r: Self)
        requires
            Self::is_code(value),
        ensures
            r.spec_code() == value,
    {
        if value == 0 {
            Mtrr::UC
        } else if value == 1 {
            Mtrr::WC
        } else if value == 4 {
            Mtrr::WT
        } else if value == 5 {
            Mtrr::WP
        } else {
            Mtrr::WB
        }
    }

    /// The number of variable ranges that the register IA32_MTRRCAP, read
    /// as `mtrrcap`, tells of.
    pub fn count(mtrrcap: u64) -> (r: usize)
        ensures
            r == mtrrcap & 0xFF,
            r < 256,
    {
        assert((mtrrcap & 0xFF) < 256) by (bit_vector);
        (mtrrcap & 0xFF) as usize
    }

    /// The indexes of the first `count` variable ranges.
    pub fn indexes(count: u8) -> (r: Vec<MtrrIndex>)
        ensures
            r@.len() == count,
            forall|i: int| 0 <= i < count ==> r@[i] == MtrrIndex(i as u8),
    {
        let mut out: Vec<MtrrIndex> = Vec::new();
        let mut i: u8 = 0;
        while i < count
            invariant
                i <= count,
                out@.len() == i,
                forall|j: int| 0 <= j < i ==> out@[j] == MtrrIndex(j as u8),
            decreases count - i,
        {
            out.push(MtrrIndex(i));
            i = i + 1;
        }
        out
    }
}

/// A variable memory type range.
#[derive(Debug, Clone, Copy, PartialEq, Eq, Structural)]
pub struct MtrrItem {
    pub base: PhysicalAddress,
    pub mask: u64,
    pub mem_type: Mtrr,
    pub is_enabled: bool,
}

impl MtrrItem {
    /// The bits of an address that a range can tell apart.
    pub const ADDR_MASK: u64 = 0xFFFF_FFFF_FFFF_F000;

    /// The range that is switched off.
    pub fn empty() -> (r: Self)
        ensures
            r == (MtrrItem {
                base: PhysicalAddress(0),
                mask: 0,
                mem_type: Mtrr::UC,
                is_enabled: false,
            }),
    {
        MtrrItem { base: PhysicalAddress::new(0), mask: 0, mem_type: Mtrr::UC, is_enabled: false }
    }

    /// The range that the register pair (`base`, `mask`) describes. The
    /// lowest byte of `base` is the memory type; bit 11 of `mask` enables
    /// the range.
    pub fn from_raw(base: u64, mask: u64) -> (r: Self)
        requires
            Mtrr::is_code(base as u8),
        ensures
            r.base.0 == base & 0xFFFF_FFFF_FFFF_F000,
            r.mask == mask & 0xFFFF_FFFF_FFFF_F000,
            r.mem_type.spec_code() == base as u8,
            r.is_enabled == ((mask & 0x800) != 0),
    {
        let mem_type = Mtrr::from_raw(
            #[verifier::truncate]
            (base as u8),
        );
        let is_enabled = (mask & 0x800) != 0;
        MtrrItem {
            base: PhysicalAddress::new(base & Self::ADDR_MASK),
            mask: mask & Self::ADDR_MASK,
            mem_type,
            is_enabled,
        }
    }

    /// The register pair that describes the range, on a processor whose
    /// physical addresses are masked by `physical_address_mask`.
    pub fn into_pair(self, physical_address_mask: u64) -> (r: (u64, u64))
        ensures
            r.0 == (self.base.0 & 0xFFFF_FFFF_FFFF_F000) | (self.mem_type.spec_code() as u64),
            r.1 == (self.mask & 0xFFFF_FFFF_FFFF_F000 & physical_address_mask) | (if self.is_enabled {
                0x800u64
            } else {
                0u64
            }),
    {
        let base = (self.base.as_u64() & Self::ADDR_MASK) | (self.mem_type.code() as u64);
        let enabled: u64 = if self.is_enabled {
            0x800
        } else {
            0
        };
        let mask = (self.mask & Self::ADDR_MASK & physical_address_mask) | enabled;
        (base, mask)
    }

    /// Whether the address lies in the range.
    pub fn matches(&self, other: PhysicalAddress) -> (r: bool)
        ensures
            r == ((self.base.0 & self.mask) == (other.0 & self.mask)),
    {
        (self.base.0 & self.mask) == (other.0 & self.mask)
    }
}

/// Where a range goes into a list of ranges: behind the leading ranges whose
/// base is not above its own. In a sorted list that is behind every range
/// that begins no later.
pub open spec fn mtrr_position(items: Seq<MtrrItem>, item: MtrrItem) -> int
    decreases items.len(),
{
    if items.len() == 0 || items[0].base.0 > item.base.0 {
        0
    } else {
        1 + mtrr_position(items.drop_first(), item)
    }
}

/// The enabled ranges among the given ones, sorted by their bases; ranges
/// with the same base stay in the order in which they were given.
pub open spec fn mtrr_sorted(items: Seq<MtrrItem>) -> Seq<MtrrItem>
    decreases items.len(),
{
    if items.len() == 0 {
        Seq::empty()
    } else {
        let before = mtrr_sorted(items.drop_last());
        if items.last().is_enabled {
            before.insert(mtrr_position(before, items.last()), items.last())
        } else {
            before
        }
    }
}

/// The ranges are in order of their bases.
pub open spec fn mtrr_in_order(items: Seq<MtrrItem>) -> bool {
    forall|i: int, j: int|
        0 <= i < j < items.len() ==> (#[trigger] items[i]).base.0 <= (#[trigger] items[j]).base.0
}

/// The place of a range lies within the list, behind the ranges that begin
/// no later and, in a sorted list, before the ranges that begin later.
pub proof fn lemma_mtrr_position(items: Seq<MtrrItem>, item: MtrrItem)
    ensures
        0 <= mtrr_position(items, item) <= items.len(),
        forall|i: int|
            0 <= i < mtrr_position(items, item) ==> (#[trigger] items[i]).base.0 <= item.base.0,
        mtrr_position(items, item) < items.len() ==> items[mtrr_position(items, item)].base.0
            > item.base.0,
    decreases items.len(),
{
    if items.len() == 0 || items[0].base.0 > item.base.0 {
    } else {
        let rest = items.drop_first();
        lemma_mtrr_position(rest, item);
        assert forall|i: int| 0 <= i < mtrr_position(items, item) implies (
        #[trigger] items[i]).base.0 <= item.base.0 by {
            if i > 0 {
                assert(items[i] == rest[i - 1]);
            }
        }
        if mtrr_position(items, item) < items.len() {
            assert(items[mtrr_position(items, item)] == rest[mtrr_position(rest, item)]);
        }
    }
}

/// The sorted ranges are in order, all enabled, and no more than were given.
pub proof fn lemma_mtrr_sorted(items: Seq<MtrrItem>)
    ensures
        mtrr_in_order(mtrr_sorted(items)),
        mtrr_sorted(items).len() <= items.len(),
        forall|i: int| 0 <= i < mtrr_sorted(items).len() ==> (#[trigger] mtrr_sorted(
            items,
        )[i]).is_enabled,
    decreases items.len(),
{
    if items.len() > 0 {
        lemma_mtrr_sorted(items.drop_last());
        let before = mtrr_sorted(items.drop_last());
        let item = items.last();
        if item.is_enabled {
            lemma_mtrr_position(before, item);
            let p = mtrr_position(before, item);
            let out = before.insert(p, item);
            assert forall|i: int, j: int| 0 <= i < j < out.len() implies (#[trigger] out[i]).base.0
                <= (#[trigger] out[j]).base.0 by {
                if i < p && j < p {
                    assert(out[i] == before[i] && out[j] == before[j]);
                } else if i < p && j == p {
                    assert(out[i] == before[i]);
                } else if i < p && j > p {
                    assert(out[i] == before[i] && out[j] == before[j - 1]);
                    if i != j - 1 {
                        assert(before[i].base.0 <= before[j - 1].base.0);
                    }
                } else if i == p {
                    assert(out[j] == before[j - 1]);
                    if p != j - 1 {
                        assert(before[p].base.0 <= before[j - 1].base.0);
                    }
                } else {
                    assert(out[i] == before[i - 1] && out[j] == before[j - 1]);
                    assert(before[i - 1].base.0 <= before[j - 1].base.0);
                }
            }
            assert forall|i: int| 0 <= i < out.len() implies (#[trigger] out[i]).is_enabled by {
                if i < p {
                    assert(out[i] == before[i]);
                } else if i > p {
                    assert(out[i] == before[i - 1]);
                }
            }
        }
    }
}

impl Mtrr {
    /// The ranges to write to the `count` range registers: the enabled
    /// ranges among `items`, sorted by their bases, cut to `count` if they
    /// are more, and filled up with ranges that are switched off if they are
    /// fewer.
    pub open spec fn spec_arranged(items: Seq<MtrrItem>, count: nat) -> Seq<MtrrItem> {
        let sorted = mtrr_sorted(items);
        if sorted.len() >= count {
            sorted.take(count as int)
        } else {
            sorted + Seq::new(
                (count - sorted.len()) as nat,
                |i: int|
                    MtrrItem {
                        base: PhysicalAddress(0),
                        mask: 0,
                        mem_type: Mtrr::UC,
                        is_enabled: false,
                    },
            )
        }
    }

    /// Arranges the ranges for the `count` range registers.
    pub fn arranged(items: &Vec<MtrrItem>, count: usize) -> (r: Vec<MtrrItem>)
        ensures
            r@ == Self::spec_arranged(items@, count as nat),
            r@.len() == count,
    {
        let mut out: Vec<MtrrItem> = Vec::new();
        let mut i: usize = 0;
        assert(items@.take(0) =~= Seq::empty());
        while i < items.len()
            invariant
                i <= items@.len(),
                out@ == mtrr_sorted(items@.take(i as int)),
            decreases items@.len() - i,
        {
            let item = items[i];
            proof {
                assert(items@.take(i + 1).drop_last() =~= items@.take(i as int));
                assert(items@.take(i + 1).last() == item);
            }
            if item.is_enabled {
                let mut k: usize = 0;
                assert(out@.skip(0) =~= out@);
                while k < out.len() && out[k].base.0 <= item.base.0
                    invariant
                        k <= out@.len(),
                        mtrr_position(out@, item) == k + mtrr_position(out@.skip(k as int), item),
                    decreases out@.len() - k,
                {
                    proof {
                        let rest = out@.skip(k as int);
                        assert(rest[0] == out@[k as int]);
                        assert(rest.drop_first() =~= out@.skip(k + 1));
                    }
                    k = k + 1;
                }
                proof {
                    let rest = out@.skip(k as int);
                    if k < out@.len() {
                        assert(rest[0] == out@[k as int]);
                    }
                    assert(mtrr_position(rest, item) == 0);
                }
                out.insert(k, item);
            }
            i = i + 1;
        }
        assert(items@.take(items@.len() as int) =~= items@);
        let ghost sorted = out@;
        if out.len() >= count {
            out.truncate(count);
            assert(out@ =~= sorted.take(count as int));
        } else {
            while out.len() < count
                invariant
                    sorted.len() <= out@.len() <= count,
                    out@ == sorted + Seq::new(
                        (out@.len() - sorted.len()) as nat,
                        |i: int|
                            MtrrItem {
                                base: PhysicalAddress(0),
                                mask: 0,
                                mem_type: Mtrr::UC,
                                is_enabled: false,
                            },
                    ),
                decreases count - out@.len(),
            {
                let ghost before = out@;
                out.push(MtrrItem::empty());
                assert(out@ =~= sorted + Seq::new(
                    (out@.len() - sorted.len()) as nat,
                    |i: int|
                        MtrrItem {
                            base: PhysicalAddress(0),
                            mask: 0,
                            mem_type: Mtrr::UC,
                            is_enabled: false,
                        },
                ));
            }
        }
        out
    }
}

/// A memory type of the page attribute table.
#[derive(Debug, Clone, Copy, PartialEq, Eq, Structural, PartialOrd, Ord)]
pub enum PAT {
    UC,
    WC,
    WT,
    WP,
    WB,
    UC_,
}

impl PAT {
    pub open spec fn spec_code(self) -> u8 {
        match self {
            PAT::UC => 0,
            PAT::WC => 1,
            PAT::WT => 4,
            PAT::WP => 5,
            PAT::WB => 6,
            PAT::UC_ => 7,
        }
    }

    pub fn code(self) -> (r: u8)
        ensures
            r == self.spec_code(),
    {
        match self {
            PAT::UC => 0,
            PAT::WC => 1,
            PAT::WT => 4,
            PAT::WP => 5,
            PAT::WB => 6,
            PAT::UC_ => 7,
        }
    }
}

/// What the processor and the exception handler leave on the stack when an
/// exception is taken.
#[derive(Debug, Copy, Clone, PartialEq, Eq, Structural)]
pub struct X64ExceptionContext {
    pub _mxcsr: u64,
    pub cr2: u64,
    pub _gs: u64,
    pub _fs: u64,
    pub _es: u64,
    pub _ds: u64,
    pub r15: u64,
    pub r14: u64,
    pub r13: u64,
    pub r12: u64,
    pub r11: u64,
    pub r10: u64,
    pub r9: u64,
    pub r8: u64,
    pub rdi: u64,
    pub rsi: u64,
    pub rbp: u64,
    pub rbx: u64,
    pub rdx: u64,
    pub rcx: u64,
    pub rax: u64,
    pub _vector: u64,
    pub _error_code: u64,
    pub rip: u64,
    pub _cs: u64,
    pub rflags: Rflags,
    pub rsp: u64,
    pub _ss: u64,
}

impl X64ExceptionContext {
    pub fn cs(&self) -> (r: Selector)
        ensures
            r.0 == self._cs as u16,
    {
        Selector(
            #[verifier::truncate]
            (self._cs as u16),
        )
    }

    pub fn ds(&self) -> (r: Selector)
        ensures
            r.0 == self._ds as u16,
    {
        Selector(
            #[verifier::truncate]
            (self._ds as u16),
        )
    }

    pub fn es(&self) -> (r: Selector)
        ensures
            r.0 == self._es as u16,
    {
        Selector(
            #[verifier::truncate]
            (self._es as u16),
        )
    }

    pub fn fs(&self) -> (r: Selector)
        ensures
            r.0 == self._fs as u16,
    {
        Selector(
            #[verifier::truncate]
            (self._fs as u16),
        )
    }

    pub fn gs(&self) -> (r: Selector)
        ensures
            r.0 == self._gs as u16,
    {
        Selector(
            #[verifier::truncate]
            (self._gs as u16),
        )
    }

    pub fn ss(&self) -> (r: Selector)
        ensures
            r.0 == self._ss as u16,
    {
        Selector(
            #[verifier::truncate]
            (self._ss as u16),
        )
    }

    pub fn error_code(&self) -> (r: u16)
        ensures
            r == self._error_code as u16,
    {
        #[verifier::truncate]
        (self._error_code as u16)
    }

    pub fn vector(&self) -> (r: InterruptVector)
        ensures
            r.0 == self._vector as u8,
    {
        InterruptVector(
            #[verifier::truncate]
            (self._vector as u8),
        )
    }

    pub fn mxcsr(&self) -> (r: u32)
        ensures
            r == self._mxcsr as u32,
    {
        #[verifier::truncate]
        (self._mxcsr as u32)
    }
}

/// The registers a system call of a 32-bit program passes.
#[derive(Debug, Copy, Clone, Default, PartialEq, Eq, Structural)]
pub struct LegacySyscallContext {
    pub eax: u32,
    pub ecx: u32,
    pub edx: u32,
    pub ebx: u32,
    pub esi: u32,
    pub edi: u32,
    pub ebp: u32,
    pub eip: u32,
}

} // verus!

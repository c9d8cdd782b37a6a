//! Page table entries, page levels and page fault codes of four-level
//! paging.

use vstd::prelude::*;
use vstd::std_specs::convert::FromSpecImpl;

verus! {

/// A physical address.
#[derive(Debug, Copy, Clone, Default, PartialEq, Eq, Structural, PartialOrd, Ord)]
pub struct PhysicalAddress(pub u64);

impl PhysicalAddress {
    pub fn new(val: u64) -> (r: Self)
        ensures
            r.0 == val,
    {
        PhysicalAddress(val)
    }

    pub fn as_u64(&self) -> (r: u64)
        ensures
            r == self.0,
    {
        self.0
    }
}

/// Access asked for a range of memory.
#[derive(Debug, Copy, Clone, PartialEq, Eq, Structural)]
pub enum MProtect {
    NoAccess,
    Read,
    ReadWrite,
    ReadExec,
}

/// Attribute bits of a page table entry.
#[derive(Debug, Copy, Clone, Default, PartialEq, Eq, Structural)]
pub struct PageAttribute(pub u64);

impl PageAttribute {
    pub const PRESENT: u64 = 0x0000_0000_0000_0001;

    pub const WRITE: u64 = 0x0000_0000_0000_0002;

    pub const USER: u64 = 0x0000_0000_0000_0004;

    pub const PWT: u64 = 0x0000_0000_0000_0008;

    pub const PCD: u64 = 0x0000_0000_0000_0010;

    pub const ACCESS: u64 = 0x0000_0000_0000_0020;

    pub const DIRTY: u64 = 0x0000_0000_0000_0040;

    pub const PAT: u64 = 0x0000_0000_0000_0080;

    pub const LARGE: u64 = 0x0000_0000_0000_0080;

    pub const GLOBAL: u64 = 0x0000_0000_0000_0100;

    pub const AVL_MASK: u64 = 0x0000_0000_0000_0E00;

    pub const LARGE_PAT: u64 = 0x0000_0000_0000_1000;

    pub const NO_EXECUTE: u64 = 0x8000_0000_0000_0000;

    /// The bits that say what may be done with a page: write, user access,
    /// no execution.
    pub const ACCESS_RIGHTS: u64 = 0x8000_0000_0000_0006;

    /// The bits that `set_access_rights` sets: present, write, no execution.
    pub const PROTECTION: u64 = 0x8000_0000_0000_0003;

    pub const AVL_SHIFT: u64 = 9;

    pub fn empty() -> (r: Self)
        ensures
            r.0 == 0,
    {
        PageAttribute(0)
    }

    pub fn from_bits_retain(bits: u64) -> (r: Self)
        ensures
            r.0 == bits,
    {
        PageAttribute(bits)
    }

    pub fn bits(&self) -> (r: u64)
        ensures
            r == self.0,
    {
        self.0
    }

    /// Whether every bit of `flags` is set.
    pub fn contains(&self, flags: PageAttribute) -> (r: bool)
        ensures
            r == ((self.0 & flags.0) == flags.0),
    {
        (self.0 & flags.0) == flags.0
    }

    pub fn insert(&mut self, flags: PageAttribute)
        ensures
            final(self).0 == old(self).0 | flags.0,
    {
        self.0 = self.0 | flags.0;
    }

    pub fn remove(&mut self, flags: PageAttribute)
        ensures
            final(self).0 == old(self).0 & !flags.0,
    {
        self.0 = self.0 & !flags.0;
    }

    /// The bits the software may use, as a number from 0 to 7.
    pub fn avl(&self) -> (r: u64)
        ensures
            r == (self.0 & 0xE00) >> 9,
    {
        (self.0 & 0xE00) >> 9
    }

    /// Sets the bits the software may use to the number `avl`.
    pub fn set_avl(&mut self, avl: u64)
        requires
            avl <= 7,
        ensures
            final(self).0 == (old(self).0 & !0xE00u64) | (avl << 9),
    {
        self.0 = (self.0 & !0xE00u64) | (avl << 9);
    }

    /// The attributes that grant the access asked for.
    pub open spec fn spec_from_mprotect(value: MProtect) -> PageAttribute {
        match value {
            MProtect::NoAccess => PageAttribute(0),
            MProtect::Read => PageAttribute(0x8000_0000_0000_0001),
            MProtect::ReadWrite => PageAttribute(0x8000_0000_0000_0003),
            MProtect::ReadExec => PageAttribute(0x0000_0000_0000_0001),
        }
    }

    pub fn from_mprotect(value: MProtect) -> (r: Self)
        ensures
            r == Self::spec_from_mprotect(value),
    {
        match value {
            MProtect::NoAccess => PageAttribute(0),
            MProtect::Read => PageAttribute(0x8000_0000_0000_0001),
            MProtect::ReadWrite => PageAttribute(0x8000_0000_0000_0003),
            MProtect::ReadExec => PageAttribute(0x0000_0000_0000_0001),
        }
    }
}

/// An entry of a page table: the address of a frame and attribute bits.
#[derive(Debug, Copy, Clone, Default, PartialEq, Eq, Structural)]
pub struct PageTableEntry(pub u64);

impl PageTableEntry {
    /// The bits of an entry that hold the address of the frame.
    pub const ADDRESS_BIT: u64 = 0x0000_FFFF_FFFF_F000;

    /// The bits of an entry that hold attributes of a page of normal size.
    pub const NORMAL_ATTRIBUTE_BITS: u64 = 0x8000_0000_0000_0FFF;

    pub fn empty() -> (r: Self)
        ensures
            r.0 == 0,
    {
        PageTableEntry(0)
    }

    /// The entry for the frame at `base` with the attributes `attr`.
    pub fn new(base: PhysicalAddress, attr: PageAttribute) -> (r: Self)
        ensures
            r.0 == (base.0 & 0x0000_FFFF_FFFF_F000) | attr.0,
    {
        PageTableEntry((base.as_u64() & Self::ADDRESS_BIT) | attr.bits())
    }

    pub fn repr(&self) -> (r: u64)
        ensures
            r == self.0,
    {
        self.0
    }

    pub fn is_empty(&self) -> (r: bool)
        ensures
            r == (self.0 == 0),
    {
        self.0 == 0
    }

    pub fn is_present(&self) -> (r: bool)
        ensures
            r == ((self.0 & 1) == 1),
    {
        self.contains(PageAttribute(PageAttribute::PRESENT))
    }

    /// Whether every bit of `flags` is set.
    pub fn contains(&self, flags: PageAttribute) -> (r: bool)
        ensures
            r == ((self.0 & flags.0) == flags.0),
    {
        (self.0 & flags.bits()) == flags.bits()
    }

    pub fn insert(&mut self, flags: PageAttribute)
        ensures
            final(self).0 == old(self).0 | flags.0,
    {
        self.0 = self.0 | flags.bits();
    }

    pub fn remove(&mut self, flags: PageAttribute)
        ensures
            final(self).0 == old(self).0 & !flags.0,
    {
        self.0 = self.0 & !flags.bits();
    }

    /// Sets the bits of `flags` if `value` holds, and clears them if not.
    pub fn set(&mut self, flags: PageAttribute, value: bool)
        ensures
            final(self).0 == if value {
                old(self).0 | flags.0
            } else {
                old(self).0 & !flags.0
            },
    {
        match value {
            true => self.insert(flags),
            false => self.remove(flags),
        }
    }

    pub fn frame_address(&self) -> (r: PhysicalAddress)
        ensures
            r.0 == self.0 & 0x0000_FFFF_FFFF_F000,
    {
        PhysicalAddress::new(self.0 & Self::ADDRESS_BIT)
    }

    pub fn attributes(&self) -> (r: PageAttribute)
        ensures
            r.0 == self.0 & 0x8000_0000_0000_0FFF,
    {
        PageAttribute::from_bits_retain(self.0 & Self::NORMAL_ATTRIBUTE_BITS)
    }

    pub fn access_rights(&self) -> (r: PageAttribute)
        ensures
            r.0 == self.0 & 0x8000_0000_0000_0006,
    {
        PageAttribute::from_bits_retain(self.0 & PageAttribute::ACCESS_RIGHTS)
    }

    /// Replaces the address of the frame and keeps every other bit.
    pub fn set_frame_address(&mut self, pa: PhysicalAddress)
        ensures
            final(self).0 == (pa.0 & 0x0000_FFFF_FFFF_F000) | (old(self).0 & !0x0000_FFFF_FFFF_F000u64),
    {
        self.0 = (pa.as_u64() & Self::ADDRESS_BIT) | (self.0 & !Self::ADDRESS_BIT);
    }

    /// Replaces every bit but the address of the frame by the bits of
    /// `flags`.
    pub fn set_attributes(&mut self, flags: PageAttribute)
        ensures
            final(self).0 == (old(self).0 & 0x0000_FFFF_FFFF_F000) | (flags.0 & !0x0000_FFFF_FFFF_F000u64),
    {
        self.0 = (self.0 & Self::ADDRESS_BIT) | (flags.bits() & !Self::ADDRESS_BIT);
    }

    /// Sets the present, the write and the no-execution bit to what they
    /// are in `new_attr`, and keeps every other bit.
    pub fn set_access_rights(&mut self, new_attr: PageAttribute)
        ensures
            final(self).0 == (old(self).0 & !0x8000_0000_0000_0003u64) | (new_attr.0
                & 0x8000_0000_0000_0003),
    {
        let ghost a = self.0;
        let ghost n = new_attr.0;
        self.set(PageAttribute(PageAttribute::PRESENT), new_attr.contains(PageAttribute(PageAttribute::PRESENT)));
        self.set(PageAttribute(PageAttribute::WRITE), new_attr.contains(PageAttribute(PageAttribute::WRITE)));
        self.set(
            PageAttribute(PageAttribute::NO_EXECUTE),
            new_attr.contains(PageAttribute(PageAttribute::NO_EXECUTE)),
        );
        assert(({
            let s1 = if (n & 1) == 1 { a | 1 } else { a & !1u64 };
            let s2 = if (n & 2) == 2 { s1 | 2 } else { s1 & !2u64 };
            let s3 = if (n & 0x8000_0000_0000_0000) == 0x8000_0000_0000_0000 {
                s2 | 0x8000_0000_0000_0000
            } else {
                s2 & !0x8000_0000_0000_0000u64
            };
            s3 == (a & !0x8000_0000_0000_0003u64) | (n & 0x8000_0000_0000_0003)
        })) by (bit_vector);
    }

    /// Whether the no-execution bit of `bits` is set.
    pub open spec fn no_execute(bits: u64) -> bool {
        (bits & 0x8000_0000_0000_0000) == 0x8000_0000_0000_0000
    }

    /// Whether the write bit of `bits` is set.
    pub open spec fn writable(bits: u64) -> bool {
        (bits & 2) == 2
    }

    /// What `accept` leaves of an entry: execution is allowed if `new_attr`
    /// allows it, writing is allowed if `new_attr` allows it, and what was
    /// allowed stays allowed.
    pub open spec fn accepted(self, new_attr: PageAttribute) -> PageTableEntry {
        let cleared = if Self::no_execute(self.0) && !Self::no_execute(new_attr.0) {
            self.0 & !0x8000_0000_0000_0000u64
        } else {
            self.0
        };
        if !Self::writable(cleared) && Self::writable(new_attr.0) {
            PageTableEntry(cleared | 2)
        } else {
            PageTableEntry(cleared)
        }
    }

    /// Widens the access rights of an entry of an upper table so that they
    /// allow what `new_attr` allows. Returns `Some` if the entry changed.
    pub fn accept(&mut self, new_attr: PageAttribute) -> (r: Option<()>)
        ensures
            *final(self) == old(self).accepted(new_attr),
            r.is_some() == ((Self::no_execute(old(self).0) && !Self::no_execute(new_attr.0)) || (
            !Self::writable(old(self).0) && Self::writable(new_attr.0))),
    {
        let mut result = false;
        if self.contains(PageAttribute(PageAttribute::NO_EXECUTE)) && !new_attr.contains(
            PageAttribute(PageAttribute::NO_EXECUTE),
        ) {
            self.remove(PageAttribute(PageAttribute::NO_EXECUTE));
            result = true;
        }
        let ghost a = old(self).0;
        assert(((a & !0x8000_0000_0000_0000u64) & 2) == (a & 2)) by (bit_vector);
        if !self.contains(PageAttribute(PageAttribute::WRITE)) && new_attr.contains(
            PageAttribute(PageAttribute::WRITE),
        ) {
            self.insert(PageAttribute(PageAttribute::WRITE));
            result = true;
        }
        if result {
            Some(())
        } else {
            None
        }
    }
}

/// Sets the bits of the attribute.
impl core::ops::AddAssign<PageAttribute> for PageTableEntry {
    fn add_assign(&mut self, rhs: PageAttribute)
        ensures
            final(self).0 == old(self).0 | rhs.0,
    {
        self.insert(rhs);
    }
}

/// Clears the bits of the attribute.
impl core::ops::SubAssign<PageAttribute> for PageTableEntry {
    fn sub_assign(&mut self, rhs: PageAttribute)
        ensures
            final(self).0 == old(self).0 & !rhs.0,
    {
        self.remove(rhs);
    }
}

/// Sets the bits of the attribute.
impl core::ops::BitOrAssign<PageAttribute> for PageTableEntry {
    fn bitor_assign(&mut self, rhs: PageAttribute)
        ensures
            final(self).0 == old(self).0 | rhs.0,
    {
        self.insert(rhs);
    }
}

/// Moves the address of the frame on by `rhs` bytes; the address wraps
/// round at the end of the address space.
impl core::ops::AddAssign<u64> for PageTableEntry {
    fn add_assign(&mut self, rhs: u64)
        ensures
            final(self).0 == ((old(self).0 & 0x0000_FFFF_FFFF_F000).wrapping_add(rhs)
                & 0x0000_FFFF_FFFF_F000) | (old(self).0 & !0x0000_FFFF_FFFF_F000u64),
    {
        let pa = PhysicalAddress(self.frame_address().0.wrapping_add(rhs));
        self.set_frame_address(pa);
    }
}

impl From<PhysicalAddress> for PageTableEntry {
    fn from(value: PhysicalAddress) -> (r: PageTableEntry) {
        PageTableEntry(value.as_u64())
    }
}

impl FromSpecImpl<PhysicalAddress> for PageTableEntry {
    open spec fn obeys_from_spec() -> bool {
        true
    }

    open spec fn from_spec(value: PhysicalAddress) -> PageTableEntry {
        PageTableEntry(value.0)
    }
}

impl From<MProtect> for PageAttribute {
    fn from(value: MProtect) -> (r: PageAttribute) {
        PageAttribute::from_mprotect(value)
    }
}

impl FromSpecImpl<MProtect> for PageAttribute {
    open spec fn obeys_from_spec() -> bool {
        true
    }

    open spec fn from_spec(value: MProtect) -> PageAttribute {
        PageAttribute::spec_from_mprotect(value)
    }
}

/// A level of the page tables, from the page table itself (level 1) up to
/// the table the processor starts from (level 4).
#[derive(Debug, Clone, Copy, PartialEq, Eq, Structural, PartialOrd, Ord)]
pub enum PageLevel {
    /// The lowest level, the page table.
    Level1,
    /// The page directory table.
    Level2,
    /// The page directory pointer table.
    Level3,
    /// The top level, the page map level 4 table.
    Level4,
}

impl PageLevel {
    pub const MASK_MAX_VA: u64 = 0x0000_FFFF_FFFF_FFFF;

    pub const MASK_PER_LEVEL: u64 = 0x1FF;

    pub const BITS_PER_LEVEL: u64 = 9;

    pub const FIRST_LEVEL_BITS: u64 = 12;

    /// The position of the lowest address bit that selects an entry of a
    /// table of this level.
    pub open spec fn spec_shift(self) -> u64 {
        match self {
            PageLevel::Level1 => 12,
            PageLevel::Level2 => 21,
            PageLevel::Level3 => 30,
            PageLevel::Level4 => 39,
        }
    }

    pub fn shift(&self) -> (r: u64)
        ensures
            r == self.spec_shift(),
    {
        Self::FIRST_LEVEL_BITS + Self::BITS_PER_LEVEL * match *self {
            PageLevel::Level1 => 0,
            PageLevel::Level2 => 1,
            PageLevel::Level3 => 2,
            PageLevel::Level4 => 3,
        }
    }

    /// The index into the table of this level that the linear address `va`
    /// selects.
    pub fn component(&self, va: u64) -> (r: u64)
        ensures
            r == (va >> self.spec_shift()) & 0x1FF,
            r < 512,
    {
        let s = self.shift();
        let r = (va >> s) & Self::MASK_PER_LEVEL;
        assert(((va >> s) & 0x1FF) < 512) by (bit_vector);
        r
    }

    /// The lowest linear address that selects entry `component` of the
    /// table of this level and entry 0 of the tables below. Addresses in
    /// the upper half of the address space have their upper 16 bits set.
    pub open spec fn spec_addr(self, component: u64) -> u64 {
        let low = (component & 0x1FF) << self.spec_shift();
        if self == PageLevel::Level4 && component >= 0x100 {
            (low + 0xFFFF_0000_0000_0000) as u64
        } else {
            low
        }
    }

    /// The linear address at which the tables of each level are mapped by
    /// the entry of the top table that maps the tables themselves.
    pub open spec fn recursive_base(self) -> u64 {
        match self {
            PageLevel::Level1 => 0xFFFF_FF00_0000_0000,
            PageLevel::Level2 => 0xFFFF_FF7F_8000_0000,
            PageLevel::Level3 => 0xFFFF_FF7F_BFC0_0000,
            PageLevel::Level4 => 0xFFFF_FF7F_BFDF_E000,
        }
    }

    /// The linear address of the entry of the table of this level that maps
    /// the linear address `va`.
    pub fn pte_of(&self, va: u64) -> (r: u64)
        ensures
            r == self.recursive_base() + (((va & 0x0000_FFFF_FFFF_FFFF) >> self.spec_shift()) << 3),
    {
        let base = va & Self::MASK_MAX_VA;
        let s = self.shift();
        assert(s >= 12 ==> ((((va & 0x0000_FFFF_FFFF_FFFF) >> s) << 3) <= 0x0000_007F_FFFF_FFF8))
            by (bit_vector);
        let offset = (base >> s) << 3;
        match *self {
            PageLevel::Level1 => 0xFFFF_FF00_0000_0000 + offset,
            PageLevel::Level2 => 0xFFFF_FF7F_8000_0000 + offset,
            PageLevel::Level3 => 0xFFFF_FF7F_BFC0_0000 + offset,
            PageLevel::Level4 => 0xFFFF_FF7F_BFDF_E000 + offset,
        }
    }

    pub fn addr(&self, component: u64) -> (r: u64)
        ensures
            r == self.spec_addr(component),
    {
        let s = self.shift();
        let c = component & Self::MASK_PER_LEVEL;
        assert(s <= 39 ==> ((component & 0x1FF) << s) <= 0x0000_FF80_0000_0000) by (bit_vector);
        let low = c << s;
        match *self {
            PageLevel::Level4 => {
                if component >= 0x100 {
                    low + 0xFFFF_0000_0000_0000
                } else {
                    low
                }
            },
            _ => low,
        }
    }
}

/// What may be asked of the page manager.
#[derive(Debug, Copy, Clone, PartialEq, Eq, Structural)]
pub enum MemoryMapRequest {
    /// Map the device registers at a physical address.
    Mmio(u64, usize),
    /// Map video memory at a physical address.
    Vram(u64, usize),
    /// Give the kernel memory at a linear address.
    Kernel(u64, usize, MProtect),
    /// Give a user program memory at a linear address.
    User(u64, usize, MProtect),
    /// Change the access to a range of memory.
    MProtect(u64, usize, MProtect),
}

/// The page manager: how the linear address space is laid out.
pub struct PageManager;

impl PageManager {
    pub const PAGE_SIZE_MIN: u64 = 0x1000;

    pub const PAGE_SIZE_M1: u64 = 0xFFF;

    pub const PAGE_SIZE_2M_M1: u64 = 0x1F_FFFF;

    /// The first entry of the top table that belongs to user programs.
    pub const PAGE_USER_MIN: u64 = 0x000;

    /// The entry of the top table behind the last that belongs to user
    /// programs.
    pub const PAGE_USER_MAX: u64 = 0x100;

    /// The entry of the top table that maps all physical memory.
    pub const PAGE_DIRECT_MAP: u64 = 0x180;

    /// The first entry of the top table that belongs to the kernel's heap.
    pub const PAGE_HEAP_MIN: u64 = 0x1FC;

    /// The entry of the top table behind the last of the kernel's heap.
    pub const PAGE_HEAP_MAX: u64 = 0x1FD;

    /// The entry of the top table that maps the tables themselves.
    pub const PAGE_RECURSIVE: u64 = 0x1FE;

    /// The linear address at which physical address 0 is mapped.
    pub const DIRECT_BASE: u64 = 0xFFFF_C000_0000_0000;

    /// The linear address at which the physical address `pa` is mapped.
    pub fn direct_map(pa: PhysicalAddress) -> (r: u64)
        requires
            pa.0 < 0x0000_4000_0000_0000,
        ensures
            r == 0xFFFF_C000_0000_0000 + pa.0,
    {
        Self::DIRECT_BASE + pa.as_u64()
    }

    /// The physical address that is mapped at the linear address `va`.
    pub fn direct_unmap(va: u64) -> (r: PhysicalAddress)
        requires
            va >= 0xFFFF_C000_0000_0000,
        ensures
            r.0 == va - 0xFFFF_C000_0000_0000,
    {
        PhysicalAddress::new(va - Self::DIRECT_BASE)
    }

    /// The number of pages that `len` bytes take.
    pub fn page_count(len: u64) -> (r: u64)
        requires
            len <= u64::MAX - 0xFFF,
        ensures
            r == ((len + 0xFFF) as u64 & !0xFFFu64) / 0x1000,
    {
        ((len + Self::PAGE_SIZE_M1) & !Self::PAGE_SIZE_M1) / Self::PAGE_SIZE_MIN
    }

    /// Whether `len` bytes from `va` on lie within the entries `min` up to,
    /// but not including, `max` of the top table: the range begins there,
    /// is shorter than the entries are wide, and ends there.
    pub open spec fn spec_within(va: u64, len: u64, min: u64, max: u64) -> bool {
        let first = (va >> 39) & 0x1FF;
        let width = (len >> 39) & 0x1FF;
        let last = (((va + len) as u64) >> 39) & 0x1FF;
        !(first < min || first >= max || width >= max - min || last >= max)
    }

    fn within(va: u64, len: u64, min: u64, max: u64) -> (r: bool)
        requires
            min <= max,
            va + len <= u64::MAX,
        ensures
            r == Self::spec_within(va, len, min, max),
    {
        !(PageLevel::Level4.component(va) < min || PageLevel::Level4.component(va) >= max
            || PageLevel::Level4.component(len) >= (max - min) || PageLevel::Level4.component(
            va + len,
        ) >= max)
    }

    /// Whether the kernel may be given `len` bytes at `va`: they lie in the
    /// kernel's heap.
    pub fn is_kernel_heap(va: u64, len: u64) -> (r: bool)
        requires
            va + len <= u64::MAX,
        ensures
            r == Self::spec_within(va, len, 0x1FC, 0x1FD),
    {
        Self::within(va, len, Self::PAGE_HEAP_MIN, Self::PAGE_HEAP_MAX)
    }

    /// Whether a user program may be given `len` bytes at `va`: they lie in
    /// the lower half of the address space.
    pub fn is_user_space(va: u64, len: u64) -> (r: bool)
        requires
            va + len <= u64::MAX,
        ensures
            r == Self::spec_within(va, len, 0x000, 0x100),
    {
        Self::within(va, len, Self::PAGE_USER_MIN, Self::PAGE_USER_MAX)
    }

    /// The entry that maps the first page of a request, before memory was
    /// found for it: none for a request that is refused, which is one of no
    /// length, or one for the kernel or a user program outside the range
    /// that is theirs.
    pub open spec fn spec_template(request: MemoryMapRequest) -> Option<PageAttribute> {
        match request {
            MemoryMapRequest::Mmio(_, len) => if len == 0 {
                None
            } else {
                Some(PageAttribute(0x8000_0000_0000_001B))
            },
            MemoryMapRequest::Vram(_, len) => if len == 0 {
                None
            } else {
                Some(PageAttribute(0x8000_0000_0000_0017))
            },
            MemoryMapRequest::Kernel(va, len, attr) => if len == 0 || !Self::spec_within(
                va,
                len as u64,
                0x1FC,
                0x1FD,
            ) {
                None
            } else {
                Some(PageAttribute::spec_from_mprotect(attr))
            },
            MemoryMapRequest::User(va, len, attr) => if len == 0 || !Self::spec_within(
                va,
                len as u64,
                0x000,
                0x100,
            ) {
                None
            } else {
                Some(
                    PageAttribute(
                        ((PageAttribute::spec_from_mprotect(attr).0 | 4) & !0xE00u64) | (1u64 << 9),
                    ),
                )
            },
            MemoryMapRequest::MProtect(_, len, attr) => if len == 0 {
                None
            } else {
                Some(PageAttribute(PageAttribute::spec_from_mprotect(attr).0 & !0x80u64))
            },
        }
    }

    /// The attributes of the pages of a request: device registers are
    /// uncached, video memory is write-combined and open to user programs,
    /// memory for a user program is open to it and marked as reserved.
    pub fn template(request: MemoryMapRequest) -> (r: Option<PageAttribute>)
        requires
            match request {
                MemoryMapRequest::Kernel(va, len, _) => va + len <= u64::MAX,
                MemoryMapRequest::User(va, len, _) => va + len <= u64::MAX,
                _ => true,
            },
        ensures
            r == Self::spec_template(request),
    {
        assert(0x8000_0000_0000_0000u64 | (0x10u64 | 0x08u64) | 0x02u64 | 0x01u64
            == 0x8000_0000_0000_001Bu64 && 0x8000_0000_0000_0000u64 | 0x10u64 | 0x02u64 | 0x04u64
            | 0x01u64 == 0x8000_0000_0000_0017u64) by (bit_vector);
        match request {
            MemoryMapRequest::Mmio(_, len) => {
                if len == 0 {
                    None
                } else {
                    Some(
                        PageAttribute(
                            PageAttribute::NO_EXECUTE | (PageAttribute::PCD | PageAttribute::PWT)
                                | PageAttribute::WRITE | PageAttribute::PRESENT,
                        ),
                    )
                }
            },
            MemoryMapRequest::Vram(_, len) => {
                if len == 0 {
                    None
                } else {
                    Some(
                        PageAttribute(
                            PageAttribute::NO_EXECUTE | PageAttribute::PCD | PageAttribute::WRITE
                                | PageAttribute::USER | PageAttribute::PRESENT,
                        ),
                    )
                }
            },
            MemoryMapRequest::Kernel(va, len, attr) => {
                if !Self::is_kernel_heap(va, len as u64) || len == 0 {
                    None
                } else {
                    Some(PageAttribute::from_mprotect(attr))
                }
            },
            MemoryMapRequest::User(va, len, attr) => {
                if !Self::is_user_space(va, len as u64) || len == 0 {
                    None
                } else {
                    let mut template = PageAttribute::from_mprotect(attr);
                    template.insert(PageAttribute(PageAttribute::USER));
                    template.set_avl(1);
                    Some(template)
                }
            },
            MemoryMapRequest::MProtect(_, len, attr) => {
                if len == 0 {
                    None
                } else {
                    let mut new_attr = PageAttribute::from_mprotect(attr);
                    new_attr.remove(PageAttribute(PageAttribute::LARGE));
                    Some(new_attr)
                }
            },
        }
    }
}

/// The error code the processor pushes with a page fault.
#[derive(Debug, Copy, Clone, Default, PartialEq, Eq, Structural)]
pub struct PageErrorCode(pub u16);

impl PageErrorCode {
    /// The fault was a protection violation, not a page that is not
    /// present.
    pub const PRESENT: u16 = 0b0000_0000_0000_0001;

    /// The fault was caused by a write.
    pub const WRITE: u16 = 0b0000_0000_0000_0010;

    /// The fault happened in user mode.
    pub const USER: u16 = 0b0000_0000_0000_0100;

    /// A reserved bit was set in a table entry.
    pub const RESERVED_BITS: u16 = 0b0000_0000_0000_1000;

    /// The fault was caused by an instruction fetch.
    pub const FETCH: u16 = 0b0000_0000_0001_0000;

    /// The fault was a protection-key violation.
    pub const PROTECTION_KEY: u16 = 0b0000_0000_0010_0000;

    /// The fault was caused by a shadow stack access.
    pub const SHADOW_STACK: u16 = 0b0000_0000_0100_0000;

    /// The fault was an SGX violation.
    pub const SGX: u16 = 0b1000_0000_0000_0000;

    pub fn from_bits_retain(bits: u16) -> (r: Self)
        ensures
            r.0 == bits,
    {
        PageErrorCode(bits)
    }

    pub fn bits(&self) -> (r: u16)
        ensures
            r == self.0,
    {
        self.0
    }

    /// Whether every bit of `flags` is set.
    pub fn contains(&self, flags: u16) -> (r: bool)
        ensures
            r == ((self.0 & flags) == flags),
    {
        (self.0 & flags) == flags
    }

    pub open spec fn spec_is_page_present(&self) -> bool {
        (self.0 & 1) == 1
    }

    pub open spec fn spec_could_not_write(&self) -> bool {
        (self.0 & 2) == 2
    }

    pub open spec fn spec_could_not_execute(&self) -> bool {
        (self.0 & 0x10) == 0x10
    }

    pub fn is_page_present(&self) -> (r: bool)
        ensures
            r == self.spec_is_page_present(),
    {
        self.contains(Self::PRESENT)
    }

    /// The fault was caused by a read: neither by a write nor by an
    /// instruction fetch.
    pub fn could_not_read(&self) -> (r: bool)
        ensures
            r == (!self.spec_could_not_write() && !self.spec_could_not_execute()),
    {
        !self.could_not_write() && !self.could_not_execute()
    }

    pub fn could_not_write(&self) -> (r: bool)
        ensures
            r == self.spec_could_not_write(),
    {
        self.contains(Self::WRITE)
    }

    pub fn could_not_execute(&self) -> (r: bool)
        ensures
            r == self.spec_could_not_execute(),
    {
        self.contains(Self::FETCH)
    }
}

/// What went wrong in a page fault.
#[derive(Debug, Clone, Copy, PartialEq, Eq, Structural, PartialOrd, Ord)]
pub enum PageErrorKind {
    NotPresent,
    CannotExecute,
    CannotWrite,
    CannotRead,
}

impl PageErrorKind {
    /// The kind of fault an error code tells of: a page that is not present;
    /// else a fetch, a write or a read that was not allowed, in this order
    /// of precedence.
    pub open spec fn spec_from_err(code: PageErrorCode) -> PageErrorKind {
        if code.spec_is_page_present() {
            if code.spec_could_not_execute() {
                PageErrorKind::CannotExecute
            } else if code.spec_could_not_write() {
                PageErrorKind::CannotWrite
            } else {
                PageErrorKind::CannotRead
            }
        } else {
            PageErrorKind::NotPresent
        }
    }

    pub fn from_err(code: PageErrorCode) -> (r: Self)
        ensures
            r == Self::spec_from_err(code),
    {
        if code.is_page_present() {
            if code.could_not_execute() {
                PageErrorKind::CannotExecute
            } else if code.could_not_write() {
                PageErrorKind::CannotWrite
            } else {
                PageErrorKind::CannotRead
            }
        } else {
            PageErrorKind::NotPresent
        }
    }
}

} // verus!

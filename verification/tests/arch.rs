use megos::arch::cpu::{
    AsDescriptorEntry, ContextIndex, Cpu, CpuContextData, DefaultSize, DescriptorEntry,
    DescriptorType, EaxAndEdx, ExceptionType, Feature, GlobalDescriptorTable,
    InterruptDescriptorTable, InterruptStackTable, InterruptVector, Limit16, Limit32, Linear32,
    Linear64, Mtrr, MtrrIndex, MtrrItem, NativeModelCoreType, Offset32, Offset64,
    PrivilegeLevel, Rflags, Selector, SharedCpu, TaskStateSegment, X64ExceptionContext, F01D,
    F81D, MSR, PAT,
};
use megos::arch::page::{
    MemoryMapRequest, PageManager,
    MProtect, PageAttribute, PageErrorCode, PageErrorKind, PageLevel, PageTableEntry,
    PhysicalAddress,
};

#[test]
fn page_table_entry_bits() {
    let attr = PageAttribute(PageAttribute::PRESENT | PageAttribute::WRITE);
    let mut e = PageTableEntry::new(PhysicalAddress::new(0x1234_5678_9ABC), attr);
    assert_eq!(e.repr(), 0x1234_5678_9003);
    assert!(e.is_present());
    assert!(!e.is_empty());
    assert!(PageTableEntry::empty().is_empty());
    assert_eq!(e.frame_address(), PhysicalAddress(0x1234_5678_9000));
    assert_eq!(e.attributes(), PageAttribute(3));
    assert_eq!(e.access_rights(), PageAttribute(2));
    assert!(e.contains(attr));
    assert!(!e.contains(PageAttribute(PageAttribute::USER)));
    e.insert(PageAttribute(PageAttribute::USER));
    assert_eq!(e.repr(), 0x1234_5678_9007);
    e.remove(PageAttribute(PageAttribute::WRITE));
    assert_eq!(e.repr(), 0x1234_5678_9005);
    e.set(PageAttribute(PageAttribute::NO_EXECUTE), true);
    assert_eq!(e.repr(), 0x8000_1234_5678_9005);
    e.set(PageAttribute(PageAttribute::NO_EXECUTE), false);
    e.set_frame_address(PhysicalAddress(0xFFFF_0000_0000_2FFF));
    assert_eq!(e.repr(), 0x0000_0000_0000_2005);
    e.set_attributes(PageAttribute(0x8000_0000_0000_1003));
    assert_eq!(e.repr(), 0x8000_0000_0000_2003);
    e += 0x1000u64;
    assert_eq!(e.repr(), 0x8000_0000_0000_3003);
    e -= PageAttribute(PageAttribute::WRITE);
    assert_eq!(e.repr(), 0x8000_0000_0000_3001);
    e += PageAttribute(PageAttribute::USER);
    e |= PageAttribute(PageAttribute::GLOBAL);
    assert_eq!(e.repr(), 0x8000_0000_0000_3105);
    assert_eq!(PageTableEntry::from(PhysicalAddress(0x5000)), PageTableEntry(0x5000));
    assert_eq!(PageAttribute::from(MProtect::ReadExec), PageAttribute(1));
}

#[test]
fn page_access_rights() {
    let mut e = PageTableEntry(0x8000_0000_0000_5005);
    e.set_access_rights(PageAttribute(PageAttribute::WRITE));
    assert_eq!(e.repr(), 0x0000_0000_0000_5006);
    e.set_access_rights(PageAttribute::from_mprotect(MProtect::Read));
    assert_eq!(e.repr(), 0x8000_0000_0000_5005);
    // Widening only: execution and writing are added, never taken away.
    let mut upper = PageTableEntry(0x8000_0000_0000_1001);
    assert_eq!(upper.accept(PageAttribute(PageAttribute::NO_EXECUTE)), None);
    assert_eq!(upper.repr(), 0x8000_0000_0000_1001);
    assert_eq!(upper.accept(PageAttribute(PageAttribute::WRITE)), Some(()));
    assert_eq!(upper.repr(), 0x0000_0000_0000_1003);
    assert_eq!(upper.accept(PageAttribute(0)), None);
    assert_eq!(PageAttribute::from_mprotect(MProtect::NoAccess), PageAttribute::empty());
    assert_eq!(PageAttribute::from_mprotect(MProtect::ReadWrite).bits(), 0x8000_0000_0000_0003);
    assert_eq!(PageAttribute::from_mprotect(MProtect::ReadExec).bits(), 1);
    let mut a = PageAttribute::from_bits_retain(0x0E01);
    assert_eq!(a.avl(), 7);
    a.set_avl(1);
    assert_eq!(a.bits(), 0x0201);
    a.insert(PageAttribute(2));
    a.remove(PageAttribute(1));
    assert!(a.contains(PageAttribute(0x202)));
}

#[test]
fn page_levels() {
    assert_eq!(PageLevel::Level1.shift(), 12);
    assert_eq!(PageLevel::Level2.shift(), 21);
    assert_eq!(PageLevel::Level3.shift(), 30);
    assert_eq!(PageLevel::Level4.shift(), 39);
    let va = 0xFFFF_FF00_1234_5678u64;
    assert_eq!(PageLevel::Level4.component(va), 0x1FE);
    assert_eq!(PageLevel::Level1.component(va), 0x145);
    assert_eq!(PageLevel::Level4.addr(0x1FE), 0xFFFF_FF00_0000_0000);
    assert_eq!(PageLevel::Level4.addr(0x0FF), 0x0000_7F80_0000_0000);
    assert_eq!(PageLevel::Level3.addr(0x1FF), 0x0000_007F_C000_0000);
    assert_eq!(PageLevel::Level1.addr(0x201), 0x1000);
}

#[test]
fn page_fault_kinds() {
    let kind = |bits: u16| PageErrorKind::from_err(PageErrorCode::from_bits_retain(bits));
    assert_eq!(kind(0), PageErrorKind::NotPresent);
    assert_eq!(kind(PageErrorCode::WRITE), PageErrorKind::NotPresent);
    assert_eq!(kind(PageErrorCode::PRESENT), PageErrorKind::CannotRead);
    assert_eq!(kind(PageErrorCode::PRESENT | PageErrorCode::WRITE), PageErrorKind::CannotWrite);
    assert_eq!(
        kind(PageErrorCode::PRESENT | PageErrorCode::WRITE | PageErrorCode::FETCH),
        PageErrorKind::CannotExecute
    );
    let code = PageErrorCode(PageErrorCode::PRESENT | PageErrorCode::USER);
    assert!(code.is_page_present());
    assert!(code.could_not_read());
    assert!(!code.could_not_write());
    assert!(!code.could_not_execute());
    assert_eq!(code.bits(), 5);
}

#[test]
fn segment_descriptors() {
    assert_eq!(
        DescriptorEntry::flat_code_segment(PrivilegeLevel::Kernel, DefaultSize::Use64).0,
        0x00AF_9A00_0000_FFFF
    );
    assert_eq!(DescriptorEntry::flat_data_segment(PrivilegeLevel::User).0, 0x00CF_F200_0000_FFFF);
    let code = DescriptorEntry::code_segment(
        Linear32(0x1234_5678),
        Limit32(0xFFFF),
        PrivilegeLevel::User,
        DefaultSize::Use32,
    );
    assert_eq!(code.0, 0x1240_FA34_5678_FFFF);
    assert!(code.is_present());
    assert!(code.is_segment());
    assert!(code.is_code_segment());
    assert_eq!(code.default_operand_size(), Some(DefaultSize::Use32));
    let data = DescriptorEntry::data_segment(Linear32(0), Limit32(0x1_0000), PrivilegeLevel::Kernel);
    assert!(!data.is_code_segment());
    assert_eq!(data.default_operand_size(), None);
    assert_eq!(DescriptorEntry(0x0060_9A00_0000_0000).default_operand_size(), None);
    assert_eq!(DescriptorEntry(0x0000_9A00_0000_0000).default_operand_size(), Some(DefaultSize::Use16));
    assert!(DescriptorEntry::null().is_null());
    assert_eq!(Limit32(0x1234).as_descriptor_entry(), 0x1234);
    assert_eq!(Limit32(0xABCD_E000).as_descriptor_entry(), 0x008A_0000_0000_BCDE);
    assert_eq!(Limit16(0x67).as_descriptor_entry(), 0x67);
    assert_eq!(Linear32(0x1234_5678).as_segment_base(), 0x1200_0034_5678_0000);
    assert_eq!(Linear64(0xAAAA_BBBB_1234_5678).as_segment_base_pair(), (0x1200_0034_5678_0000, 0xAAAA_BBBB));
    assert_eq!(Offset32(0x1234_5678).as_gate_offset(), 0x1234_0000_0000_5678);
    assert_eq!(Offset64(0xAAAA_BBBB_1234_5678).as_gate_offset_pair(), (0x1234_0000_0000_5678, 0xAAAA_BBBB));
    assert_eq!(PrivilegeLevel::User.as_descriptor_entry(), 3 << 45);
    assert_eq!(DescriptorType::TrapGate.as_descriptor_entry(), 15 << 40);
    assert_eq!(InterruptStackTable::IST3.as_descriptor_entry(), 3 << 32);
    assert_eq!(DefaultSize::Use64.as_descriptor_entry(), 0x0020_0000_0000_0000);
}

#[test]
fn system_descriptors_and_tables() {
    let tss = DescriptorEntry::tss_descriptor(Linear64(0xFFFF_8000_1234_5678), Limit16(0x67));
    assert_eq!(tss.low.0, 0x1200_8934_5678_0067);
    assert_eq!(tss.high.0, 0xFFFF_8000);
    assert_eq!(TaskStateSegment::new().as_descriptor_pair(0xFFFF_8000_1234_5678), tss);
    let gate = DescriptorEntry::gate_descriptor(
        Offset64(0xFFFF_8000_1234_5678),
        Selector(Selector::KERNEL_CODE),
        PrivilegeLevel::User,
        DescriptorType::InterruptGate,
        Some(InterruptStackTable::IST1),
    );
    assert_eq!(gate.low.0, 0x1234_EE01_0008_5678);
    assert_eq!(gate.high.0, 0xFFFF_8000);
    let mut gdt = GlobalDescriptorTable::new(0x1000);
    assert_eq!(gdt.item(Selector(Selector::KERNEL_CODE)), Some(DescriptorEntry(0x00AF_9A00_0000_FFFF)));
    assert_eq!(gdt.item(Selector(Selector::USER_DATA)), Some(DescriptorEntry(0x00CF_F200_0000_FFFF)));
    assert_eq!(gdt.item(Selector(Selector::SYSTEM_TSS)).unwrap().0, 0x0000_8900_1000_0067);
    assert_eq!(gdt.item(Selector(Selector::LEGACY_CODE)), Some(DescriptorEntry(0)));
    assert_eq!(gdt.item(Selector::new(16, PrivilegeLevel::Kernel)), None);
    assert_eq!(gdt.set_item(Selector::new(16, PrivilegeLevel::Kernel), DescriptorEntry(1)), None);
    assert_eq!(gdt.set_item(Selector::new(3, PrivilegeLevel::User), DescriptorEntry(1)), Some(()));
    assert_eq!(gdt.table[3], DescriptorEntry(1));
    let mut idt = InterruptDescriptorTable::new();
    idt.register(InterruptVector(0x40), 0x1234_5678, PrivilegeLevel::User);
    assert_eq!(idt.table[0x80].0, 0x1234_EF00_0008_5678);
    assert_eq!(idt.table[0x81].0, 0);
    idt.register(ExceptionType::PageFault.as_vec(), 0xFFFF_8000_0000_1000, PrivilegeLevel::Kernel);
    assert_eq!(idt.table[28].0, 0x0000_8E00_0008_1000);
    assert_eq!(idt.table[29].0, 0xFFFF_8000);
}

#[test]
fn selectors_and_privilege_levels() {
    let s = Selector::new(5, PrivilegeLevel::User);
    assert_eq!(s.0, Selector::USER_CODE);
    assert_eq!(s.index(), 5);
    assert_eq!(s.rpl(), PrivilegeLevel::User);
    assert_eq!(Selector::new(8, PrivilegeLevel::Kernel).0, Selector::SYSTEM_TSS);
    assert_eq!(s.as_descriptor_entry(), 0x2B << 16);
    assert_eq!(PrivilegeLevel::from_usize(6), PrivilegeLevel::_Ring2);
    assert_eq!(PrivilegeLevel::from_usize(4), PrivilegeLevel::Kernel);
    let mut flags = Rflags::from_bits_retain(Rflags::IF | Rflags::CF);
    assert_eq!(flags.iopl(), PrivilegeLevel::Kernel);
    flags.set_iopl(PrivilegeLevel::User);
    assert_eq!(flags.bits(), 0x3201);
    assert_eq!(flags.iopl(), PrivilegeLevel::User);
    flags.set_iopl(PrivilegeLevel::_Ring1);
    assert_eq!(flags.bits(), 0x1201);
}

#[test]
fn exceptions() {
    assert_eq!(ExceptionType::PageFault.as_vec(), InterruptVector(14));
    assert_eq!(ExceptionType::Security.as_vec(), InterruptVector(30));
    assert_eq!(ExceptionType::from_vec(InterruptVector(13)), Some(ExceptionType::GeneralProtection));
    assert_eq!(ExceptionType::from_vec(InterruptVector(5)), None);
    assert_eq!(ExceptionType::from_vec(InterruptVector(200)), None);
    assert!(ExceptionType::PageFault.has_error_code());
    assert!(ExceptionType::DoubleFault.has_error_code());
    assert!(!ExceptionType::Breakpoint.has_error_code());
    assert_eq!(ExceptionType::GeneralProtection.mnemonic(), "#GP");
    assert_eq!(ExceptionType::NonMaskable.mnemonic(), "NMI");
    assert_eq!(ExceptionType::ControlProtection.mnemonic(), "");
    let ctx = X64ExceptionContext {
        _mxcsr: 0x1_0000_1F80,
        cr2: 0,
        _gs: 0x1_002B,
        _fs: 0x33,
        _es: 0x10,
        _ds: 0x18,
        r15: 0,
        r14: 0,
        r13: 0,
        r12: 0,
        r11: 0,
        r10: 0,
        r9: 0,
        r8: 0,
        rdi: 0,
        rsi: 0,
        rbp: 0,
        rbx: 0,
        rdx: 0,
        rcx: 0,
        rax: 0,
        _vector: 0x10E,
        _error_code: 0x1_0005,
        rip: 0,
        _cs: 0x08,
        rflags: Rflags(0),
        rsp: 0,
        _ss: 0x23,
    };
    assert_eq!(ctx.cs(), Selector(0x08));
    assert_eq!(ctx.ds(), Selector(0x18));
    assert_eq!(ctx.es(), Selector(0x10));
    assert_eq!(ctx.fs(), Selector(0x33));
    assert_eq!(ctx.gs(), Selector(0x2B));
    assert_eq!(ctx.ss(), Selector(0x23));
    assert_eq!(ctx.error_code(), 5);
    assert_eq!(ctx.vector(), InterruptVector(0x0E));
    assert_eq!(ctx.mxcsr(), 0x1F80);
}

#[test]
fn processor_facts() {
    let mut shared = SharedCpu::new();
    assert!(!Cpu::is_hybrid(&shared));
    assert_eq!(Cpu::physical_address_mask(&shared), 0xF_FFFF_FFFF);
    assert_eq!(Cpu::virtual_address_mask(&shared), 0xFFFF_FFFF_FFFF);
    assert_eq!(Cpu::native_model_core_type(&shared, 0x4000_0000), None);
    shared.is_hybrid = true;
    assert_eq!(Cpu::native_model_core_type(&shared, 0x4000_0000), Some(NativeModelCoreType::Performance));
    assert_eq!(Cpu::native_model_core_type(&shared, 0x2012_3456), Some(NativeModelCoreType::Efficient));
    assert_eq!(Cpu::native_model_core_type(&shared, 0x1000_0000), None);
    assert_eq!(NativeModelCoreType::from_u8(0x20), Some(NativeModelCoreType::Efficient));
    assert!(Feature::F01D(F01D::FPU).has_feature(1));
    assert!(!Feature::F01D(F01D::FPU).has_feature(2));
    assert!(Feature::F81D(F81D::NX).has_feature(1 << 20));
    assert_eq!(F81D::LM.bit(), 29);
    assert_eq!(ContextIndex::RSP.to_offset(), 32);
    assert_eq!(ContextIndex::FPU.to_offset(), 256);
    assert_eq!(ContextIndex::Segs.to_offset(), CpuContextData::CTX_DS);
    assert_eq!(CpuContextData::new().regs, vec![0u64; 96]);
    assert_eq!(CpuContextData::new().regs.len() * 8, 768);
}

#[test]
fn memory_type_ranges() {
    assert_eq!(MSR::IA32_MTRRphysBase(MtrrIndex(3)), MSR(0x206));
    assert_eq!(MSR::IA32_MTRRphysMask(MtrrIndex(3)), MSR(0x207));
    assert_eq!(Mtrr::count(0x0000_0000_0000_050A), 10);
    assert_eq!(Mtrr::indexes(3), vec![MtrrIndex(0), MtrrIndex(1), MtrrIndex(2)]);
    assert_eq!(Mtrr::from_raw(6), Mtrr::WB);
    let item = MtrrItem::from_raw(0x8000_0006, 0xF_8000_0800);
    assert_eq!(item.base, PhysicalAddress(0x8000_0000));
    assert_eq!(item.mask, 0xF_8000_0000);
    assert_eq!(item.mem_type, Mtrr::WB);
    assert!(item.is_enabled);
    assert_eq!(item.into_pair(0xF_FFFF_FFFF), (0x8000_0006, 0xF_8000_0800));
    assert!(item.matches(PhysicalAddress(0x8123_4567)));
    assert!(!item.matches(PhysicalAddress(0x7FFF_FFFF)));
    assert_eq!(MtrrItem::empty().into_pair(u64::MAX), (0, 0));
    let range = |base: u64, mask: u64, is_enabled: bool| MtrrItem {
        base: PhysicalAddress(base),
        mask,
        mem_type: Mtrr::WB,
        is_enabled,
    };
    let given = vec![
        range(0x3000, 1, true),
        range(0x1000, 2, false),
        range(0x1000, 3, true),
        range(0x2000, 4, true),
        range(0x1000, 5, true),
    ];
    assert_eq!(
        Mtrr::arranged(&given, 6),
        vec![
            range(0x1000, 3, true),
            range(0x1000, 5, true),
            range(0x2000, 4, true),
            range(0x3000, 1, true),
            MtrrItem::empty(),
            MtrrItem::empty(),
        ]
    );
    assert_eq!(Mtrr::arranged(&given, 2), vec![range(0x1000, 3, true), range(0x1000, 5, true)]);
    assert_eq!(Mtrr::arranged(&vec![], 1), vec![MtrrItem::empty()]);
    assert_eq!(Mtrr::arranged(&given, 0), vec![]);
    let pats = [PAT::WB, PAT::WT, PAT::WC, PAT::UC, PAT::WB, PAT::WT, PAT::UC_, PAT::UC];
    assert_eq!(MSR::pat_value(&pats), 0x0007_0406_0001_0406);
    assert_eq!(EaxAndEdx::from_qword(0x1122_3344_5566_7788), EaxAndEdx { eax: 0x5566_7788, edx: 0x1122_3344 });
    assert_eq!(EaxAndEdx { eax: 1, edx: 2 }.qword(), 0x2_0000_0001);
}

#[test]
fn page_manager_layout() {
    assert_eq!(PageManager::direct_map(PhysicalAddress(0x1234)), 0xFFFF_C000_0000_1234);
    assert_eq!(PageManager::direct_unmap(0xFFFF_C000_0000_1234), PhysicalAddress(0x1234));
    assert_eq!(PageManager::DIRECT_BASE, PageLevel::Level4.addr(PageManager::PAGE_DIRECT_MAP));
    assert_eq!(PageManager::page_count(1), 1);
    assert_eq!(PageManager::page_count(0x1000), 1);
    assert_eq!(PageManager::page_count(0x1001), 2);
    assert_eq!(PageManager::page_count(0), 0);
    assert!(PageManager::is_user_space(0x1000, 0x1000));
    assert!(!PageManager::is_user_space(0xFFFF_8000_0000_0000, 0x1000));
    assert!(!PageManager::is_user_space(0x7FFF_FFFF_F000, 0x2000));
    assert!(PageManager::is_kernel_heap(0xFFFF_FE00_0000_0000, 0x10_0000));
    assert!(!PageManager::is_kernel_heap(0xFFFF_FE80_0000_0000, 0x1000));
    assert_eq!(PageManager::template(MemoryMapRequest::Mmio(0xFEE0_0000, 0x1000)), Some(PageAttribute(0x8000_0000_0000_001B)));
    assert_eq!(PageManager::template(MemoryMapRequest::Mmio(0xFEE0_0000, 0)), None);
    assert_eq!(PageManager::template(MemoryMapRequest::Vram(0xC000_0000, 0x1000)), Some(PageAttribute(0x8000_0000_0000_0017)));
    assert_eq!(
        PageManager::template(MemoryMapRequest::User(0x1000, 0x1000, MProtect::ReadWrite)),
        Some(PageAttribute(0x8000_0000_0000_0207))
    );
    assert_eq!(PageManager::template(MemoryMapRequest::User(0xFFFF_8000_0000_0000, 0x1000, MProtect::Read)), None);
    assert_eq!(
        PageManager::template(MemoryMapRequest::Kernel(0xFFFF_FE00_0000_0000, 0x1000, MProtect::ReadExec)),
        Some(PageAttribute(1))
    );
    assert_eq!(PageManager::template(MemoryMapRequest::Kernel(0x1000, 0x1000, MProtect::Read)), None);
    assert_eq!(
        PageManager::template(MemoryMapRequest::MProtect(0x1000, 0x1000, MProtect::Read)),
        Some(PageAttribute(0x8000_0000_0000_0001))
    );
    assert_eq!(PageLevel::Level1.pte_of(0), 0xFFFF_FF00_0000_0000);
    assert_eq!(PageLevel::Level1.pte_of(0x1000), 0xFFFF_FF00_0000_0008);
    assert_eq!(PageLevel::Level4.pte_of(0xFFFF_FF00_0000_0000), 0xFFFF_FF7F_BFDF_EFF0);
    assert_eq!(PageLevel::Level2.pte_of(0x20_0000), 0xFFFF_FF7F_8000_0008);
}

#[test]
fn conversions() {
    assert_eq!(PrivilegeLevel::from(7usize), PrivilegeLevel::User);
    assert_eq!(InterruptVector::from(ExceptionType::Breakpoint), InterruptVector(3));
}

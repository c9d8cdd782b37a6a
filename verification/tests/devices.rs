use megos::arch::apic::{
    Apic, ApicPolarity, ApicTriggerMode, GsiProps, InterruptSourceOverride, IoApic, Irq,
    PackedPolarity, Route,
};
use megos::arch::cpu::{ApicId, InterruptVector};
use megos::gfx::coords::Point;
use megos::gfx::line::can_draw_exec;
use megos::io::hid::{
    HidReportAmbiguousSignedValue, HidReportCollectionType, HidReportGlobalState,
    HidReportItemTag, HidReportItemType, HidReportLeadByte, HidReportLocalState,
    HidReportMainFlag, HidReporteReader, HidUsage, Modifier, MouseButton, MouseReport, Usage,
    UsagePage,
};
use megos::mem::slab::{
    AllocationError, AtomicNode, DeallocationError, Node16, PageSource, SlabAllocator, SlabCache2,
};

#[test]
fn hid_usages() {
    assert_eq!(HidUsage::new(UsagePage(0x000C), 0x00E9), HidUsage(0x000C_00E9));
    assert_eq!(HidUsage::generic(2).0, HidUsage::MOUSE);
    assert_eq!(HidUsage::button(1), HidUsage(0x0009_0001));
    assert_eq!(HidUsage::consumer(0xE9), HidUsage(0x000C_00E9));
    assert_eq!(HidUsage::digitizers(1), HidUsage(0x000D_0001));
    assert_eq!(HidUsage::led(2).0, HidUsage::CAPS_LOCK);
    assert_eq!(HidUsage(0x000C_00E9).usage_page(), UsagePage(UsagePage::CONSUMER));
    assert_eq!(HidUsage(0x000C_00E9).usage(), 0xE9);
    assert_eq!(Usage(0x04).full_usage(), HidUsage(0x0007_0004));
    assert_eq!(Usage::MOD_MIN, 0xE0);
}

#[test]
fn hid_modifiers() {
    assert!(Modifier(Modifier::LEFT_SHIFT).has_shift());
    assert!(Modifier(Modifier::RIGHT_SHIFT).has_shift());
    assert!(!Modifier(Modifier::LEFT_CTRL | Modifier::RIGHT_ALT).has_shift());
    assert!(Modifier(Modifier::RIGHT_CTRL).has_ctrl());
    assert!(Modifier(Modifier::LEFT_ALT).has_alt());
    assert!(!Modifier::empty().has_alt());
    assert_eq!(Modifier::from_usize(0x1FF), Modifier(0xFF));
    assert_eq!(Modifier(3).bits(), 3);
    assert!(MouseButton(3).contains(MouseButton::SECONDARY));
    assert!(!MouseButton::empty().contains(MouseButton::PRIMARY));
    let report = MouseReport { buttons: MouseButton(1), x: -3i8, y: 4i8, wheel: -128i8 };
    assert_eq!(
        report.normalize(),
        MouseReport { buttons: MouseButton(1), x: -3isize, y: 4isize, wheel: -128isize }
    );
    let wide = MouseReport { buttons: MouseButton(0), x: -300i16, y: 4i16, wheel: 0i16 };
    assert_eq!(wide.normalize().x, -300isize);
}

#[test]
fn hid_lead_bytes() {
    assert_eq!(HidReportLeadByte(0x05).data_size(), 1);
    assert_eq!(HidReportLeadByte(0x04).data_size(), 0);
    assert_eq!(HidReportLeadByte(0x06).data_size(), 2);
    assert_eq!(HidReportLeadByte(0x07).data_size(), 4);
    assert_eq!(HidReportLeadByte(0x05).report_type(), HidReportItemType::Global);
    assert_eq!(HidReportLeadByte(0x81).report_type(), HidReportItemType::Main);
    assert_eq!(HidReportLeadByte(0x09).report_type(), HidReportItemType::Local);
    assert_eq!(HidReportLeadByte(0xFE).report_type(), HidReportItemType::Reserved);
    assert_eq!(HidReportLeadByte(0x05).item_tag(), Some(HidReportItemTag::UsagePage));
    assert_eq!(HidReportLeadByte(0x81).item_tag(), Some(HidReportItemTag::Input));
    assert_eq!(HidReportLeadByte(0xC0).item_tag(), Some(HidReportItemTag::EndCollection));
    assert_eq!(HidReportLeadByte(0xFC).item_tag(), None);
    assert_eq!(HidReportItemTag::Delimiter.code(), 0xA8);
    assert_eq!(HidReportItemTag::from_u8(0x0C), None);
    assert_eq!(HidReportItemType::from_u8(9), HidReportItemType::Reserved);
    assert_eq!(HidReportCollectionType::from_u8(1), Some(HidReportCollectionType::Application));
    assert_eq!(HidReportCollectionType::from_u8(7), None);
    assert!(HidReportMainFlag(0x02).is_variable());
    assert!(HidReportMainFlag(0x01).is_array());
    assert!(HidReportMainFlag(0x01).is_const());
    assert!(HidReportMainFlag(0x06).is_relative());
    assert!(!HidReportMainFlag(0x02).is_relative());
}

#[test]
fn hid_report_reader() {
    let data = [0x05u8, 0x01, 0x34, 0x12, 0x78, 0x56, 0x34, 0x12, 0xFF];
    let mut reader = HidReporteReader::new(&data);
    assert_eq!(reader.next(), Some(0x05));
    assert_eq!(reader.read_param(HidReportLeadByte(0x05)), Some(HidReportAmbiguousSignedValue::U8(1)));
    assert_eq!(reader.next_u16(), Some(0x1234));
    assert_eq!(reader.position(), 4);
    assert_eq!(reader.next_u32(), Some(0x1234_5678));
    assert_eq!(reader.next_u16(), None);
    assert_eq!(reader.next_u32(), None);
    assert_eq!(reader.read_param(HidReportLeadByte(0x07)), None);
    assert_eq!(reader.position(), 8);
    assert_eq!(reader.read_param(HidReportLeadByte(0x04)), Some(HidReportAmbiguousSignedValue::Zero));
    assert_eq!(reader.next(), Some(0xFF));
    assert_eq!(reader.next(), None);
    assert_eq!(reader.read_param(HidReportLeadByte(0x04)), Some(HidReportAmbiguousSignedValue::Zero));
    let mut short = HidReporteReader::new(&data[..3]);
    assert_eq!(short.read_param(HidReportLeadByte(0x07)), None);
    assert_eq!(short.read_param(HidReportLeadByte(0x06)), Some(HidReportAmbiguousSignedValue::U16(0x0105)));
}

#[test]
fn hid_values_and_state() {
    assert_eq!(HidReportAmbiguousSignedValue::U8(0xFF).usize(), 255);
    assert_eq!(HidReportAmbiguousSignedValue::U8(0xFF).isize(), -1);
    assert_eq!(HidReportAmbiguousSignedValue::U8(0x7F).isize(), 127);
    assert_eq!(HidReportAmbiguousSignedValue::U16(0x8000).isize(), -32768);
    assert_eq!(HidReportAmbiguousSignedValue::U16(0x8000).usize(), 32768);
    assert_eq!(HidReportAmbiguousSignedValue::U32(0xFFFF_FFFE).isize(), -2);
    assert_eq!(HidReportAmbiguousSignedValue::U32(5).isize(), 5);
    assert_eq!(HidReportAmbiguousSignedValue::Zero.isize(), 0);
    assert_eq!(HidReportGlobalState::new().report_id, None);
    assert_eq!(HidReportGlobalState::new().usage_page, UsagePage(0));
    let mut local = HidReportLocalState::new();
    local.usage.push(1);
    local.usage_maximum = 9;
    local.reset();
    assert_eq!(local, HidReportLocalState::new());
}

#[test]
fn interrupt_routing() {
    assert_eq!(Irq(1).as_vec(), InterruptVector(0x21));
    assert_eq!(PackedPolarity::new(ApicPolarity::ActiveLow, ApicTriggerMode::Level), PackedPolarity(0x0A));
    assert_eq!(PackedPolarity::new(ApicPolarity::ActiveHigh, ApicTriggerMode::Edge), PackedPolarity(0));
    assert_eq!(PackedPolarity(0x0A).as_redir(), 0xA000);
    assert_eq!(
        Apic::make_redirect_table_entry_pair(InterruptVector(0x21), PackedPolarity(0x0A), ApicId(3)),
        (0xA021, 0x0300_0000)
    );
    assert_eq!(Apic::set_irq_enabled(0x0001_A021, true), 0xA021);
    assert_eq!(Apic::set_irq_enabled(0xA021, false), 0x0001_A021);
    let mut apic = Apic::new();
    apic.master_apic_id = ApicId(2);
    assert_eq!(apic.gsi_table[1], GsiProps::null());
    apic.import_gsi_table(&vec![
        InterruptSourceOverride {
            isa_source: 0,
            global_system_interrupt: 2,
            polarity: ApicPolarity::ActiveHigh,
            trigger_mode: ApicTriggerMode::Edge,
        },
        InterruptSourceOverride {
            isa_source: 9,
            global_system_interrupt: 25,
            polarity: ApicPolarity::ActiveLow,
            trigger_mode: ApicTriggerMode::Level,
        },
    ]);
    assert_eq!(apic.gsi_table[1], GsiProps { gsi: Irq(1), polarity: PackedPolarity(0) });
    assert_eq!(apic.gsi_table[0], GsiProps { gsi: Irq(2), polarity: PackedPolarity(0) });
    assert_eq!(apic.gsi_table[9], GsiProps { gsi: Irq(25), polarity: PackedPolarity(0x0A) });
    assert_eq!(apic.register(Irq(1)), Err(()));
    apic.ioapics.push(IoApic::new(0, 0, 0x0017_0011));
    apic.ioapics.push(IoApic::new(1, 24, 0x0007_0011));
    assert_eq!(apic.ioapics[0].entries, 24);
    assert_eq!(apic.route(Irq(0)), Some(Route { ioapic: 0, local_irq: 2 }));
    assert_eq!(apic.route(Irq(9)), Some(Route { ioapic: 1, local_irq: 1 }));
    assert_eq!(
        apic.register(Irq(9)),
        Ok((Route { ioapic: 1, local_irq: 1 }, (0xA039, 0x0200_0000)))
    );
    apic.gsi_table[5] = GsiProps { gsi: Irq(40), polarity: PackedPolarity(0) };
    assert_eq!(apic.route(Irq(5)), None);
    assert_eq!(IoApic::new(0, 0, 0x00FF_0000).entries, 0);
}

struct Pages {
    next: usize,
    left: usize,
}

impl PageSource for Pages {
    fn zalloc(&mut self, size: usize, align: usize) -> Option<usize> {
        if self.left == 0 {
            return None;
        }
        assert!(size <= align);
        self.left -= 1;
        let page = self.next;
        self.next += align;
        Some(page)
    }
}

#[test]
fn slab_cache_is_a_stack_of_blocks() {
    let mut pages = Pages { next: 0x10_0000, left: 1 };
    let mut cache = SlabCache2::new(1024);
    assert_eq!(cache.block_size(), 1024);
    assert_eq!(cache.free_memory_size(), 0);
    assert_eq!(cache.allocate(&mut pages), Ok(0x10_0C00));
    assert_eq!(cache.total_count(), 4);
    assert_eq!(cache.free_count(), 3);
    assert_eq!(cache.free_memory_size(), 3072);
    assert_eq!(cache.allocate(&mut pages), Ok(0x10_0800));
    assert_eq!(cache.free(0x10_0C00), Ok(()));
    assert_eq!(cache.allocate(&mut pages), Ok(0x10_0C00));
    assert_eq!(cache.allocate(&mut pages), Ok(0x10_0400));
    assert_eq!(cache.allocate(&mut pages), Ok(0x10_0000));
    assert_eq!(cache.allocate(&mut pages), Err(AllocationError::OutOfMemory));
    assert_eq!(cache.total_count(), 4);
    // Blocks of 16 bytes lie 32 bytes apart.
    let mut small = SlabCache2::new(16);
    let mut pages = Pages { next: 0x20_0000, left: 1 };
    assert_eq!(small.entry_size(), 32);
    assert_eq!(small.allocate(&mut pages), Ok(0x20_0FE0));
    assert_eq!(small.total_count(), 128);
    let mut high = Pages { next: usize::MAX - 0x800, left: 1 };
    assert_eq!(SlabCache2::new(64).allocate(&mut high), Err(AllocationError::Unexpected));
}

#[test]
fn slab_allocator_picks_the_smallest_cache_that_fits() {
    let mut pages = Pages { next: 0x10_0000, left: 8 };
    let mut slab = SlabAllocator::new();
    assert_eq!(slab.find_cache(16), Some(0));
    assert_eq!(slab.find_cache(17), Some(1));
    assert_eq!(slab.find_cache(2048), Some(7));
    assert_eq!(slab.find_cache(2049), None);
    let a = slab.allocate(24, 8, &mut pages).unwrap();
    assert_eq!(a, 0x10_0FE0);
    assert_eq!(slab.slabs[1].free_count(), 127);
    // The alignment counts as much as the size.
    let b = slab.allocate(8, 256, &mut pages).unwrap();
    assert_eq!(b, 0x10_1F00);
    assert_eq!(slab.slabs[4].free_count(), 15);
    assert_eq!(slab.allocate(4096, 8, &mut pages), Err(AllocationError::Unsupported));
    assert_eq!(slab.allocate(0x1_0000, 8, &mut pages), Err(AllocationError::Unsupported));
    assert_eq!(slab.free(a, 24, 8), Ok(()));
    assert_eq!(slab.slabs[1].free_count(), 128);
    assert_eq!(slab.allocate(32, 1, &mut pages), Ok(a));
    assert_eq!(slab.free(a, 4096, 8), Err(DeallocationError::Unsupported));
    assert_eq!(slab.free_memory_size(), 127 * 32 + 15 * 256);
    let stats = slab.statistics();
    assert_eq!(stats.len(), 8);
    assert_eq!(stats[0], (16, 0, 0));
    assert_eq!(stats[1], (32, 1, 128));
    assert_eq!(stats[4], (256, 1, 16));
    assert_eq!(Node16::new().next_raw(), 0);
    assert_eq!(AtomicNode::new(0x1000).element_ptr(), 0x1000);
    assert_eq!(AtomicNode::new(0x1000).next_raw(), 0);
}

#[test]
fn lines() {
    let p = |x, y| Point::new(x, y);
    assert_eq!(p(0, 0).line_to(p(0, 0)), vec![p(0, 0)]);
    assert_eq!(p(0, 0).line_to(p(3, 0)), vec![p(0, 0), p(1, 0), p(2, 0), p(3, 0)]);
    assert_eq!(p(0, 0).line_to(p(0, -2)), vec![p(0, 0), p(0, -1), p(0, -2)]);
    assert_eq!(p(1, 1).line_to(p(4, 4)), vec![p(1, 1), p(2, 2), p(3, 3), p(4, 4)]);
    assert_eq!(
        p(0, 0).line_to(p(5, 2)),
        vec![p(0, 0), p(1, 0), p(2, 1), p(3, 1), p(4, 2), p(5, 2)]
    );
    assert_eq!(
        p(0, 0).line_to(p(-2, 5)),
        vec![p(0, 0), p(0, 1), p(-1, 2), p(-1, 3), p(-2, 4), p(-2, 5)]
    );
    let back = p(5, 2).line_to(p(0, 0));
    assert_eq!(back.first(), Some(&p(5, 2)));
    assert_eq!(back.last(), Some(&p(0, 0)));
    assert_eq!(back.len(), 6);
    assert!(can_draw_exec(p(0, 0), p(1000, -1000)));
    assert!(!can_draw_exec(p(isize::MIN, 0), p(isize::MAX, 0)));
    assert!(!can_draw_exec(p(0, 0), p(isize::MAX / 4, 1)));
    assert!(can_draw_exec(p(0, 0), p(isize::MAX / 4, 0)));
}

#[test]
fn slab_allocator_refuses_only_what_no_cache_serves() {
    let mut pages = Pages { next: 0x10_0000, left: 0 };
    let mut slab = SlabAllocator::new();
    // Without a page every request that a cache serves runs out of memory.
    for size in [0usize, 1, 16, 17, 2047, 2048] {
        assert_eq!(slab.allocate(size, 1, &mut pages), Err(AllocationError::OutOfMemory));
        assert_eq!(slab.allocate(1, size, &mut pages), Err(AllocationError::OutOfMemory));
    }
    for size in [2049usize, 4096, 0xFFFF, 0x1_0000, usize::MAX] {
        assert_eq!(slab.allocate(size, 1, &mut pages), Err(AllocationError::Unsupported));
        assert_eq!(slab.allocate(1, size, &mut pages), Err(AllocationError::Unsupported));
    }
    for cache in &slab.slabs {
        assert!(cache.free.is_empty());
        assert_eq!(cache.total_count, 0);
    }
    // A block that was given back is the next that its cache gives out.
    assert_eq!(slab.free(0x5000, 100, 8), Ok(()));
    assert_eq!(slab.free(0x6000, 128, 8), Ok(()));
    assert_eq!(slab.slabs[3].free, vec![0x5000, 0x6000]);
    assert_eq!(slab.allocate(65, 128, &mut pages), Ok(0x6000));
    assert_eq!(slab.allocate(128, 1, &mut pages), Ok(0x5000));
    assert_eq!(slab.allocate(128, 1, &mut pages), Err(AllocationError::OutOfMemory));
    assert_eq!(slab.allocate(64, 1, &mut pages), Err(AllocationError::OutOfMemory));
}

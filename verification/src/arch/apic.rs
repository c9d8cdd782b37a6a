//! The interrupt controllers: interrupt requests, how they are routed, and
//! the entries of the redirection tables.

use vstd::prelude::*;
use crate::arch::cpu::{ApicId, InterruptVector};

verus! {

/// The address that message-signalled interrupts are written to.
pub const MSI_BASE: usize = 0xFEE00000;

/// The bit of a redirection entry that masks the interrupt.
pub const APIC_REDIR_MASK: u32 = 0x00010000;

/// The number of an interrupt request.
#[derive(Debug, Copy, Clone, PartialEq, Eq, Structural, PartialOrd, Ord)]
pub struct Irq(pub u8);

impl Irq {
    /// The interrupt number of request 0.
    pub const BASE: u8 = 0x20;

    /// The largest request.
    pub const MAX: u8 = 127;

    /// The interrupt number of the request: requests follow the 32
    /// exceptions of the processor.
    pub fn as_vec(&self) -> (r: InterruptVector)
        requires
            self.0 <= 0xDF,
        ensures
            r.0 == 0x20 + self.0,
    {
        InterruptVector(Self::BASE + self.0)
    }
}

/// The polarity of an interrupt line.
#[derive(Debug, Copy, Clone, PartialEq, Eq, Structural)]
pub enum ApicPolarity {
    ActiveHigh,
    ActiveLow,
}

impl ApicPolarity {
    /// The polarity in bit 1.
    pub fn as_packed(&self) -> (r: u8)
        ensures
            r == match self {
                ApicPolarity::ActiveHigh => 0u8,
                ApicPolarity::ActiveLow => 2u8,
            },
    {
        match self {
            ApicPolarity::ActiveHigh => 0,
            ApicPolarity::ActiveLow => 2,
        }
    }
}

/// How an interrupt line triggers.
#[derive(Debug, Copy, Clone, PartialEq, Eq, Structural)]
pub enum ApicTriggerMode {
    Edge,
    Level,
}

impl ApicTriggerMode {
    /// The trigger mode in bit 3.
    pub fn as_packed(&self) -> (r: u8)
        ensures
            r == match self {
                ApicTriggerMode::Edge => 0u8,
                ApicTriggerMode::Level => 8u8,
            },
    {
        match self {
            ApicTriggerMode::Edge => 0,
            ApicTriggerMode::Level => 8,
        }
    }
}

/// Polarity and trigger mode in one byte: polarity in bit 1, trigger mode in
/// bit 3.
#[derive(Debug, Copy, Clone, PartialEq, Eq, Structural)]
pub struct PackedPolarity(pub u8);

impl PackedPolarity {
    pub fn new(polarity: ApicPolarity, trigger: ApicTriggerMode) -> (r: Self)
        ensures
            r.0 == (match polarity {
                ApicPolarity::ActiveHigh => 0u8,
                ApicPolarity::ActiveLow => 2u8,
            }) | (match trigger {
                ApicTriggerMode::Edge => 0u8,
                ApicTriggerMode::Level => 8u8,
            }),
    {
        PackedPolarity(polarity.as_packed() | trigger.as_packed())
    }

    /// The byte where a redirection entry has it: from bit 12 on.
    pub fn as_redir(&self) -> (r: u32)
        ensures
            r == (self.0 as u32) << 12,
    {
        (self.0 as u32) << 12
    }
}

/// Where a legacy interrupt goes: the global interrupt it is wired to, and
/// how the line behaves.
#[derive(Debug, Copy, Clone, PartialEq, Eq, Structural)]
pub struct GsiProps {
    pub gsi: Irq,
    pub polarity: PackedPolarity,
}

impl GsiProps {
    pub fn null() -> (r: Self)
        ensures
            r == (GsiProps { gsi: Irq(0), polarity: PackedPolarity(0) }),
    {
        GsiProps { gsi: Irq(0), polarity: PackedPolarity(0) }
    }
}

/// An entry of the firmware's table of interrupt source overrides.
#[derive(Debug, Copy, Clone, PartialEq, Eq, Structural)]
pub struct InterruptSourceOverride {
    pub isa_source: u8,
    pub global_system_interrupt: u32,
    pub polarity: ApicPolarity,
    pub trigger_mode: ApicTriggerMode,
}

/// An I/O interrupt controller: the first global interrupt it serves and the
/// number of its inputs.
#[derive(Debug, Copy, Clone, PartialEq, Eq, Structural)]
pub struct IoApic {
    pub global_int: Irq,
    pub entries: u8,
    pub id: u8,
}

impl IoApic {
    /// The controller that reports the version register `version`: it has
    /// one input more than bits 16 to 23 of the register say, counted in a
    /// byte.
    pub fn new(id: u8, global_system_interrupt_base: u32, version: u32) -> (r: Self)
        ensures
            r.id == id,
            r.global_int.0 == global_system_interrupt_base as u8,
            r.entries == ((version >> 16) as u8).wrapping_add(1),
    {
        let high: u8 = #[verifier::truncate]
        ((version >> 16) as u8);
        IoApic {
            global_int: Irq(
                #[verifier::truncate]
                (global_system_interrupt_base as u8),
            ),
            entries: high.wrapping_add(1),
            id,
        }
    }

    /// Whether the controller serves the global interrupt `gsi`.
    pub open spec fn serves(self, gsi: Irq) -> bool {
        self.global_int.0 <= gsi.0 && gsi.0 - self.global_int.0 < self.entries
    }
}

/// Where the entry of an interrupt is to be written: the controller, by its
/// place in the list, and the input of that controller.
#[derive(Debug, Copy, Clone, PartialEq, Eq, Structural)]
pub struct Route {
    pub ioapic: usize,
    pub local_irq: u8,
}

/// The interrupt controllers of the machine.
pub struct Apic {
    pub master_apic_id: ApicId,
    pub ioapics: Vec<IoApic>,
    pub gsi_table: Vec<GsiProps>,
}

impl Apic {
    /// No controller, and every legacy interrupt wired to global interrupt
    /// 0.
    pub fn new() -> (r: Self)
        ensures
            r.master_apic_id == ApicId(0),
            r.ioapics@.len() == 0,
            r.gsi_table@.len() == 256,
            forall|i: int| 0 <= i < 256 ==> r.gsi_table@[i] == (GsiProps {
                gsi: Irq(0),
                polarity: PackedPolarity(0),
            }),
    {
        let mut gsi_table: Vec<GsiProps> = Vec::new();
        let mut i: usize = 0;
        while i < 256
            invariant
                i <= 256,
                gsi_table@.len() == i,
                forall|j: int| 0 <= j < i ==> gsi_table@[j] == (GsiProps {
                    gsi: Irq(0),
                    polarity: PackedPolarity(0),
                }),
            decreases 256 - i,
        {
            gsi_table.push(GsiProps::null());
            i = i + 1;
        }
        Apic { master_apic_id: ApicId(0), ioapics: Vec::new(), gsi_table }
    }

    /// The table after an override was taken in.
    pub open spec fn with_override(table: Seq<GsiProps>, source: InterruptSourceOverride) -> Seq<
        GsiProps,
    > {
        table.update(
            source.isa_source as int,
            GsiProps {
                gsi: Irq(source.global_system_interrupt as u8),
                polarity: PackedPolarity(
                    (match source.polarity {
                        ApicPolarity::ActiveHigh => 0u8,
                        ApicPolarity::ActiveLow => 2u8,
                    }) | (match source.trigger_mode {
                        ApicTriggerMode::Edge => 0u8,
                        ApicTriggerMode::Level => 8u8,
                    }),
                ),
            },
        )
    }

    /// The table after the given overrides were taken in, first to last.
    pub open spec fn with_overrides(table: Seq<GsiProps>, sources: Seq<InterruptSourceOverride>) -> Seq<
        GsiProps,
    >
        decreases sources.len(),
    {
        if sources.len() == 0 {
            table
        } else {
            Self::with_override(Self::with_overrides(table, sources.drop_last()), sources.last())
        }
    }

    /// Takes in what the firmware says about the wiring of the legacy
    /// interrupts: legacy interrupt 1, the keyboard, goes to global
    /// interrupt 1 unless an override says otherwise; then each override
    /// replaces the entry of its legacy interrupt.
    pub fn import_gsi_table(&mut self, overrides: &Vec<InterruptSourceOverride>)
        requires
            old(self).gsi_table@.len() == 256,
        ensures
            final(self).master_apic_id == old(self).master_apic_id,
            final(self).ioapics@ == old(self).ioapics@,
            final(self).gsi_table@ == Self::with_overrides(
                old(self).gsi_table@.update(
                    1,
                    GsiProps { gsi: Irq(1), polarity: PackedPolarity(0) },
                ),
                overrides@,
            ),
            final(self).gsi_table@.len() == 256,
    {
        self.gsi_table[1] = GsiProps { gsi: Irq(1), polarity: PackedPolarity(0) };
        let ghost base = self.gsi_table@;
        let mut i: usize = 0;
        assert(overrides@.take(0) =~= Seq::empty());
        while i < overrides.len()
            invariant
                i <= overrides@.len(),
                self.gsi_table@.len() == 256,
                self.gsi_table@ == Self::with_overrides(base, overrides@.take(i as int)),
                self.master_apic_id == old(self).master_apic_id,
                self.ioapics@ == old(self).ioapics@,
            decreases overrides@.len() - i,
        {
            let source = overrides[i];
            proof {
                assert(overrides@.take(i + 1).drop_last() =~= overrides@.take(i as int));
                assert(overrides@.take(i + 1).last() == source);
            }
            let props = GsiProps {
                gsi: Irq(
                    #[verifier::truncate]
                    (source.global_system_interrupt as u8),
                ),
                polarity: PackedPolarity::new(source.polarity, source.trigger_mode),
            };
            self.gsi_table[source.isa_source as usize] = props;
            i = i + 1;
        }
        assert(overrides@.take(overrides@.len() as int) =~= overrides@);
    }

    /// The first controller that serves the global interrupt of the legacy
    /// interrupt `irq`, and the input of that controller.
    pub fn route(&self, irq: Irq) -> (r: Option<Route>)
        requires
            self.gsi_table@.len() == 256,
        ensures
            r matches Some(route) ==> route.ioapic < self.ioapics@.len()
                && self.ioapics@[route.ioapic as int].serves(self.gsi_table@[irq.0 as int].gsi)
                && route.local_irq == self.gsi_table@[irq.0 as int].gsi.0
                - self.ioapics@[route.ioapic as int].global_int.0 && (forall|j: int|
                0 <= j < route.ioapic ==> !(#[trigger] self.ioapics@[j]).serves(
                    self.gsi_table@[irq.0 as int].gsi,
                )),
            r.is_none() ==> forall|j: int|
                0 <= j < self.ioapics@.len() ==> !(#[trigger] self.ioapics@[j]).serves(
                    self.gsi_table@[irq.0 as int].gsi,
                ),
    {
        let gsi = self.gsi_table[irq.0 as usize].gsi;
        let mut i: usize = 0;
        while i < self.ioapics.len()
            invariant
                i <= self.ioapics@.len(),
                self.gsi_table@.len() == 256,
                gsi == self.gsi_table@[irq.0 as int].gsi,
                forall|j: int| 0 <= j < i ==> !(#[trigger] self.ioapics@[j]).serves(gsi),
            decreases self.ioapics@.len() - i,
        {
            let ioapic = self.ioapics[i];
            if ioapic.global_int.0 <= gsi.0 && gsi.0 - ioapic.global_int.0 < ioapic.entries {
                return Some(Route { ioapic: i, local_irq: gsi.0 - ioapic.global_int.0 });
            }
            i = i + 1;
        }
        None
    }

    /// The two words of the redirection entry that sends the interrupt `vec`
    /// to the processor `apic_id`.
    pub fn make_redirect_table_entry_pair(
        vec: InterruptVector,
        polarity: PackedPolarity,
        apic_id: ApicId,
    ) -> (r: (u32, u32))
        ensures
            r.0 == (vec.0 as u32) | ((polarity.0 as u32) << 12),
            r.1 == apic_id.0 << 24,
    {
        (vec.0 as u32 | polarity.as_redir(), apic_id.0 << 24)
    }

    /// What is to be written to route the legacy interrupt `irq` to the
    /// master processor: the controller and its input, and the two words of
    /// the entry. Fails if no controller serves the interrupt.
    pub fn register(&self, irq: Irq) -> (r: Result<(Route, (u32, u32)), ()>)
        requires
            self.gsi_table@.len() == 256,
            self.gsi_table@[irq.0 as int].gsi.0 <= 0xDF,
        ensures
            r.is_ok() == (exists|j: int|
                0 <= j < self.ioapics@.len() && (#[trigger] self.ioapics@[j]).serves(
                    self.gsi_table@[irq.0 as int].gsi,
                )),
            r matches Ok(w) ==> w.0.ioapic < self.ioapics@.len()
                && self.ioapics@[w.0.ioapic as int].serves(self.gsi_table@[irq.0 as int].gsi)
                && w.1.0 == ((0x20 + self.gsi_table@[irq.0 as int].gsi.0) as u32) | ((
            self.gsi_table@[irq.0 as int].polarity.0 as u32) << 12) && w.1.1
                == self.master_apic_id.0 << 24,
    {
        let props = self.gsi_table[irq.0 as usize];
        match self.route(irq) {
            Some(route) => {
                let vec_irq = props.gsi.as_vec();
                let pair = Self::make_redirect_table_entry_pair(
                    vec_irq,
                    props.polarity,
                    self.master_apic_id,
                );
                Ok((route, pair))
            },
            None => Err(()),
        }
    }

    /// The low word of a redirection entry with the interrupt enabled or
    /// masked.
    pub fn set_irq_enabled(value: u32, new_value: bool) -> (r: u32)
        ensures
            r == if new_value {
                value & !0x00010000u32
            } else {
                value | 0x00010000u32
            },
    {
        if new_value {
            value & !APIC_REDIR_MASK
        } else {
            value | APIC_REDIR_MASK
        }
    }
}

} // verus!

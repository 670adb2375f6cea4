//! Interrupt vectors and the command sequences of the 8259 interrupt
//! controllers (PIC). The driver writes these to the I/O ports.

use vstd::prelude::*;

verus! {

/// First vector of the primary PIC.
pub const PIC1_OFFSET: u8 = 32;
/// First vector of the secondary PIC.
pub const PIC2_OFFSET: u8 = 40;

/// Command port of the primary PIC.
pub const PIC1_CMD: u16 = 0x20;
/// Data port of the primary PIC.
pub const PIC1_DATA: u16 = 0x21;
/// Command port of the secondary PIC.
pub const PIC2_CMD: u16 = 0xA0;
/// Data port of the secondary PIC.
pub const PIC2_DATA: u16 = 0xA1;

/// Initialisation command word 1: start initialisation, ICW4 follows.
pub const ICW1_INIT: u8 = 0x11;
/// Initialisation command word 4: 8086 mode.
pub const ICW4_8086: u8 = 0x01;
/// End-of-interrupt command.
pub const EOI: u8 = 0x20;

/// Hardware interrupts the kernel handles.
#[derive(Debug, Clone, Copy, PartialEq, Eq, Structural)]
pub enum InterruptIndex {
    Timer,
    Keyboard,
}

impl InterruptIndex {
    /// The interrupt vector: IRQ0 (timer) and IRQ1 (keyboard) of the
    /// primary PIC.
    #[verifier::allow_in_spec]
    pub fn as_u8(self) -> u8
        returns
            match self {
                InterruptIndex::Timer => PIC1_OFFSET,
                InterruptIndex::Keyboard => (PIC1_OFFSET + 1) as u8,
            },
    {
        match self {
            InterruptIndex::Timer => PIC1_OFFSET,
            InterruptIndex::Keyboard => PIC1_OFFSET + 1,
        }
    }

    /// The interrupt vector as a table index.
    pub fn as_usize(self) -> (v: usize)
        ensures
            v == self.as_u8() as usize,
    {
        self.as_u8() as usize
    }
}

/// One write of the PIC initialisation: port, value, and whether the
/// controller needs an I/O delay after it.
pub type PortWrite = (u16, u8, bool);

/// The writes that initialise both PICs: ICW1 to both, the vector offsets,
/// the cascade wiring (secondary on IRQ2), 8086 mode, then the masks that
/// leave only IRQ1 (keyboard) enabled.
pub fn pic_init_sequence() -> (s: [PortWrite; 10])
    ensures
        s@ == seq![
            (PIC1_CMD, ICW1_INIT, true),
            (PIC2_CMD, ICW1_INIT, true),
            (PIC1_DATA, PIC1_OFFSET, true),
            (PIC2_DATA, PIC2_OFFSET, true),
            (PIC1_DATA, 0x04u8, true),
            (PIC2_DATA, 0x02u8, true),
            (PIC1_DATA, ICW4_8086, true),
            (PIC2_DATA, ICW4_8086, true),
            (PIC1_DATA, 0xFDu8, false),
            (PIC2_DATA, 0xFFu8, false),
        ],
{
    let s = [
        (PIC1_CMD, ICW1_INIT, true),
        (PIC2_CMD, ICW1_INIT, true),
        (PIC1_DATA, PIC1_OFFSET, true),
        (PIC2_DATA, PIC2_OFFSET, true),
        (PIC1_DATA, 0x04u8, true),
        (PIC2_DATA, 0x02u8, true),
        (PIC1_DATA, ICW4_8086, true),
        (PIC2_DATA, ICW4_8086, true),
        (PIC1_DATA, 0xFDu8, false),
        (PIC2_DATA, 0xFFu8, false),
    ];
    assert(s@ =~= seq![
        (PIC1_CMD, ICW1_INIT, true),
        (PIC2_CMD, ICW1_INIT, true),
        (PIC1_DATA, PIC1_OFFSET, true),
        (PIC2_DATA, PIC2_OFFSET, true),
        (PIC1_DATA, 0x04u8, true),
        (PIC2_DATA, 0x02u8, true),
        (PIC1_DATA, ICW4_8086, true),
        (PIC2_DATA, ICW4_8086, true),
        (PIC1_DATA, 0xFDu8, false),
        (PIC2_DATA, 0xFFu8, false),
    ]);
    s
}

/// The command ports that must receive the end-of-interrupt command after
/// IRQ `irq`, in order: the secondary PIC's for IRQs 8 and above, then
/// always the primary's.
pub fn pic_eoi_ports(irq: u8) -> (ports: (Option<u16>, u16))
    ensures
        ports == (if irq >= 8 { Some(PIC2_CMD) } else { None }, PIC1_CMD),
{
    let secondary = if irq >= 8 { Some(PIC2_CMD) } else { None };
    (secondary, PIC1_CMD)
}

} // verus!

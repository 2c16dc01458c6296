//! The interrupt-flag (IF) and interrupt-enable (IE) latches, and the five
//! interrupt sources with their handler vectors.

use vstd::prelude::*;

verus! {

#[derive(Clone, Copy, Debug, PartialEq, Eq, Structural)]
pub enum InterruptType {
    VBlank,
    LCDStat,
    Timer,
    Serial,
    Joypad,
}

impl InterruptType {
    /// The bit each source occupies in IF and IE.
    pub open spec fn spec_mask(self) -> u8 {
        match self {
            InterruptType::VBlank => 0x01u8,
            InterruptType::LCDStat => 0x02u8,
            InterruptType::Timer => 0x04u8,
            InterruptType::Serial => 0x08u8,
            InterruptType::Joypad => 0x10u8,
        }
    }

    pub fn mask(self) -> (result: u8)
        ensures
            result == self.spec_mask(),
    {
        match self {
            InterruptType::VBlank => 0x01,
            InterruptType::LCDStat => 0x02,
            InterruptType::Timer => 0x04,
            InterruptType::Serial => 0x08,
            InterruptType::Joypad => 0x10,
        }
    }

    /// The handler vector for each source.
    pub open spec fn spec_handler_address(self) -> u16 {
        match self {
            InterruptType::VBlank => 0x0040u16,
            InterruptType::LCDStat => 0x0048u16,
            InterruptType::Timer => 0x0050u16,
            InterruptType::Serial => 0x0058u16,
            InterruptType::Joypad => 0x0060u16,
        }
    }
}

pub fn get_handler_address(interrupt_type: InterruptType) -> (result: u16)
    ensures
        result == interrupt_type.spec_handler_address(),
{
    match interrupt_type {
        InterruptType::VBlank => 0x0040,
        InterruptType::LCDStat => 0x0048,
        InterruptType::Timer => 0x0050,
        InterruptType::Serial => 0x0058,
        InterruptType::Joypad => 0x0060,
    }
}

/// The interrupt-flag latch at FF0F. Only the low five bits are
/// meaningful; writes keep only those, as the I/O block demands.
#[derive(Clone, Copy, Debug, PartialEq, Eq, Structural)]
pub struct IFRegister(pub u8);

impl IFRegister {
    /// The post-boot value of IF.
    pub fn new() -> (result: IFRegister)
        ensures
            result.0 == 0xe1,
    {
        IFRegister(0xe1)
    }

    pub fn is_requested(&self, interrupt_type: InterruptType) -> (result: bool)
        ensures
            result == (self.0 & interrupt_type.spec_mask() != 0),
    {
        self.0 & interrupt_type.mask() != 0
    }

    pub fn request_interrupt(&mut self, interrupt_type: InterruptType)
        ensures
            final(self).0 == old(self).0 | interrupt_type.spec_mask(),
    {
        self.0 = self.0 | interrupt_type.mask();
    }

    pub fn clear_request(&mut self, interrupt_type: InterruptType)
        ensures
            final(self).0 == old(self).0 & !interrupt_type.spec_mask(),
    {
        self.0 = self.0 & !interrupt_type.mask();
    }

    pub fn read_byte(&self) -> (result: u8)
        ensures
            result == self.0,
    {
        self.0
    }

    pub fn write_byte(&mut self, value: u8)
        ensures
            final(self).0 == value & 0x1f,
    {
        self.0 = value & 0x1f;
    }

    pub fn is_vblank(&self) -> (result: bool)
        ensures
            result == (self.0 & 0x01 != 0),
    {
        self.0 & 0x01 != 0
    }

    pub fn is_lcd_stat(&self) -> (result: bool)
        ensures
            result == (self.0 & 0x02 != 0),
    {
        self.0 & 0x02 != 0
    }

    pub fn is_timer(&self) -> (result: bool)
        ensures
            result == (self.0 & 0x04 != 0),
    {
        self.0 & 0x04 != 0
    }

    pub fn is_serial(&self) -> (result: bool)
        ensures
            result == (self.0 & 0x08 != 0),
    {
        self.0 & 0x08 != 0
    }

    pub fn is_joypad(&self) -> (result: bool)
        ensures
            result == (self.0 & 0x10 != 0),
    {
        self.0 & 0x10 != 0
    }
}

/// The interrupt-enable latch at FFFF.
#[derive(Clone, Copy, Debug, PartialEq, Eq, Structural)]
pub struct IERegister(pub u8);

impl IERegister {
    pub fn new() -> (result: IERegister)
        ensures
            result.0 == 0,
    {
        IERegister(0x00)
    }

    pub fn read_byte(&self) -> (result: u8)
        ensures
            result == self.0,
    {
        self.0
    }

    pub fn write_byte(&mut self, value: u8)
        ensures
            final(self).0 == value,
    {
        self.0 = value;
    }

    pub fn is_handler_enabled(&self, interrupt_type: InterruptType) -> (result: bool)
        ensures
            result == (self.0 & interrupt_type.spec_mask() != 0),
    {
        self.0 & interrupt_type.mask() != 0
    }

    pub fn is_vblank_handler_enabled(&self) -> (result: bool)
        ensures
            result == (self.0 & 0x01 != 0),
    {
        self.0 & 0x01 != 0
    }

    pub fn is_lcd_handler_enabled(&self) -> (result: bool)
        ensures
            result == (self.0 & 0x02 != 0),
    {
        self.0 & 0x02 != 0
    }

    pub fn is_timer_handler_enabled(&self) -> (result: bool)
        ensures
            result == (self.0 & 0x04 != 0),
    {
        self.0 & 0x04 != 0
    }

    pub fn is_serial_handler_enabled(&self) -> (result: bool)
        ensures
            result == (self.0 & 0x08 != 0),
    {
        self.0 & 0x08 != 0
    }

    pub fn is_joypad_handler_enabled(&self) -> (result: bool)
        ensures
            result == (self.0 & 0x10 != 0),
    {
        self.0 & 0x10 != 0
    }
}

} // verus!

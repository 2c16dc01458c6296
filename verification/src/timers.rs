//! The divider/TIMA/TMA/TAC timer unit, driven by the 16-bit internal
//! counter SYS.
//!
//! SYS advances by one every T-cycle. DIV at FF04 is the high byte of SYS
//! and cannot be written: any write resets SYS to zero. TIMA advances on
//! the falling edge of the SYS bit selected by TAC, and reloads from TMA
//! when it overflows, which requests a timer interrupt.

use vstd::prelude::*;

verus! {

#[derive(Clone, Copy, Debug, PartialEq, Eq, Structural)]
pub struct Timers {
    /// The 16-bit internal counter; DIV is its high byte.
    pub sys: u16,
    pub tima: u8,
    pub tma: u8,
    pub tac: u8,
}

impl Timers {
    /// The SYS bit whose falling edge advances TIMA, as a mask: TAC bits
    /// 1..0 select bit 9, 3, 5 or 7 (4096, 262144, 65536 or 16384 Hz).
    pub open spec fn spec_selected_bit_mask(tac: u8) -> u16 {
        if tac & 3 == 0 {
            0x0200u16
        } else if tac & 3 == 1 {
            0x0008u16
        } else if tac & 3 == 2 {
            0x0020u16
        } else {
            0x0080u16
        }
    }

    /// SYS one T-cycle later, wrapping at 16 bits.
    pub open spec fn spec_next_sys(sys: u16) -> u16 {
        if sys == 0xffff {
            0u16
        } else {
            (sys + 1) as u16
        }
    }

    /// Whether this tick sees the selected SYS bit fall from 1 to 0 while
    /// the timer is enabled (TAC bit 2).
    pub open spec fn spec_tima_ticks(self) -> bool {
        &&& self.tac & 0x04 != 0
        &&& self.sys & Timers::spec_selected_bit_mask(self.tac) != 0
        &&& Timers::spec_next_sys(self.sys) & Timers::spec_selected_bit_mask(self.tac) == 0
    }

    /// DIV is the high byte of SYS.
    pub open spec fn spec_div(self) -> u8 {
        ((self.sys >> 8) & 0xff) as u8
    }

    /// The post-boot state: SYS mid-count, timer disabled at 4096 Hz.
    pub fn new() -> (result: Timers)
        ensures
            result == (Timers { sys: 0xab00, tima: 0x00, tma: 0x00, tac: 0xf8 }),
    {
        Timers { sys: 0xab00, tima: 0x00, tma: 0x00, tac: 0xf8 }
    }

    pub fn get_div_byte(&self) -> (result: u8)
        ensures
            result == self.spec_div(),
    {
        #[verifier::truncate]
        let result = ((self.sys >> 8) & 0xff) as u8;
        result
    }

    pub fn read_byte(&self, address: u16) -> (result: u8)
        requires
            0xff04 <= address <= 0xff07,
        ensures
            address == 0xff04 ==> result == self.spec_div(),
            address == 0xff05 ==> result == self.tima,
            address == 0xff06 ==> result == self.tma,
            address == 0xff07 ==> result == self.tac,
    {
        if address == 0xff04 {
            self.get_div_byte()
        } else if address == 0xff05 {
            self.tima
        } else if address == 0xff06 {
            self.tma
        } else {
            self.tac
        }
    }

    /// Writes: DIV resets SYS whatever the value; TAC keeps its upper five
    /// bits and takes the low three from the value.
    pub fn write_byte(&mut self, address: u16, value: u8)
        requires
            0xff04 <= address <= 0xff07,
        ensures
            *final(self) == match address {
                0xff04u16 => (Timers { sys: 0u16, ..*old(self) }),
                0xff05u16 => (Timers { tima: value, ..*old(self) }),
                0xff06u16 => (Timers { tma: value, ..*old(self) }),
                _ => (Timers { tac: (old(self).tac & 0xf8) | (value & 0x07), ..*old(self) }),
            },
    {
        if address == 0xff04 {
            self.sys = 0;
        } else if address == 0xff05 {
            self.tima = value;
        } else if address == 0xff06 {
            self.tma = value;
        } else {
            self.tac = (self.tac & 0xf8) | (value & 0x07);
        }
    }

    /// One T-cycle: SYS advances, and TIMA advances on the falling edge of
    /// the selected bit. Returns true exactly when TIMA overflowed, was
    /// reloaded from TMA, and a timer interrupt is due.
    pub fn tick(&mut self) -> (overflow: bool)
        ensures
            final(self).sys == Timers::spec_next_sys(old(self).sys),
            final(self).tma == old(self).tma,
            final(self).tac == old(self).tac,
            final(self).tima == if old(self).spec_tima_ticks() {
                if old(self).tima == 0xff {
                    old(self).tma
                } else {
                    (old(self).tima + 1) as u8
                }
            } else {
                old(self).tima
            },
            overflow == (old(self).spec_tima_ticks() && old(self).tima == 0xff),
    {
        let last_sys = self.sys;
        self.sys = if self.sys == 0xffff {
            0
        } else {
            self.sys + 1
        };
        if self.tac & 0x04 != 0 {
            let mask = if self.tac & 3 == 0 {
                0x0200u16
            } else if self.tac & 3 == 1 {
                0x0008u16
            } else if self.tac & 3 == 2 {
                0x0020u16
            } else {
                0x0080u16
            };
            if last_sys & mask != 0 && self.sys & mask == 0 {
                return self.inc_tima();
            }
        }
        false
    }

    /// Advance TIMA by one; on overflow reload it from TMA and report that
    /// a timer interrupt is due.
    pub fn inc_tima(&mut self) -> (overflow: bool)
        ensures
            final(self).sys == old(self).sys,
            final(self).tma == old(self).tma,
            final(self).tac == old(self).tac,
            final(self).tima == if old(self).tima == 0xff {
                old(self).tma
            } else {
                (old(self).tima + 1) as u8
            },
            overflow == (old(self).tima == 0xff),
    {
        if self.tima == 0xff {
            self.tima = self.tma;
            true
        } else {
            self.tima = self.tima + 1;
            false
        }
    }
}

/// Writing any value to DIV makes the very next read of DIV return zero.
pub proof fn lemma_div_write_then_read_is_zero(timers: Timers)
    ensures
        (Timers { sys: 0u16, ..timers }).spec_div() == 0,
{
    assert(((0u16 >> 8) & 0xff) as u8 == 0) by (bit_vector);
}

} // verus!

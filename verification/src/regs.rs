//! The CPU register file: eight 8-bit registers, SP and PC, and the four
//! flag bits Z, N, H, C that occupy bits 7..4 of F.
//!
//! The flags are stored as booleans, so the low four bits of F are zero by
//! construction; reads and writes of F and AF convert at the boundary.

use vstd::prelude::*;

verus! {

#[derive(Clone, Copy, Debug, PartialEq, Eq, Structural)]
pub enum ByteRegister {
    A,
    F,
    B,
    C,
    D,
    E,
    H,
    L,
}

#[derive(Clone, Copy, Debug, PartialEq, Eq, Structural)]
pub enum WordRegister {
    AF,
    BC,
    DE,
    HL,
    /// HL with post-increment: reads HL, then HL := HL + 1.
    HLi,
    /// HL with post-decrement: reads HL, then HL := HL - 1.
    HLd,
    PC,
    SP,
}

#[derive(Clone, Copy, Debug, PartialEq, Eq, Structural)]
pub enum Flag {
    Zero,
    Subtract,
    HalfCarry,
    Carry,
}

#[derive(Clone, Copy, Debug, PartialEq, Eq, Structural)]
pub struct RegisterSet {
    pub a: u8,
    pub b: u8,
    pub c: u8,
    pub d: u8,
    pub e: u8,
    pub h: u8,
    pub l: u8,
    pub flag_z: bool,
    pub flag_n: bool,
    pub flag_h: bool,
    pub flag_c: bool,
    pub pc: u16,
    pub sp: u16,
}

impl RegisterSet {
    /// The F register materialised from the flag bits: Z, N, H, C in bits
    /// 7, 6, 5, 4; the low four bits are always zero.
    pub open spec fn spec_f(self) -> u8 {
        (if self.flag_z { 0x80u8 } else { 0u8 }
            + if self.flag_n { 0x40u8 } else { 0u8 }
            + if self.flag_h { 0x20u8 } else { 0u8 }
            + if self.flag_c { 0x10u8 } else { 0u8 }) as u8
    }

    pub open spec fn spec_b(self, register: ByteRegister) -> u8 {
        match register {
            ByteRegister::A => self.a,
            ByteRegister::F => self.spec_f(),
            ByteRegister::B => self.b,
            ByteRegister::C => self.c,
            ByteRegister::D => self.d,
            ByteRegister::E => self.e,
            ByteRegister::H => self.h,
            ByteRegister::L => self.l,
        }
    }

    /// Register pairs are formed as high:low; HLi and HLd read HL.
    pub open spec fn spec_w(self, register: WordRegister) -> u16 {
        match register {
            WordRegister::AF => (self.a * 256 + self.spec_f()) as u16,
            WordRegister::BC => (self.b * 256 + self.c) as u16,
            WordRegister::DE => (self.d * 256 + self.e) as u16,
            WordRegister::HL | WordRegister::HLi | WordRegister::HLd => (self.h * 256
                + self.l) as u16,
            WordRegister::PC => self.pc,
            WordRegister::SP => self.sp,
        }
    }

    pub open spec fn spec_flag(self, flag: Flag) -> bool {
        match flag {
            Flag::Zero => self.flag_z,
            Flag::Subtract => self.flag_n,
            Flag::HalfCarry => self.flag_h,
            Flag::Carry => self.flag_c,
        }
    }

    /// The register file after writing an 8-bit register; a write of F
    /// keeps only its four flag bits.
    pub open spec fn spec_set_b(self, register: ByteRegister, value: u8) -> RegisterSet {
        match register {
            ByteRegister::A => RegisterSet { a: value, ..self },
            ByteRegister::F => RegisterSet {
                flag_z: value & 0x80 != 0,
                flag_n: value & 0x40 != 0,
                flag_h: value & 0x20 != 0,
                flag_c: value & 0x10 != 0,
                ..self
            },
            ByteRegister::B => RegisterSet { b: value, ..self },
            ByteRegister::C => RegisterSet { c: value, ..self },
            ByteRegister::D => RegisterSet { d: value, ..self },
            ByteRegister::E => RegisterSet { e: value, ..self },
            ByteRegister::H => RegisterSet { h: value, ..self },
            ByteRegister::L => RegisterSet { l: value, ..self },
        }
    }

    /// The register file after writing a 16-bit register; HLi and HLd
    /// write HL.
    pub open spec fn spec_set_w(self, register: WordRegister, value: u16) -> RegisterSet {
        match register {
            WordRegister::AF => RegisterSet {
                a: (value / 256) as u8,
                flag_z: (value % 256) & 0x80 != 0,
                flag_n: (value % 256) & 0x40 != 0,
                flag_h: (value % 256) & 0x20 != 0,
                flag_c: (value % 256) & 0x10 != 0,
                ..self
            },
            WordRegister::BC => RegisterSet {
                b: (value / 256) as u8,
                c: (value % 256) as u8,
                ..self
            },
            WordRegister::DE => RegisterSet {
                d: (value / 256) as u8,
                e: (value % 256) as u8,
                ..self
            },
            WordRegister::HL | WordRegister::HLi | WordRegister::HLd => RegisterSet {
                h: (value / 256) as u8,
                l: (value % 256) as u8,
                ..self
            },
            WordRegister::PC => RegisterSet { pc: value, ..self },
            WordRegister::SP => RegisterSet { sp: value, ..self },
        }
    }

    pub open spec fn spec_set_flag(self, flag: Flag, value: bool) -> RegisterSet {
        match flag {
            Flag::Zero => RegisterSet { flag_z: value, ..self },
            Flag::Subtract => RegisterSet { flag_n: value, ..self },
            Flag::HalfCarry => RegisterSet { flag_h: value, ..self },
            Flag::Carry => RegisterSet { flag_c: value, ..self },
        }
    }

    pub fn get_b(&self, register: ByteRegister) -> (value: u8)
        ensures
            value == self.spec_b(register),
    {
        match register {
            ByteRegister::A => self.a,
            ByteRegister::F => {
                let z: u8 = if self.flag_z {
                    0x80
                } else {
                    0
                };
                let n: u8 = if self.flag_n {
                    0x40
                } else {
                    0
                };
                let h: u8 = if self.flag_h {
                    0x20
                } else {
                    0
                };
                let c: u8 = if self.flag_c {
                    0x10
                } else {
                    0
                };
                z + n + h + c
            },
            ByteRegister::B => self.b,
            ByteRegister::C => self.c,
            ByteRegister::D => self.d,
            ByteRegister::E => self.e,
            ByteRegister::H => self.h,
            ByteRegister::L => self.l,
        }
    }

    pub fn get_w(&self, register: WordRegister) -> (value: u16)
        ensures
            value == self.spec_w(register),
    {
        match register {
            WordRegister::AF => (self.a as u16) * 256 + (self.get_b(ByteRegister::F) as u16),
            WordRegister::BC => (self.b as u16) * 256 + (self.c as u16),
            WordRegister::DE => (self.d as u16) * 256 + (self.e as u16),
            WordRegister::HL | WordRegister::HLi | WordRegister::HLd => (self.h as u16) * 256 + (
            self.l as u16),
            WordRegister::PC => self.pc,
            WordRegister::SP => self.sp,
        }
    }

    /// Writing F keeps only bits 7..4 of the value, so the invariant that
    /// the low four bits of F are zero is preserved.
    pub fn set_b(&mut self, register: ByteRegister, value: u8)
        ensures
            *final(self) == old(self).spec_set_b(register, value),
    {
        match register {
            ByteRegister::A => {
                self.a = value;
            },
            ByteRegister::F => {
                self.flag_z = value & 0x80 != 0;
                self.flag_n = value & 0x40 != 0;
                self.flag_h = value & 0x20 != 0;
                self.flag_c = value & 0x10 != 0;
            },
            ByteRegister::B => {
                self.b = value;
            },
            ByteRegister::C => {
                self.c = value;
            },
            ByteRegister::D => {
                self.d = value;
            },
            ByteRegister::E => {
                self.e = value;
            },
            ByteRegister::H => {
                self.h = value;
            },
            ByteRegister::L => {
                self.l = value;
            },
        }
    }

    pub fn set_w(&mut self, register: WordRegister, value: u16)
        ensures
            *final(self) == old(self).spec_set_w(register, value),
    {
        let hi: u8 = (value / 256) as u8;
        let lo: u8 = (value % 256) as u8;
        match register {
            WordRegister::AF => {
                self.a = hi;
                self.set_b(ByteRegister::F, lo);
            },
            WordRegister::BC => {
                self.b = hi;
                self.c = lo;
            },
            WordRegister::DE => {
                self.d = hi;
                self.e = lo;
            },
            WordRegister::HL | WordRegister::HLi | WordRegister::HLd => {
                self.h = hi;
                self.l = lo;
            },
            WordRegister::PC => {
                self.pc = value;
            },
            WordRegister::SP => {
                self.sp = value;
            },
        }
    }

    pub fn get_flag(&self, flag: Flag) -> (value: bool)
        ensures
            value == self.spec_flag(flag),
    {
        match flag {
            Flag::Zero => self.flag_z,
            Flag::Subtract => self.flag_n,
            Flag::HalfCarry => self.flag_h,
            Flag::Carry => self.flag_c,
        }
    }

    pub fn set_flag(&mut self, flag: Flag, value: bool)
        ensures
            *final(self) == old(self).spec_set_flag(flag, value),
    {
        match flag {
            Flag::Zero => {
                self.flag_z = value;
            },
            Flag::Subtract => {
                self.flag_n = value;
            },
            Flag::HalfCarry => {
                self.flag_h = value;
            },
            Flag::Carry => {
                self.flag_c = value;
            },
        }
    }

    pub fn sp(&self) -> (value: u16)
        ensures
            value == self.sp,
    {
        self.sp
    }

    pub fn set_sp(&mut self, value: u16)
        ensures
            *final(self) == (RegisterSet { sp: value, ..*old(self) }),
    {
        self.sp = value;
    }

    pub fn pc(&self) -> (value: u16)
        ensures
            value == self.pc,
    {
        self.pc
    }
}

impl RegisterSet {
    /// The post-boot-ROM register state of a DMG: AF=0x01B0, BC=0x0013,
    /// DE=0x00D8, HL=0x014D, SP=0xFFFE, PC=0x0100.
    pub open spec fn spec_default() -> RegisterSet {
        RegisterSet {
            a: 0x01,
            b: 0x00,
            c: 0x13,
            d: 0x00,
            e: 0xd8,
            h: 0x01,
            l: 0x4d,
            flag_z: true,
            flag_n: false,
            flag_h: true,
            flag_c: true,
            pc: 0x0100,
            sp: 0xfffe,
        }
    }
}

impl Default for RegisterSet {
    fn default() -> (result: RegisterSet)
        ensures
            result == RegisterSet::spec_default(),
    {
        RegisterSet {
            a: 0x01,
            b: 0x00,
            c: 0x13,
            d: 0x00,
            e: 0xd8,
            h: 0x01,
            l: 0x4d,
            flag_z: true,
            flag_n: false,
            flag_h: true,
            flag_c: true,
            pc: 0x0100,
            sp: 0xfffe,
        }
    }
}

} // verus!

//! Bank selection flags of a banked 8085 memory map.
use vstd::prelude::*;

verus! {

/// Which bank the low half of the address space maps.
#[derive(Debug, Clone, Copy, PartialEq, Eq, Structural)]
pub enum LowBank {
    Rom0,
    Rom1,
    Ram2,
    Ram3,
}

/// Which bank the high half of the address space maps.
#[derive(Debug, Clone, Copy, PartialEq, Eq, Structural)]
pub enum HighBank {
    StdRam,
    Unused,
    Ram2,
    Ram3,
}

/// Four bank-select flags: LADR1 and LADR2 (bits 0 and 1) choose the low
/// bank, HADR1 and HADR2 (bits 2 and 3) the high bank.
#[derive(Debug, Clone, Copy, PartialEq, Eq, Structural)]
pub struct BankFlags {
    bits: u8,
}

/// The low bank that a 2-bit selector names.
pub open spec fn low_bank_of(sel: nat) -> LowBank {
    if sel == 0 { LowBank::Rom0 }
    else if sel == 1 { LowBank::Rom1 }
    else if sel == 2 { LowBank::Ram2 }
    else { LowBank::Ram3 }
}

/// The high bank that a 2-bit selector names.
pub open spec fn high_bank_of(sel: nat) -> HighBank {
    if sel == 0 { HighBank::StdRam }
    else if sel == 1 { HighBank::Unused }
    else if sel == 2 { HighBank::Ram2 }
    else { HighBank::Ram3 }
}

impl BankFlags {
    pub const HADR2: u8 = 8;
    pub const HADR1: u8 = 4;
    pub const LADR2: u8 = 2;
    pub const LADR1: u8 = 1;

    /// The flags as a number below sixteen.
    pub closed spec fn view(&self) -> nat {
        self.bits as nat
    }

    pub closed spec fn wf(&self) -> bool {
        self.bits < 16
    }

    /// The flags that `bits` sets; bits above the four flags are dropped.
    pub fn from_bits_truncate(bits: u8) -> (r: BankFlags)
        ensures
            r.wf(),
            r@ == bits as nat % 16,
    {
        BankFlags { bits: bits % 16 }
    }

    /// The flags as a byte.
    pub fn bits(&self) -> (r: u8)
        ensures
            r as nat == self@,
    {
        self.bits
    }

    /// The bank that LADR1 and LADR2 select for the low half.
    pub fn low(&self) -> (r: LowBank)
        ensures
            r == low_bank_of(self@ % 4),
    {
        match self.bits % 4 {
            0 => LowBank::Rom0,
            1 => LowBank::Rom1,
            2 => LowBank::Ram2,
            _ => LowBank::Ram3,
        }
    }

    /// The bank that HADR1 and HADR2 select for the high half.
    pub fn high(&self) -> (r: HighBank)
        ensures
            r == high_bank_of((self@ / 4) % 4),
    {
        match (self.bits / 4) % 4 {
            0 => HighBank::StdRam,
            1 => HighBank::Unused,
            2 => HighBank::Ram2,
            _ => HighBank::Ram3,
        }
    }
}

} // verus!

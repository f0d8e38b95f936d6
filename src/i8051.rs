//! A first, partial instruction table for the 8051 family, laid out on the
//! 8085's low opcode quarter.
use vstd::prelude::*;

verus! {

/// An 8-bit register operand; `Mem` is the memory byte that HL addresses.
#[derive(Debug, Clone, Copy, PartialEq, Eq, Structural)]
pub enum Register {
    A,
    B,
    C,
    D,
    E,
    H,
    L,
    /// (HL)
    Mem,
}

/// A register pair operand.
#[derive(Debug, Clone, Copy, PartialEq, Eq, Structural)]
pub enum RegisterPair {
    BC,
    DE,
    HL,
    SP,
}

/// The instructions that this table knows.
#[derive(Debug, Clone, Copy, PartialEq, Eq, Structural)]
#[allow(inconsistent_fields)]
pub enum Instruction {
    Nop,
    Hlt,
    Lxi { to: RegisterPair, value: u16 },
    Stax { ptr: RegisterPair },
    Ldax { ptr: RegisterPair },
    Inx { reg_pair: RegisterPair },
    Inr { reg: Register },
    Dcr { reg: Register },
    Mvi { reg: Register, value: u8 },
    Dad { reg_pair: RegisterPair },
    Rlc,
    Ral,
    Rrc,
    Rar,
}

/// The register that a 3-bit field names: 111 is A, 000 to 101 are B, C, D,
/// E, H, L, and 110 is the memory byte at HL.
pub open spec fn register_of(field: u8) -> Register {
    let f = field % 8;
    if f == 7 { Register::A }
    else if f == 0 { Register::B }
    else if f == 1 { Register::C }
    else if f == 2 { Register::D }
    else if f == 3 { Register::E }
    else if f == 4 { Register::H }
    else if f == 5 { Register::L }
    else { Register::Mem }
}

/// The register pair that a 2-bit field names: BC, DE, HL, SP.
pub open spec fn pair_of(field: u8) -> RegisterPair {
    let f = field % 4;
    if f == 0 { RegisterPair::BC }
    else if f == 1 { RegisterPair::DE }
    else if f == 2 { RegisterPair::HL }
    else { RegisterPair::SP }
}

/// The instruction at the start of `bytes`, or `None` where the table has no
/// rule for its first byte or the bytes end before its operands. The table
/// has no DCX: `00PP1011` decodes as `Dad` too.
pub open spec fn stream_instruction(bytes: Seq<u8>) -> Option<Instruction> {
    if bytes.len() == 0 {
        None
    } else {
        let op = bytes[0];
        let f = (op / 8) % 8;
        let p = f / 2;
        if op == 0x00 {
            Some(Instruction::Nop)
        } else if op == 0x76 {
            Some(Instruction::Hlt)
        } else if op >= 0x40 {
            None
        } else if op % 16 == 1 {
            if bytes.len() >= 3 {
                Some(Instruction::Lxi { to: pair_of(p), value: (bytes[2] as int * 256 + bytes[1] as int) as u16 })
            } else {
                None
            }
        } else if op % 16 == 2 && p < 2 {
            Some(Instruction::Stax { ptr: pair_of(p) })
        } else if op % 16 == 3 {
            Some(Instruction::Inx { reg_pair: pair_of(p) })
        } else if op % 8 == 4 {
            Some(Instruction::Inr { reg: register_of(f) })
        } else if op % 8 == 5 {
            Some(Instruction::Dcr { reg: register_of(f) })
        } else if op % 8 == 6 {
            if bytes.len() >= 2 {
                Some(Instruction::Mvi { reg: register_of(f), value: bytes[1] })
            } else {
                None
            }
        } else if op == 0x07 {
            Some(Instruction::Rlc)
        } else if op == 0x0f {
            Some(Instruction::Rrc)
        } else if op == 0x17 {
            Some(Instruction::Ral)
        } else if op == 0x1f {
            Some(Instruction::Rar)
        } else if op % 16 == 9 || op % 16 == 11 {
            Some(Instruction::Dad { reg_pair: pair_of(p) })
        } else if op % 16 == 10 && p < 2 {
            Some(Instruction::Ldax { ptr: pair_of(p) })
        } else {
            None
        }
    }
}

fn lohi(lo: u8, hi: u8) -> (r: u16)
    ensures
        r as int == hi as int * 256 + lo as int,
{
    let r: u16 = ((hi as u16) << 8) | (lo as u16);
    assert(r == (hi as u16) * 256 + (lo as u16)) by (bit_vector)
        requires
            r == ((hi as u16) << 8) | (lo as u16),
    ;
    r
}

fn register_from(field: u8) -> (r: Register)
    ensures
        r == register_of(field),
{
    match field % 8 {
        7 => Register::A,
        0 => Register::B,
        1 => Register::C,
        2 => Register::D,
        3 => Register::E,
        4 => Register::H,
        5 => Register::L,
        _ => Register::Mem,
    }
}

fn pair_from(field: u8) -> (r: RegisterPair)
    ensures
        r == pair_of(field),
{
    match field % 4 {
        0 => RegisterPair::BC,
        1 => RegisterPair::DE,
        2 => RegisterPair::HL,
        _ => RegisterPair::SP,
    }
}

/// Decodes the instruction at the start of `buf`; the table must have a rule
/// for it.
pub fn decode_instruction_from_stream(buf: &[u8]) -> (r: Instruction)
    requires
        stream_instruction(buf@) is Some,
    ensures
        stream_instruction(buf@) == Some(r),
{
    let op = buf[0];
    let f = (op / 8) % 8;
    let p = f / 2;
    if op == 0x00 {
        Instruction::Nop
    } else if op == 0x76 {
        Instruction::Hlt
    } else if op % 16 == 1 {
        Instruction::Lxi { to: pair_from(p), value: lohi(buf[1], buf[2]) }
    } else if op % 16 == 2 && p < 2 {
        Instruction::Stax { ptr: pair_from(p) }
    } else if op % 16 == 3 {
        Instruction::Inx { reg_pair: pair_from(p) }
    } else if op % 8 == 4 {
        Instruction::Inr { reg: register_from(f) }
    } else if op % 8 == 5 {
        Instruction::Dcr { reg: register_from(f) }
    } else if op % 8 == 6 {
        Instruction::Mvi { reg: register_from(f), value: buf[1] }
    } else if op == 0x07 {
        Instruction::Rlc
    } else if op == 0x0f {
        Instruction::Rrc
    } else if op == 0x17 {
        Instruction::Ral
    } else if op == 0x1f {
        Instruction::Rar
    } else if op % 16 == 9 || op % 16 == 11 {
        Instruction::Dad { reg_pair: pair_from(p) }
    } else {
        Instruction::Ldax { ptr: pair_from(p) }
    }
}

} // verus!

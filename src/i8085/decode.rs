//! The opcode table: from bytes to an instruction and its length.
use vstd::prelude::*;
use vstd::slice::slice_subrange;
use super::{ConditionCodes, Instruction, Register, RegisterPair};

verus! {

/// Joins two bytes stored low byte first into one 16-bit word.
pub open spec fn word_of(lo: u8, hi: u8) -> u16 {
    (hi as int * 256 + lo as int) as u16
}

/// The register that a 3-bit field names: 111 is A, 000 to 101 are B, C, D,
/// E, H, L, and 110 is the memory byte at HL.
pub open spec fn register_of(field: u8) -> Register {
    let f = field % 8;
    if f == 7 { Register::A }
    else if f == 0 { Register::B }
    else if f == 1 { Register::C }
    else if f == 2 { Register::D }
    else if f == 3 { Register::E }
    else if f == 4 { Register::H }
    else if f == 5 { Register::L }
    else { Register::Mem }
}

/// The register pair that a 2-bit field names outside the stack
/// instructions: BC, DE, HL, SP.
pub open spec fn pair_of(field: u8) -> RegisterPair {
    let f = field % 4;
    if f == 0 { RegisterPair::BC }
    else if f == 1 { RegisterPair::DE }
    else if f == 2 { RegisterPair::HL }
    else { RegisterPair::SP }
}

/// The register pair that a 2-bit field names in PUSH and POP: BC, DE, HL, PSW.
pub open spec fn stack_pair_of(field: u8) -> RegisterPair {
    let f = field % 4;
    if f == 0 { RegisterPair::BC }
    else if f == 1 { RegisterPair::DE }
    else if f == 2 { RegisterPair::HL }
    else { RegisterPair::PSW }
}

/// The condition that a 3-bit field names: NZ, Z, NC, C, PO, PE, P, M.
pub open spec fn condition_of(field: u8) -> ConditionCodes {
    let f = field % 8;
    if f == 0 { ConditionCodes::NZ }
    else if f == 1 { ConditionCodes::Z }
    else if f == 2 { ConditionCodes::NC }
    else if f == 3 { ConditionCodes::C }
    else if f == 4 { ConditionCodes::PO }
    else if f == 5 { ConditionCodes::PE }
    else if f == 6 { ConditionCodes::P }
    else { ConditionCodes::M }
}

/// The two high bits of an opcode.
pub open spec fn group(op: u8) -> u8 {
    op / 64
}

/// Bits 3 to 5 of an opcode: a register, a condition or a family.
pub open spec fn middle(op: u8) -> u8 {
    (op / 8) % 8
}

/// Bits 0 to 2 of an opcode.
pub open spec fn low(op: u8) -> u8 {
    op % 8
}

/// How many bytes the instruction that starts with `op` occupies.
pub open spec fn opcode_length(op: u8) -> nat {
    if op == 0x22 || op == 0x2a || op == 0x32 || op == 0x3a || op == 0xc3 || op == 0xcd
        || op == 0xdd || op == 0xfd
        || (group(op) == 0 && op % 16 == 1)
        || (group(op) == 3 && (low(op) == 2 || low(op) == 4)) {
        3
    } else if op == 0xd3 || op == 0xdb || op == 0x28 || op == 0x38
        || (group(op) == 0 && low(op) == 6)
        || (group(op) == 3 && low(op) == 6) {
        2
    } else {
        1
    }
}

/// The instruction that opcode `op` starts, `lo` and `hi` being the bytes
/// after it (read only where the instruction has operand bytes).
///
/// Rules are tried in order: the fixed bytes first, so that 0x76 is HLT and
/// not a move from memory to memory.
pub open spec fn instruction_of(op: u8, lo: u8, hi: u8) -> Instruction {
    let y = middle(op);
    let z = low(op);
    let word = word_of(lo, hi);
    if op == 0x00 { Instruction::Nop }
    else if op == 0x76 { Instruction::Hlt }
    else if op == 0x20 { Instruction::Rim }
    else if op == 0x30 { Instruction::Sim }
    else if op == 0x27 { Instruction::Daa }
    else if op == 0x37 { Instruction::Stc }
    else if op == 0x2f { Instruction::Cma }
    else if op == 0x3f { Instruction::Cmc }
    else if op == 0x07 { Instruction::Rlc }
    else if op == 0x0f { Instruction::Rrc }
    else if op == 0x17 { Instruction::Ral }
    else if op == 0x1f { Instruction::Rar }
    else if op == 0x08 { Instruction::Dsub }
    else if op == 0x10 { Instruction::Arhl }
    else if op == 0x18 { Instruction::Rdel }
    else if op == 0xd9 { Instruction::Shlx }
    else if op == 0xed { Instruction::Lhlx }
    else if op == 0xcb { Instruction::Rstv }
    else if op == 0xe3 { Instruction::Xthl }
    else if op == 0xeb { Instruction::Xchg }
    else if op == 0xe9 { Instruction::Pchl }
    else if op == 0xf9 { Instruction::Sphl }
    else if op == 0xc9 { Instruction::Ret { condition: None } }
    else if op == 0xfb { Instruction::Ei }
    else if op == 0xf3 { Instruction::Di }
    else if op == 0xdb { Instruction::In { port: lo } }
    else if op == 0xd3 { Instruction::Out { port: lo } }
    else if op == 0x28 { Instruction::Ldhi { imm: lo } }
    else if op == 0x38 { Instruction::Ldsi { imm: lo } }
    else if op == 0x22 { Instruction::Shld { addr: word } }
    else if op == 0x2a { Instruction::Lhld { addr: word } }
    else if op == 0x32 { Instruction::Sta { addr: word } }
    else if op == 0x3a { Instruction::Lda { addr: word } }
    else if op == 0xc3 { Instruction::Jmp { addr: word, condition: None } }
    else if op == 0xcd { Instruction::Call { addr: word, condition: None } }
    else if op == 0xdd { Instruction::Jnk { addr: word } }
    else if op == 0xfd { Instruction::Jk { addr: word } }
    else if group(op) == 0 {
        // 00PQ0001 .. 00PQ1011 carry a pair in bits 4 and 5; 00RRR1xx a register.
        let p = y / 2;
        if z == 1 && y % 2 == 0 { Instruction::Lxi { reg: pair_of(p), value: word } }
        else if z == 1 { Instruction::Dad { reg_pair: pair_of(p) } }
        else if z == 2 && y % 2 == 0 { Instruction::Stax { ptr: pair_of(p) } }
        else if z == 2 { Instruction::Ldax { ptr: pair_of(p) } }
        else if z == 3 && y % 2 == 0 { Instruction::Inx { reg_pair: pair_of(p) } }
        else if z == 3 { Instruction::Dcx { reg_pair: pair_of(p) } }
        else if z == 4 { Instruction::Inr { reg: register_of(y) } }
        else if z == 5 { Instruction::Dcr { reg: register_of(y) } }
        else { Instruction::Mvi { reg: register_of(y), value: lo } }
    }
    else if group(op) == 1 { Instruction::Mov { dest: register_of(y), src: register_of(z) } }
    else if group(op) == 2 {
        let reg = register_of(z);
        if y == 0 { Instruction::Add { reg } }
        else if y == 1 { Instruction::Adc { reg } }
        else if y == 2 { Instruction::Sub { reg } }
        else if y == 3 { Instruction::Sbb { reg } }
        else if y == 4 { Instruction::Ana { reg } }
        else if y == 5 { Instruction::Xra { reg } }
        else if y == 6 { Instruction::Ora { reg } }
        else { Instruction::Cmp { reg } }
    }
    else if z == 0 { Instruction::Ret { condition: Some(condition_of(y)) } }
    else if z == 2 { Instruction::Jmp { addr: word, condition: Some(condition_of(y)) } }
    else if z == 4 { Instruction::Call { addr: word, condition: Some(condition_of(y)) } }
    else if z == 6 {
        if y == 0 { Instruction::Adi { value: lo } }
        else if y == 1 { Instruction::Aci { value: lo } }
        else if y == 2 { Instruction::Sui { value: lo } }
        else if y == 3 { Instruction::Sbi { value: lo } }
        else if y == 4 { Instruction::Ani { value: lo } }
        else if y == 5 { Instruction::Xri { value: lo } }
        else if y == 6 { Instruction::Ori { value: lo } }
        else { Instruction::Cpi { value: lo } }
    }
    else if z == 1 { Instruction::Pop { reg_pair: stack_pair_of(y / 2) } }
    else if z == 5 { Instruction::Push { reg_pair: stack_pair_of(y / 2) } }
    else { Instruction::Rst { index: y } }
}

/// The byte at `i`, or zero past the end.
pub open spec fn byte_or_zero(bytes: Seq<u8>, i: int) -> u8 {
    if 0 <= i < bytes.len() { bytes[i] } else { 0 }
}

/// The instruction at the start of `bytes`.
pub open spec fn decoded(bytes: Seq<u8>) -> Instruction {
    instruction_of(bytes[0], byte_or_zero(bytes, 1), byte_or_zero(bytes, 2))
}

/// `bytes` is long enough for the instruction that it starts with.
pub open spec fn holds_instruction(bytes: Seq<u8>) -> bool {
    bytes.len() >= 1 && bytes.len() >= opcode_length(bytes[0])
}

fn lohi(lo: u8, hi: u8) -> (r: u16)
    ensures
        r == word_of(lo, hi),
{
    let r: u16 = ((hi as u16) << 8) | (lo as u16);
    assert(r == (hi as u16) * 256 + (lo as u16)) by (bit_vector)
        requires
            r == ((hi as u16) << 8) | (lo as u16),
    ;
    r
}

fn register_from(field: u8) -> (r: Register)
    ensures
        r == register_of(field),
{
    match field % 8 {
        7 => Register::A,
        0 => Register::B,
        1 => Register::C,
        2 => Register::D,
        3 => Register::E,
        4 => Register::H,
        5 => Register::L,
        _ => Register::Mem,
    }
}

fn pair_from(field: u8) -> (r: RegisterPair)
    ensures
        r == pair_of(field),
{
    match field % 4 {
        0 => RegisterPair::BC,
        1 => RegisterPair::DE,
        2 => RegisterPair::HL,
        _ => RegisterPair::SP,
    }
}

fn stack_pair_from(field: u8) -> (r: RegisterPair)
    ensures
        r == stack_pair_of(field),
{
    match field % 4 {
        0 => RegisterPair::BC,
        1 => RegisterPair::DE,
        2 => RegisterPair::HL,
        _ => RegisterPair::PSW,
    }
}

fn condition_from(field: u8) -> (r: ConditionCodes)
    ensures
        r == condition_of(field),
{
    match field % 8 {
        0 => ConditionCodes::NZ,
        1 => ConditionCodes::Z,
        2 => ConditionCodes::NC,
        3 => ConditionCodes::C,
        4 => ConditionCodes::PO,
        5 => ConditionCodes::PE,
        6 => ConditionCodes::P,
        _ => ConditionCodes::M,
    }
}

/// How many bytes the instruction that starts with `opcode` occupies: 1, 2 or 3.
pub fn instruction_length(opcode: u8) -> (r: usize)
    ensures
        r == opcode_length(opcode),
        1 <= r <= 3,
{
    match opcode {
        0x22 | 0x2a | 0x32 | 0x3a | 0xc3 | 0xcd | 0xdd | 0xfd => 3,
        0xd3 | 0xdb | 0x28 | 0x38 => 2,
        _ => {
            let z = opcode % 8;
            if opcode < 0x40 && opcode % 16 == 1 {
                3
            } else if opcode >= 0xc0 && (z == 2 || z == 4) {
                3
            } else if (opcode < 0x40 || opcode >= 0xc0) && z == 6 {
                2
            } else {
                1
            }
        },
    }
}

/// Decodes opcode `op` with the two bytes after it.
fn instruction_from(op: u8, lo: u8, hi: u8) -> (r: Instruction)
    ensures
        r == instruction_of(op, lo, hi),
{
    let word = lohi(lo, hi);
    match op {
        0x00 => Instruction::Nop,
        0x76 => Instruction::Hlt,
        0x20 => Instruction::Rim,
        0x30 => Instruction::Sim,
        0x27 => Instruction::Daa,
        0x37 => Instruction::Stc,
        0x2f => Instruction::Cma,
        0x3f => Instruction::Cmc,
        0x07 => Instruction::Rlc,
        0x0f => Instruction::Rrc,
        0x17 => Instruction::Ral,
        0x1f => Instruction::Rar,
        0x08 => Instruction::Dsub,
        0x10 => Instruction::Arhl,
        0x18 => Instruction::Rdel,
        0xd9 => Instruction::Shlx,
        0xed => Instruction::Lhlx,
        0xcb => Instruction::Rstv,
        0xe3 => Instruction::Xthl,
        0xeb => Instruction::Xchg,
        0xe9 => Instruction::Pchl,
        0xf9 => Instruction::Sphl,
        0xc9 => Instruction::Ret { condition: None },
        0xfb => Instruction::Ei,
        0xf3 => Instruction::Di,
        0xdb => Instruction::In { port: lo },
        0xd3 => Instruction::Out { port: lo },
        0x28 => Instruction::Ldhi { imm: lo },
        0x38 => Instruction::Ldsi { imm: lo },
        0x22 => Instruction::Shld { addr: word },
        0x2a => Instruction::Lhld { addr: word },
        0x32 => Instruction::Sta { addr: word },
        0x3a => Instruction::Lda { addr: word },
        0xc3 => Instruction::Jmp { addr: word, condition: None },
        0xcd => Instruction::Call { addr: word, condition: None },
        0xdd => Instruction::Jnk { addr: word },
        0xfd => Instruction::Jk { addr: word },
        _ => {
            let y = (op / 8) % 8;
            let z = op % 8;
            if op < 0x40 {
                let p = y / 2;
                let first = y % 2 == 0;
                match z {
                    1 => if first {
                        Instruction::Lxi { reg: pair_from(p), value: word }
                    } else {
                        Instruction::Dad { reg_pair: pair_from(p) }
                    },
                    2 => if first {
                        Instruction::Stax { ptr: pair_from(p) }
                    } else {
                        Instruction::Ldax { ptr: pair_from(p) }
                    },
                    3 => if first {
                        Instruction::Inx { reg_pair: pair_from(p) }
                    } else {
                        Instruction::Dcx { reg_pair: pair_from(p) }
                    },
                    4 => Instruction::Inr { reg: register_from(y) },
                    5 => Instruction::Dcr { reg: register_from(y) },
                    _ => Instruction::Mvi { reg: register_from(y), value: lo },
                }
            } else if op < 0x80 {
                Instruction::Mov { dest: register_from(y), src: register_from(z) }
            } else if op < 0xc0 {
                let reg = register_from(z);
                match y {
                    0 => Instruction::Add { reg },
                    1 => Instruction::Adc { reg },
                    2 => Instruction::Sub { reg },
                    3 => Instruction::Sbb { reg },
                    4 => Instruction::Ana { reg },
                    5 => Instruction::Xra { reg },
                    6 => Instruction::Ora { reg },
                    _ => Instruction::Cmp { reg },
                }
            } else {
                match z {
                    0 => Instruction::Ret { condition: Some(condition_from(y)) },
                    2 => Instruction::Jmp { addr: word, condition: Some(condition_from(y)) },
                    4 => Instruction::Call { addr: word, condition: Some(condition_from(y)) },
                    6 => match y {
                        0 => Instruction::Adi { value: lo },
                        1 => Instruction::Aci { value: lo },
                        2 => Instruction::Sui { value: lo },
                        3 => Instruction::Sbi { value: lo },
                        4 => Instruction::Ani { value: lo },
                        5 => Instruction::Xri { value: lo },
                        6 => Instruction::Ori { value: lo },
                        _ => Instruction::Cpi { value: lo },
                    },
                    1 => Instruction::Pop { reg_pair: stack_pair_from(y / 2) },
                    5 => Instruction::Push { reg_pair: stack_pair_from(y / 2) },
                    _ => Instruction::Rst { index: y },
                }
            }
        },
    }
}

impl Instruction {
    /// Decodes the instruction at the start of `buf`, returning how many bytes
    /// it occupies and the instruction. Bytes after it are not read.
    pub fn decode_one(buf: &[u8]) -> (r: (usize, Instruction))
        requires
            holds_instruction(buf@),
        ensures
            r.0 == opcode_length(buf@[0]),
            r.1 == decoded(buf@),
    {
        let op = buf[0];
        let lo = if buf.len() > 1 { buf[1] } else { 0 };
        let hi = if buf.len() > 2 { buf[2] } else { 0 };
        (instruction_length(op), instruction_from(op, lo, hi))
    }
}


/// Why a byte stream could not be decoded to its end.
#[derive(Debug, Clone, Copy, PartialEq, Eq, Structural)]
pub enum DecodeError {
    /// No rule matches the bytes at `offset`. Every opcode byte is assigned,
    /// so this comes only where the stream ends before the operand bytes of
    /// the instruction that `opcode` starts.
    UnknownOpcode { opcode: u8, offset: usize },
}

/// Puts `prefix` in front of a listing, or passes an error through.
pub open spec fn prepend(
    prefix: Seq<(usize, Instruction)>,
    rest: Result<Seq<(usize, Instruction)>, DecodeError>,
) -> Result<Seq<(usize, Instruction)>, DecodeError> {
    match rest {
        Ok(s) => Ok(prefix + s),
        Err(e) => Err(e),
    }
}

/// The listing of `bytes` from offset `at` on: each instruction with its
/// offset, the next one starting where the previous one ends, until the end
/// of `bytes`; or the error at the first instruction that does not fit.
pub open spec fn listing_from(bytes: Seq<u8>, at: nat) -> Result<Seq<(usize, Instruction)>, DecodeError>
    decreases bytes.len() - at,
{
    if at >= bytes.len() {
        Ok(Seq::empty())
    } else {
        let n = opcode_length(bytes[at as int]);
        if at + n > bytes.len() {
            Err(DecodeError::UnknownOpcode { opcode: bytes[at as int], offset: at as usize })
        } else {
            prepend(
                seq![(at as usize, decoded(bytes.subrange(at as int, bytes.len() as int)))],
                listing_from(bytes, at + n),
            )
        }
    }
}

/// Decodes all of `rom` from its first byte on, one instruction after
/// another, each paired with the offset at which it starts.
pub fn disassemble(rom: &[u8]) -> (r: Result<Vec<(usize, Instruction)>, DecodeError>)
    ensures
        match r {
            Ok(v) => listing_from(rom@, 0) == Ok::<Seq<(usize, Instruction)>, DecodeError>(v@),
            Err(e) => listing_from(rom@, 0) == Err::<Seq<(usize, Instruction)>, DecodeError>(e),
        },
{
    let mut out: Vec<(usize, Instruction)> = Vec::new();
    let mut i: usize = 0;
    while i < rom.len()
        invariant
            i <= rom@.len(),
            listing_from(rom@, 0) == prepend(out@, listing_from(rom@, i as nat)),
        decreases rom@.len() - i,
    {
        let n = instruction_length(rom[i]);
        if n > rom.len() - i {
            return Err(DecodeError::UnknownOpcode { opcode: rom[i], offset: i });
        }
        let rest = slice_subrange(rom, i, rom.len());
        let (count, instr) = Instruction::decode_one(rest);
        proof {
            let tail = listing_from(rom@, (i + n) as nat);
            assert(listing_from(rom@, i as nat) == prepend(seq![(i, instr)], tail));
            match tail {
                Ok(s) => assert(out@ + (seq![(i, instr)] + s) =~= out@.push((i, instr)) + s),
                Err(e) => {},
            }
        }
        out.push((i, instr));
        i = i + count;
    }
    assert(out@ + Seq::<(usize, Instruction)>::empty() =~= out@);
    Ok(out)
}

} // verus!

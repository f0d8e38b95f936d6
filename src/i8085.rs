//! The Intel 8085 instruction set: operands, instructions and their assembly text.
use vstd::prelude::*;
use crate::hex::{append_hex, hex_text};

pub mod decode;
pub mod laws;
pub mod memory;
pub mod trace;

verus! {

/// An 8-bit register operand; `Mem` is the memory byte that HL addresses.
#[derive(Debug, Clone, Copy, PartialEq, Eq, Structural)]
pub enum Register {
    A,
    B,
    C,
    D,
    E,
    H,
    L,
    /// (HL)
    Mem,
}

/// A register pair operand. `SP` and `PSW` share one encoding: `PSW` serves
/// the stack instructions, `SP` all others.
#[derive(Debug, Clone, Copy, PartialEq, Eq, Structural)]
pub enum RegisterPair {
    BC,
    DE,
    HL,
    SP,
    PSW,
}

/// The condition of a conditional jump, call or return.
#[derive(Debug, Clone, Copy, PartialEq, Eq, Structural)]
pub enum ConditionCodes {
    NZ,
    Z,
    NC,
    C,
    PO,
    PE,
    P,
    M,
}

/// One decoded instruction, with the operands that its encoding carries.
#[derive(Debug, Clone, Copy, PartialEq, Eq, Structural)]
#[allow(inconsistent_fields)]
pub enum Instruction {
    Nop,
    Hlt,

    Lxi { reg: RegisterPair, value: u16 },

    Stax { ptr: RegisterPair },
    Ldax { ptr: RegisterPair },

    Inx { reg_pair: RegisterPair },
    Dcx { reg_pair: RegisterPair },

    Inr { reg: Register },
    Dcr { reg: Register },

    Mvi { reg: Register, value: u8 },

    Dad { reg_pair: RegisterPair },

    Rlc,
    Ral,
    Rrc,
    Rar,

    Ei,
    Di,

    Add { reg: Register },
    Adc { reg: Register },
    Sub { reg: Register },
    Sbb { reg: Register },
    Ana { reg: Register },
    Ora { reg: Register },
    Xra { reg: Register },
    Cmp { reg: Register },

    Mov { src: Register, dest: Register },

    Rim,
    Sim,

    In { port: u8 },
    Out { port: u8 },

    Lda { addr: u16 },
    Sta { addr: u16 },

    Lhld { addr: u16 },
    Shld { addr: u16 },

    Daa,
    Stc,
    Cma,
    Cmc,

    Jmp { addr: u16, condition: Option<ConditionCodes> },
    Call { addr: u16, condition: Option<ConditionCodes> },
    Ret { condition: Option<ConditionCodes> },

    Adi { value: u8 },
    Aci { value: u8 },
    Sui { value: u8 },
    Sbi { value: u8 },
    Ani { value: u8 },
    Ori { value: u8 },
    Xri { value: u8 },
    Cpi { value: u8 },

    Pop { reg_pair: RegisterPair },
    Push { reg_pair: RegisterPair },

    Xthl,
    Xchg,
    Pchl,
    Sphl,

    Rst { index: u8 },

    Dsub,
    Arhl,
    Rdel,

    Ldhi { imm: u8 },
    Ldsi { imm: u8 },

    Shlx,
    Lhlx,

    Jnk { addr: u16 },
    Jk { addr: u16 },

    Rstv,
}

/// The lowercase assembly name of a register.
pub open spec fn register_name(r: Register) -> Seq<char> {
    match r {
        Register::A => "a"@,
        Register::B => "b"@,
        Register::C => "c"@,
        Register::D => "d"@,
        Register::E => "e"@,
        Register::H => "h"@,
        Register::L => "l"@,
        Register::Mem => "m"@,
    }
}

/// The lowercase assembly name of a register pair.
pub open spec fn pair_name(p: RegisterPair) -> Seq<char> {
    match p {
        RegisterPair::BC => "bc"@,
        RegisterPair::DE => "de"@,
        RegisterPair::HL => "hl"@,
        RegisterPair::SP => "sp"@,
        RegisterPair::PSW => "psw"@,
    }
}

/// The lowercase short name of a condition, as spliced onto `j`, `c` and `r`.
pub open spec fn condition_name(c: ConditionCodes) -> Seq<char> {
    match c {
        ConditionCodes::NZ => "nz"@,
        ConditionCodes::Z => "z"@,
        ConditionCodes::NC => "nc"@,
        ConditionCodes::C => "c"@,
        ConditionCodes::PO => "po"@,
        ConditionCodes::PE => "pe"@,
        ConditionCodes::P => "p"@,
        ConditionCodes::M => "m"@,
    }
}

/// A mnemonic followed by one operand.
pub open spec fn with_operand(mnemonic: Seq<char>, operand: Seq<char>) -> Seq<char> {
    mnemonic + " "@ + operand
}

/// A mnemonic followed by two operands.
pub open spec fn with_operands(mnemonic: Seq<char>, first: Seq<char>, second: Seq<char>) -> Seq<char> {
    mnemonic + " "@ + first + ", "@ + second
}

/// A mnemonic whose operand is a number in hexadecimal.
pub open spec fn with_number(mnemonic: Seq<char>, n: nat) -> Seq<char> {
    with_operand(mnemonic, hex_text(n))
}

/// The assembly text of an instruction.
pub open spec fn asm_text(i: Instruction) -> Seq<char> {
    match i {
        Instruction::Nop => "nop"@,
        Instruction::Hlt => "hlt"@,
        Instruction::Xthl => "xthl"@,
        Instruction::Xchg => "xchg"@,
        Instruction::Pchl => "pchl"@,
        Instruction::Sphl => "sphl"@,
        Instruction::Rst { index } => with_number("rst"@, index as nat),
        Instruction::Rstv => "rstv"@,
        Instruction::Dsub => "dsub"@,
        Instruction::Arhl => "arhl"@,
        Instruction::Rdel => "rdel"@,
        Instruction::Shlx => "shlx"@,
        Instruction::Lhlx => "lhlx"@,
        Instruction::Rlc => "rlc"@,
        Instruction::Ral => "ral"@,
        Instruction::Rrc => "rrc"@,
        Instruction::Rar => "rar"@,
        Instruction::Ei => "ei"@,
        Instruction::Di => "di"@,
        Instruction::Daa => "daa"@,
        Instruction::Stc => "stc"@,
        Instruction::Cma => "cma"@,
        Instruction::Cmc => "cmc"@,
        Instruction::Rim => "rim"@,
        Instruction::Sim => "sim"@,
        Instruction::Ldhi { imm } => with_number("ldhi"@, imm as nat),
        Instruction::Ldsi { imm } => with_number("ldsi"@, imm as nat),
        Instruction::Jnk { addr } => with_number("jnk"@, addr as nat),
        Instruction::Jk { addr } => with_number("jk"@, addr as nat),
        Instruction::Mov { src, dest } => with_operands("mov"@, register_name(dest), register_name(src)),
        Instruction::Adi { value } => with_number("adi"@, value as nat),
        Instruction::Aci { value } => with_number("aci"@, value as nat),
        Instruction::Sui { value } => with_number("sui"@, value as nat),
        Instruction::Sbi { value } => with_number("sbi"@, value as nat),
        Instruction::Ani { value } => with_number("ani"@, value as nat),
        Instruction::Ori { value } => with_number("ori"@, value as nat),
        Instruction::Xri { value } => with_number("xri"@, value as nat),
        Instruction::Cpi { value } => with_number("cpi"@, value as nat),
        Instruction::Add { reg } => with_operand("add"@, register_name(reg)),
        Instruction::Adc { reg } => with_operand("adc"@, register_name(reg)),
        Instruction::Sub { reg } => with_operand("sub"@, register_name(reg)),
        Instruction::Sbb { reg } => with_operand("sbb"@, register_name(reg)),
        Instruction::Ana { reg } => with_operand("ana"@, register_name(reg)),
        Instruction::Ora { reg } => with_operand("ora"@, register_name(reg)),
        Instruction::Xra { reg } => with_operand("xra"@, register_name(reg)),
        Instruction::Cmp { reg } => with_operand("cmp"@, register_name(reg)),
        Instruction::Pop { reg_pair } => with_operand("pop"@, pair_name(reg_pair)),
        Instruction::Push { reg_pair } => with_operand("push"@, pair_name(reg_pair)),
        Instruction::Stax { ptr } => with_operand("stax"@, pair_name(ptr)),
        Instruction::Ldax { ptr } => with_operand("ldax"@, pair_name(ptr)),
        Instruction::Inx { reg_pair } => with_operand("inx"@, pair_name(reg_pair)),
        Instruction::Dcx { reg_pair } => with_operand("dcx"@, pair_name(reg_pair)),
        Instruction::Inr { reg } => with_operand("inr"@, register_name(reg)),
        Instruction::Dcr { reg } => with_operand("dcr"@, register_name(reg)),
        Instruction::Lxi { reg, value } => with_operands("lxi"@, pair_name(reg), hex_text(value as nat)),
        Instruction::Mvi { reg, value } => with_operands("mvi"@, register_name(reg), hex_text(value as nat)),
        Instruction::Dad { reg_pair } => with_operand("dad"@, pair_name(reg_pair)),
        Instruction::In { port } => with_number("in"@, port as nat),
        Instruction::Out { port } => with_number("out"@, port as nat),
        Instruction::Lda { addr } => with_number("lda"@, addr as nat),
        Instruction::Sta { addr } => with_number("sta"@, addr as nat),
        Instruction::Lhld { addr } => with_number("lhld"@, addr as nat),
        Instruction::Shld { addr } => with_number("shld"@, addr as nat),
        Instruction::Jmp { addr, condition } => match condition {
            None => with_number("jmp"@, addr as nat),
            Some(c) => with_number("j"@ + condition_name(c), addr as nat),
        },
        Instruction::Call { addr, condition } => match condition {
            None => with_number("call"@, addr as nat),
            Some(c) => with_number("c"@ + condition_name(c), addr as nat),
        },
        Instruction::Ret { condition } => match condition {
            None => "ret"@,
            Some(c) => "r"@ + condition_name(c),
        },
    }
}

impl Register {
    /// The lowercase assembly name of this register.
    pub fn name(&self) -> (r: &'static str)
        ensures
            r@ == register_name(*self),
    {
        match self {
            Register::A => "a",
            Register::B => "b",
            Register::C => "c",
            Register::D => "d",
            Register::E => "e",
            Register::H => "h",
            Register::L => "l",
            Register::Mem => "m",
        }
    }
}

impl RegisterPair {
    /// The lowercase assembly name of this register pair.
    pub fn name(&self) -> (r: &'static str)
        ensures
            r@ == pair_name(*self),
    {
        match self {
            RegisterPair::BC => "bc",
            RegisterPair::DE => "de",
            RegisterPair::HL => "hl",
            RegisterPair::SP => "sp",
            RegisterPair::PSW => "psw",
        }
    }
}

impl ConditionCodes {
    /// The lowercase short name of this condition.
    pub fn name(&self) -> (r: &'static str)
        ensures
            r@ == condition_name(*self),
    {
        match self {
            ConditionCodes::NZ => "nz",
            ConditionCodes::Z => "z",
            ConditionCodes::NC => "nc",
            ConditionCodes::C => "c",
            ConditionCodes::PO => "po",
            ConditionCodes::PE => "pe",
            ConditionCodes::P => "p",
            ConditionCodes::M => "m",
        }
    }
}

fn text(mnemonic: &str) -> (r: String)
    ensures
        r@ == mnemonic@,
{
    String::from_str(mnemonic)
}

fn operand_text(mnemonic: &str, operand: &str) -> (r: String)
    ensures
        r@ == with_operand(mnemonic@, operand@),
{
    let mut s = String::from_str(mnemonic);
    s.append(" ");
    s.append(operand);
    s
}

fn operands_text(mnemonic: &str, first: &str, second: &str) -> (r: String)
    ensures
        r@ == with_operands(mnemonic@, first@, second@),
{
    let mut s = String::from_str(mnemonic);
    s.append(" ");
    s.append(first);
    s.append(", ");
    s.append(second);
    s
}

fn number_text(mnemonic: &str, n: u64) -> (r: String)
    ensures
        r@ == with_number(mnemonic@, n as nat),
{
    let mut s = String::from_str(mnemonic);
    s.append(" ");
    append_hex(&mut s, n);
    s
}

fn operand_number_text(mnemonic: &str, operand: &str, n: u64) -> (r: String)
    ensures
        r@ == with_operands(mnemonic@, operand@, hex_text(n as nat)),
{
    let mut s = String::from_str(mnemonic);
    s.append(" ");
    s.append(operand);
    s.append(", ");
    append_hex(&mut s, n);
    s
}

fn conditional_number_text(prefix: &str, c: ConditionCodes, n: u64) -> (r: String)
    ensures
        r@ == with_number(prefix@ + condition_name(c), n as nat),
{
    let mut m = String::from_str(prefix);
    m.append(c.name());
    number_text(m.as_str(), n)
}

impl Instruction {
    /// The assembly text of this instruction: lowercase mnemonic, then its
    /// operands, numbers in hexadecimal with a `0x` prefix.
    pub fn raw_asm(&self) -> (r: String)
        ensures
            r@ == asm_text(*self),
    {
        match self {
            Instruction::Nop => text("nop"),
            Instruction::Hlt => text("hlt"),
            Instruction::Xthl => text("xthl"),
            Instruction::Xchg => text("xchg"),
            Instruction::Pchl => text("pchl"),
            Instruction::Sphl => text("sphl"),
            Instruction::Rst { index } => number_text("rst", *index as u64),
            Instruction::Rstv => text("rstv"),
            Instruction::Dsub => text("dsub"),
            Instruction::Arhl => text("arhl"),
            Instruction::Rdel => text("rdel"),
            Instruction::Shlx => text("shlx"),
            Instruction::Lhlx => text("lhlx"),
            Instruction::Rlc => text("rlc"),
            Instruction::Ral => text("ral"),
            Instruction::Rrc => text("rrc"),
            Instruction::Rar => text("rar"),
            Instruction::Ei => text("ei"),
            Instruction::Di => text("di"),
            Instruction::Daa => text("daa"),
            Instruction::Stc => text("stc"),
            Instruction::Cma => text("cma"),
            Instruction::Cmc => text("cmc"),
            Instruction::Rim => text("rim"),
            Instruction::Sim => text("sim"),
            Instruction::Ldhi { imm } => number_text("ldhi", *imm as u64),
            Instruction::Ldsi { imm } => number_text("ldsi", *imm as u64),
            Instruction::Jnk { addr } => number_text("jnk", *addr as u64),
            Instruction::Jk { addr } => number_text("jk", *addr as u64),
            Instruction::Mov { src, dest } => operands_text("mov", dest.name(), src.name()),
            Instruction::Adi { value } => number_text("adi", *value as u64),
            Instruction::Aci { value } => number_text("aci", *value as u64),
            Instruction::Sui { value } => number_text("sui", *value as u64),
            Instruction::Sbi { value } => number_text("sbi", *value as u64),
            Instruction::Ani { value } => number_text("ani", *value as u64),
            Instruction::Ori { value } => number_text("ori", *value as u64),
            Instruction::Xri { value } => number_text("xri", *value as u64),
            Instruction::Cpi { value } => number_text("cpi", *value as u64),
            Instruction::Add { reg } => operand_text("add", reg.name()),
            Instruction::Adc { reg } => operand_text("adc", reg.name()),
            Instruction::Sub { reg } => operand_text("sub", reg.name()),
            Instruction::Sbb { reg } => operand_text("sbb", reg.name()),
            Instruction::Ana { reg } => operand_text("ana", reg.name()),
            Instruction::Ora { reg } => operand_text("ora", reg.name()),
            Instruction::Xra { reg } => operand_text("xra", reg.name()),
            Instruction::Cmp { reg } => operand_text("cmp", reg.name()),
            Instruction::Pop { reg_pair } => operand_text("pop", reg_pair.name()),
            Instruction::Push { reg_pair } => operand_text("push", reg_pair.name()),
            Instruction::Stax { ptr } => operand_text("stax", ptr.name()),
            Instruction::Ldax { ptr } => operand_text("ldax", ptr.name()),
            Instruction::Inx { reg_pair } => operand_text("inx", reg_pair.name()),
            Instruction::Dcx { reg_pair } => operand_text("dcx", reg_pair.name()),
            Instruction::Inr { reg } => operand_text("inr", reg.name()),
            Instruction::Dcr { reg } => operand_text("dcr", reg.name()),
            Instruction::Lxi { reg, value } => operand_number_text("lxi", reg.name(), *value as u64),
            Instruction::Mvi { reg, value } => operand_number_text("mvi", reg.name(), *value as u64),
            Instruction::Dad { reg_pair } => operand_text("dad", reg_pair.name()),
            Instruction::In { port } => number_text("in", *port as u64),
            Instruction::Out { port } => number_text("out", *port as u64),
            Instruction::Lda { addr } => number_text("lda", *addr as u64),
            Instruction::Sta { addr } => number_text("sta", *addr as u64),
            Instruction::Lhld { addr } => number_text("lhld", *addr as u64),
            Instruction::Shld { addr } => number_text("shld", *addr as u64),
            Instruction::Jmp { addr, condition } => match condition {
                None => number_text("jmp", *addr as u64),
                Some(c) => conditional_number_text("j", *c, *addr as u64),
            },
            Instruction::Call { addr, condition } => match condition {
                None => number_text("call", *addr as u64),
                Some(c) => conditional_number_text("c", *c, *addr as u64),
            },
            Instruction::Ret { condition } => match condition {
                None => text("ret"),
                Some(c) => {
                    let mut s = String::from_str("r");
                    s.append(c.name());
                    s
                },
            },
        }
    }
}

} // verus!

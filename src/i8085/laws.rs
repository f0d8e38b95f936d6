//! Properties of the opcode table and of the assembly text, proved over all
//! of their inputs.
use vstd::prelude::*;
use super::{
    asm_text, condition_name, pair_name, register_name, with_number, with_operands,
    ConditionCodes, Instruction, Register, RegisterPair,
};
use super::decode::{
    condition_of, decoded, holds_instruction, instruction_of, listing_from, opcode_length,
    pair_of, register_of, stack_pair_of, word_of, DecodeError,
};
use crate::hex::hex_text;

verus! {

/// The 3-bit field that encodes a register.
pub open spec fn register_field(r: Register) -> u8 {
    match r {
        Register::A => 7,
        Register::B => 0,
        Register::C => 1,
        Register::D => 2,
        Register::E => 3,
        Register::H => 4,
        Register::L => 5,
        Register::Mem => 6,
    }
}

/// The 3-bit field that encodes a condition.
pub open spec fn condition_field(c: ConditionCodes) -> u8 {
    match c {
        ConditionCodes::NZ => 0,
        ConditionCodes::Z => 1,
        ConditionCodes::NC => 2,
        ConditionCodes::C => 3,
        ConditionCodes::PO => 4,
        ConditionCodes::PE => 5,
        ConditionCodes::P => 6,
        ConditionCodes::M => 7,
    }
}

/// The opcodes without operand fields are one byte long, and each decodes to
/// its own instruction whatever bytes follow it.
pub proof fn fixed_opcodes(lo: u8, hi: u8)
    ensures
        opcode_length(0x00) == 1 && instruction_of(0x00, lo, hi) == Instruction::Nop,
        opcode_length(0x76) == 1 && instruction_of(0x76, lo, hi) == Instruction::Hlt,
        opcode_length(0x27) == 1 && instruction_of(0x27, lo, hi) == Instruction::Daa,
        opcode_length(0x37) == 1 && instruction_of(0x37, lo, hi) == Instruction::Stc,
        opcode_length(0x2f) == 1 && instruction_of(0x2f, lo, hi) == Instruction::Cma,
        opcode_length(0x3f) == 1 && instruction_of(0x3f, lo, hi) == Instruction::Cmc,
        opcode_length(0x20) == 1 && instruction_of(0x20, lo, hi) == Instruction::Rim,
        opcode_length(0x30) == 1 && instruction_of(0x30, lo, hi) == Instruction::Sim,
        opcode_length(0x08) == 1 && instruction_of(0x08, lo, hi) == Instruction::Dsub,
        opcode_length(0x10) == 1 && instruction_of(0x10, lo, hi) == Instruction::Arhl,
        opcode_length(0x18) == 1 && instruction_of(0x18, lo, hi) == Instruction::Rdel,
        opcode_length(0xd9) == 1 && instruction_of(0xd9, lo, hi) == Instruction::Shlx,
        opcode_length(0xed) == 1 && instruction_of(0xed, lo, hi) == Instruction::Lhlx,
        opcode_length(0xcb) == 1 && instruction_of(0xcb, lo, hi) == Instruction::Rstv,
{
}

/// `01DDDSSS` is a one-byte move from register SSS to register DDD, written
/// `mov dest, src`, except for memory to memory, which is HLT.
pub proof fn move_encoding(dest: Register, src: Register, lo: u8, hi: u8)
    ensures
        ({
            let op = (0x40 + 8 * register_field(dest) + register_field(src)) as u8;
            &&& opcode_length(op) == 1
            &&& if dest == Register::Mem && src == Register::Mem {
                instruction_of(op, lo, hi) == Instruction::Hlt
            } else {
                &&& instruction_of(op, lo, hi) == (Instruction::Mov { dest, src })
                &&& asm_text(instruction_of(op, lo, hi))
                    == with_operands("mov"@, register_name(dest), register_name(src))
            }
        }),
{
}

/// For each condition field CCC, `11CCC010` is a three-byte conditional jump,
/// `11CCC100` a three-byte conditional call and `11CCC000` a one-byte
/// conditional return, written `j<cond> addr`, `c<cond> addr` and `r<cond>`.
pub proof fn conditional_branches(c: ConditionCodes, lo: u8, hi: u8)
    ensures
        ({
            let f = condition_field(c);
            let jump = (0xc2 + 8 * f) as u8;
            let call = (0xc4 + 8 * f) as u8;
            let ret = (0xc0 + 8 * f) as u8;
            let addr = word_of(lo, hi);
            &&& opcode_length(jump) == 3
            &&& instruction_of(jump, lo, hi) == (Instruction::Jmp { addr, condition: Some(c) })
            &&& asm_text(instruction_of(jump, lo, hi)) == with_number("j"@ + condition_name(c), addr as nat)
            &&& opcode_length(call) == 3
            &&& instruction_of(call, lo, hi) == (Instruction::Call { addr, condition: Some(c) })
            &&& asm_text(instruction_of(call, lo, hi)) == with_number("c"@ + condition_name(c), addr as nat)
            &&& opcode_length(ret) == 1
            &&& instruction_of(ret, lo, hi) == (Instruction::Ret { condition: Some(c) })
            &&& asm_text(instruction_of(ret, lo, hi)) == "r"@ + condition_name(c)
        }),
{
    match c {
        ConditionCodes::NZ => {},
        ConditionCodes::Z => {},
        ConditionCodes::NC => {},
        ConditionCodes::C => {},
        ConditionCodes::PO => {},
        ConditionCodes::PE => {},
        ConditionCodes::P => {},
        ConditionCodes::M => {},
    }
}

/// The pair field `00PP....` names BC, DE, HL, SP for LXI, INX, DCX and DAD
/// (and BC, DE for STAX and LDAX), while in `11PP....` it names BC, DE, HL,
/// PSW for POP and PUSH: field 11 is SP in the first table and PSW in the
/// second.
pub proof fn pair_fields(f: u8, lo: u8, hi: u8)
    requires
        f < 4,
    ensures
        instruction_of((0x01 + 16 * f) as u8, lo, hi) == (Instruction::Lxi { reg: pair_of(f), value: word_of(lo, hi) }),
        instruction_of((0x03 + 16 * f) as u8, lo, hi) == (Instruction::Inx { reg_pair: pair_of(f) }),
        instruction_of((0x0b + 16 * f) as u8, lo, hi) == (Instruction::Dcx { reg_pair: pair_of(f) }),
        instruction_of((0x09 + 16 * f) as u8, lo, hi) == (Instruction::Dad { reg_pair: pair_of(f) }),
        f < 2 ==> instruction_of((0x02 + 16 * f) as u8, lo, hi) == (Instruction::Stax { ptr: pair_of(f) }),
        f < 2 ==> instruction_of((0x0a + 16 * f) as u8, lo, hi) == (Instruction::Ldax { ptr: pair_of(f) }),
        instruction_of((0xc1 + 16 * f) as u8, lo, hi) == (Instruction::Pop { reg_pair: stack_pair_of(f) }),
        instruction_of((0xc5 + 16 * f) as u8, lo, hi) == (Instruction::Push { reg_pair: stack_pair_of(f) }),
        f < 3 ==> pair_of(f) == stack_pair_of(f),
        f == 3 ==> pair_of(f) == RegisterPair::SP && stack_pair_of(f) == RegisterPair::PSW,
{
    if f == 0 {
        assert(instruction_of(0x01, lo, hi) == (Instruction::Lxi { reg: pair_of(0), value: word_of(lo, hi) }));
        assert(instruction_of(0x03, lo, hi) == (Instruction::Inx { reg_pair: pair_of(0) }));
        assert(instruction_of(0x0b, lo, hi) == (Instruction::Dcx { reg_pair: pair_of(0) }));
        assert(instruction_of(0x09, lo, hi) == (Instruction::Dad { reg_pair: pair_of(0) }));
        assert(instruction_of(0x02, lo, hi) == (Instruction::Stax { ptr: pair_of(0) }));
        assert(instruction_of(0x0a, lo, hi) == (Instruction::Ldax { ptr: pair_of(0) }));
        assert(instruction_of(0xc1, lo, hi) == (Instruction::Pop { reg_pair: stack_pair_of(0) }));
        assert(instruction_of(0xc5, lo, hi) == (Instruction::Push { reg_pair: stack_pair_of(0) }));
    } else if f == 1 {
        assert(instruction_of(0x11, lo, hi) == (Instruction::Lxi { reg: pair_of(1), value: word_of(lo, hi) }));
        assert(instruction_of(0x13, lo, hi) == (Instruction::Inx { reg_pair: pair_of(1) }));
        assert(instruction_of(0x1b, lo, hi) == (Instruction::Dcx { reg_pair: pair_of(1) }));
        assert(instruction_of(0x19, lo, hi) == (Instruction::Dad { reg_pair: pair_of(1) }));
        assert(instruction_of(0x12, lo, hi) == (Instruction::Stax { ptr: pair_of(1) }));
        assert(instruction_of(0x1a, lo, hi) == (Instruction::Ldax { ptr: pair_of(1) }));
        assert(instruction_of(0xd1, lo, hi) == (Instruction::Pop { reg_pair: stack_pair_of(1) }));
        assert(instruction_of(0xd5, lo, hi) == (Instruction::Push { reg_pair: stack_pair_of(1) }));
    } else if f == 2 {
        assert(instruction_of(0x21, lo, hi) == (Instruction::Lxi { reg: pair_of(2), value: word_of(lo, hi) }));
        assert(instruction_of(0x23, lo, hi) == (Instruction::Inx { reg_pair: pair_of(2) }));
        assert(instruction_of(0x2b, lo, hi) == (Instruction::Dcx { reg_pair: pair_of(2) }));
        assert(instruction_of(0x29, lo, hi) == (Instruction::Dad { reg_pair: pair_of(2) }));
        assert(instruction_of(0xe1, lo, hi) == (Instruction::Pop { reg_pair: stack_pair_of(2) }));
        assert(instruction_of(0xe5, lo, hi) == (Instruction::Push { reg_pair: stack_pair_of(2) }));
    } else {
        assert(instruction_of(0x31, lo, hi) == (Instruction::Lxi { reg: pair_of(3), value: word_of(lo, hi) }));
        assert(instruction_of(0x33, lo, hi) == (Instruction::Inx { reg_pair: pair_of(3) }));
        assert(instruction_of(0x3b, lo, hi) == (Instruction::Dcx { reg_pair: pair_of(3) }));
        assert(instruction_of(0x39, lo, hi) == (Instruction::Dad { reg_pair: pair_of(3) }));
        assert(instruction_of(0xf1, lo, hi) == (Instruction::Pop { reg_pair: stack_pair_of(3) }));
        assert(instruction_of(0xf5, lo, hi) == (Instruction::Push { reg_pair: stack_pair_of(3) }));
    }
}

/// Every opcode byte starts an instruction of one to three bytes: decoding
/// fails only where the stream ends before the operand bytes of its last
/// instruction.
pub proof fn every_opcode_assigned(bytes: Seq<u8>, at: nat)
    requires
        bytes.len() <= usize::MAX,
    ensures
        forall|op: u8| 1 <= #[trigger] opcode_length(op) <= 3,
        listing_from(bytes, at) matches Err(DecodeError::UnknownOpcode { opcode, offset })
            ==> at <= offset < bytes.len() && bytes[offset as int] == opcode
                && offset + opcode_length(opcode) > bytes.len(),
    decreases bytes.len() - at,
{
    if at < bytes.len() {
        let n = opcode_length(bytes[at as int]);
        if at + n <= bytes.len() {
            every_opcode_assigned(bytes, at + n);
        }
    }
}

/// The instruction decoded at the start of a stream depends only on the
/// bytes that it occupies, not on what follows them.
pub proof fn trailing_bytes_ignored(a: Seq<u8>, b: Seq<u8>)
    requires
        holds_instruction(a),
        b.len() >= opcode_length(a[0]),
        a.subrange(0, opcode_length(a[0]) as int) == b.subrange(0, opcode_length(a[0]) as int),
    ensures
        holds_instruction(b),
        decoded(a) == decoded(b),
{
    let n = opcode_length(a[0]) as int;
    assert(a[0] == a.subrange(0, n)[0]);
    assert(b[0] == b.subrange(0, n)[0]);
    if n >= 2 {
        assert(a[1] == a.subrange(0, n)[1]);
        assert(b[1] == b.subrange(0, n)[1]);
    }
    if n >= 3 {
        assert(a[2] == a.subrange(0, n)[2]);
        assert(b[2] == b.subrange(0, n)[2]);
    }
}

/// The assembly text is a function of the instruction alone: the same
/// instruction is always written the same way.
pub proof fn rendering_is_pure(i: Instruction, j: Instruction)
    requires
        i == j,
    ensures
        asm_text(i) == asm_text(j),
{
}

/// How many operand bytes follow the opcode of an instruction of this shape:
/// two for a 16-bit address or value, one for an 8-bit value or port, none
/// otherwise.
pub open spec fn operand_bytes(i: Instruction) -> nat {
    match i {
        Instruction::Lxi { .. } | Instruction::Lda { .. } | Instruction::Sta { .. }
        | Instruction::Lhld { .. } | Instruction::Shld { .. } | Instruction::Jmp { .. }
        | Instruction::Call { .. } | Instruction::Jnk { .. } | Instruction::Jk { .. } => 2,
        Instruction::Mvi { .. } | Instruction::In { .. } | Instruction::Out { .. }
        | Instruction::Adi { .. } | Instruction::Aci { .. } | Instruction::Sui { .. }
        | Instruction::Sbi { .. } | Instruction::Ani { .. } | Instruction::Ori { .. }
        | Instruction::Xri { .. } | Instruction::Cpi { .. } | Instruction::Ldhi { .. }
        | Instruction::Ldsi { .. } => 1,
        _ => 0,
    }
}

/// The length of an instruction is its opcode byte plus the operand bytes
/// that its decoded form carries, and no decoded move goes from memory to
/// memory.
pub proof fn length_matches_operands(op: u8, lo: u8, hi: u8)
    ensures
        opcode_length(op) == 1 + operand_bytes(instruction_of(op, lo, hi)),
        instruction_of(op, lo, hi) != (Instruction::Mov { dest: Register::Mem, src: Register::Mem }),
{
}

} // verus!

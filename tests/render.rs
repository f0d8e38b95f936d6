use ripntear::i8085::{ConditionCodes, Instruction, Register, RegisterPair};

#[test]
fn rendering_twice_gives_the_same_text() {
    let instrs = [
        Instruction::Lxi { reg: RegisterPair::SP, value: 0xfffe },
        Instruction::Ret { condition: Some(ConditionCodes::PE) },
        Instruction::Mov { src: Register::Mem, dest: Register::A },
    ];
    for i in instrs {
        assert_eq!(i.raw_asm(), i.raw_asm());
    }
}

#[test]
fn hex_operands() {
    assert_eq!(Instruction::Lda { addr: 0 }.raw_asm(), "lda 0x0");
    assert_eq!(Instruction::Sta { addr: 0xffff }.raw_asm(), "sta 0xffff");
    assert_eq!(Instruction::Shld { addr: 0x00ab }.raw_asm(), "shld 0xab");
    assert_eq!(Instruction::Lhld { addr: 0x1000 }.raw_asm(), "lhld 0x1000");
    assert_eq!(Instruction::Out { port: 0x0f }.raw_asm(), "out 0xf");
    assert_eq!(Instruction::Cpi { value: 0x80 }.raw_asm(), "cpi 0x80");
    assert_eq!(Instruction::Ldhi { imm: 1 }.raw_asm(), "ldhi 0x1");
}

#[test]
fn operand_order_and_names() {
    assert_eq!(Instruction::Mov { src: Register::B, dest: Register::Mem }.raw_asm(), "mov m, b");
    assert_eq!(Instruction::Mvi { reg: Register::Mem, value: 0 }.raw_asm(), "mvi m, 0x0");
    assert_eq!(Instruction::Push { reg_pair: RegisterPair::BC }.raw_asm(), "push bc");
    assert_eq!(Instruction::Dcx { reg_pair: RegisterPair::SP }.raw_asm(), "dcx sp");
    assert_eq!(Instruction::Ldax { ptr: RegisterPair::DE }.raw_asm(), "ldax de");
    assert_eq!(Instruction::Inr { reg: Register::L }.raw_asm(), "inr l");
}

#[test]
fn unconditional_branches() {
    assert_eq!(Instruction::Call { addr: 0x38, condition: None }.raw_asm(), "call 0x38");
    assert_eq!(Instruction::Ret { condition: None }.raw_asm(), "ret");
    assert_eq!(Instruction::Jmp { addr: 0xbeef, condition: Some(ConditionCodes::NZ) }.raw_asm(), "jnz 0xbeef");
}

#[test]
fn plain_mnemonics() {
    let cases = [
        (Instruction::Nop, "nop"),
        (Instruction::Xthl, "xthl"),
        (Instruction::Xchg, "xchg"),
        (Instruction::Pchl, "pchl"),
        (Instruction::Sphl, "sphl"),
        (Instruction::Rstv, "rstv"),
        (Instruction::Rlc, "rlc"),
        (Instruction::Rar, "rar"),
        (Instruction::Ei, "ei"),
        (Instruction::Di, "di"),
    ];
    for (i, text) in cases {
        assert_eq!(i.raw_asm(), text);
    }
}

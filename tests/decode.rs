use ripntear::i8085::decode::{disassemble, instruction_length, DecodeError};
use ripntear::i8085::{ConditionCodes, Instruction, Register, RegisterPair};

fn decode(bytes: &[u8]) -> (usize, Instruction) {
    Instruction::decode_one(bytes)
}

const REGISTERS: [(Register, u8, &str); 8] = [
    (Register::A, 7, "a"),
    (Register::B, 0, "b"),
    (Register::C, 1, "c"),
    (Register::D, 2, "d"),
    (Register::E, 3, "e"),
    (Register::H, 4, "h"),
    (Register::L, 5, "l"),
    (Register::Mem, 6, "m"),
];

const CONDITIONS: [(ConditionCodes, u8, &str); 8] = [
    (ConditionCodes::NZ, 0, "nz"),
    (ConditionCodes::Z, 1, "z"),
    (ConditionCodes::NC, 2, "nc"),
    (ConditionCodes::C, 3, "c"),
    (ConditionCodes::PO, 4, "po"),
    (ConditionCodes::PE, 5, "pe"),
    (ConditionCodes::P, 6, "p"),
    (ConditionCodes::M, 7, "m"),
];

#[test]
fn fixed_single_byte_opcodes() {
    let cases = [
        (0x00u8, Instruction::Nop),
        (0x76, Instruction::Hlt),
        (0x27, Instruction::Daa),
        (0x37, Instruction::Stc),
        (0x2f, Instruction::Cma),
        (0x3f, Instruction::Cmc),
        (0x20, Instruction::Rim),
        (0x30, Instruction::Sim),
        (0x08, Instruction::Dsub),
        (0x10, Instruction::Arhl),
        (0x18, Instruction::Rdel),
        (0xd9, Instruction::Shlx),
        (0xed, Instruction::Lhlx),
        (0xcb, Instruction::Rstv),
    ];
    for (op, expected) in cases {
        assert_eq!(decode(&[op, 0xaa, 0xbb]), (1, expected));
        assert_eq!(decode(&[op]), (1, expected));
    }
}

#[test]
fn every_move_combination() {
    for (dest, dcode, dname) in REGISTERS {
        for (src, scode, sname) in REGISTERS {
            let op = 0x40 | (dcode << 3) | scode;
            let (len, instr) = decode(&[op]);
            assert_eq!(len, 1);
            if dest == Register::Mem && src == Register::Mem {
                assert_eq!(instr, Instruction::Hlt);
                assert_eq!(instr.raw_asm(), "hlt");
            } else {
                assert_eq!(instr, Instruction::Mov { src, dest });
                assert_eq!(instr.raw_asm(), format!("mov {}, {}", dname, sname));
            }
        }
    }
}

#[test]
fn every_conditional_branch() {
    for (cond, code, name) in CONDITIONS {
        let (len, jump) = decode(&[0xc2 | (code << 3), 0x34, 0x12]);
        assert_eq!(len, 3);
        assert_eq!(jump, Instruction::Jmp { addr: 0x1234, condition: Some(cond) });
        assert_eq!(jump.raw_asm(), format!("j{} 0x1234", name));

        let (len, call) = decode(&[0xc4 | (code << 3), 0x00, 0x80]);
        assert_eq!(len, 3);
        assert_eq!(call, Instruction::Call { addr: 0x8000, condition: Some(cond) });
        assert_eq!(call.raw_asm(), format!("c{} 0x8000", name));

        let (len, ret) = decode(&[0xc0 | (code << 3)]);
        assert_eq!(len, 1);
        assert_eq!(ret, Instruction::Ret { condition: Some(cond) });
        assert_eq!(ret.raw_asm(), format!("r{}", name));
    }
}

#[test]
fn register_pair_fields() {
    let pairs = [RegisterPair::BC, RegisterPair::DE, RegisterPair::HL, RegisterPair::SP];
    for (f, pair) in pairs.into_iter().enumerate() {
        let f = (f as u8) << 4;
        assert_eq!(decode(&[0x01 | f, 0x01, 0x02]), (3, Instruction::Lxi { reg: pair, value: 0x0201 }));
        assert_eq!(decode(&[0x03 | f]), (1, Instruction::Inx { reg_pair: pair }));
        assert_eq!(decode(&[0x0b | f]), (1, Instruction::Dcx { reg_pair: pair }));
        assert_eq!(decode(&[0x09 | f]), (1, Instruction::Dad { reg_pair: pair }));
    }
    assert_eq!(decode(&[0x02]), (1, Instruction::Stax { ptr: RegisterPair::BC }));
    assert_eq!(decode(&[0x12]), (1, Instruction::Stax { ptr: RegisterPair::DE }));
    assert_eq!(decode(&[0x0a]), (1, Instruction::Ldax { ptr: RegisterPair::BC }));
    assert_eq!(decode(&[0x1a]), (1, Instruction::Ldax { ptr: RegisterPair::DE }));
}

#[test]
fn pop_and_push_use_psw() {
    let pairs = [RegisterPair::BC, RegisterPair::DE, RegisterPair::HL, RegisterPair::PSW];
    for (f, pair) in pairs.into_iter().enumerate() {
        let f = (f as u8) << 4;
        assert_eq!(decode(&[0xc1 | f]), (1, Instruction::Pop { reg_pair: pair }));
        assert_eq!(decode(&[0xc5 | f]), (1, Instruction::Push { reg_pair: pair }));
    }
    let (_, pop) = decode(&[0xf1]);
    assert_eq!(pop, Instruction::Pop { reg_pair: RegisterPair::PSW });
    assert_ne!(pop, Instruction::Pop { reg_pair: RegisterPair::SP });
    assert_eq!(pop.raw_asm(), "pop psw");
    assert_eq!(decode(&[0xf5]).1.raw_asm(), "push psw");
}

#[test]
fn lxi_sixteen_bit_operand() {
    let (len, instr) = decode(&[0x21, 0x34, 0x12]);
    assert_eq!(len, 3);
    assert_eq!(instr, Instruction::Lxi { reg: RegisterPair::HL, value: 0x1234 });
    assert_eq!(instr.raw_asm(), "lxi hl, 0x1234");
}

#[test]
fn mvi_eight_bit_operand() {
    let (len, instr) = decode(&[0x3e, 0xff]);
    assert_eq!(len, 2);
    assert_eq!(instr, Instruction::Mvi { reg: Register::A, value: 0xff });
    assert_eq!(instr.raw_asm(), "mvi a, 0xff");
}

#[test]
fn unconditional_jump() {
    let (len, instr) = decode(&[0xc3, 0x00, 0x01]);
    assert_eq!(len, 3);
    assert_eq!(instr, Instruction::Jmp { addr: 0x0100, condition: None });
    assert_eq!(instr.raw_asm(), "jmp 0x100");
}

#[test]
fn every_opcode_decodes() {
    for op in 0..=255u8 {
        let len = instruction_length(op);
        assert!((1..=3).contains(&len));
        let (n, _) = decode(&[op, 0, 0]);
        assert_eq!(n, len);
    }
}

#[test]
fn truncated_stream_is_an_error() {
    assert_eq!(
        disassemble(&[0x00, 0xc3, 0x00]),
        Err(DecodeError::UnknownOpcode { opcode: 0xc3, offset: 1 })
    );
    assert_eq!(
        disassemble(&[0x3e]),
        Err(DecodeError::UnknownOpcode { opcode: 0x3e, offset: 0 })
    );
}

#[test]
fn disassemble_walks_the_stream() {
    let rom = [0x21, 0x34, 0x12, 0x3e, 0xff, 0x76, 0xc3, 0x00, 0x01];
    let listing = disassemble(&rom).unwrap();
    assert_eq!(
        listing,
        vec![
            (0, Instruction::Lxi { reg: RegisterPair::HL, value: 0x1234 }),
            (3, Instruction::Mvi { reg: Register::A, value: 0xff }),
            (5, Instruction::Hlt),
            (6, Instruction::Jmp { addr: 0x0100, condition: None }),
        ]
    );
    assert_eq!(disassemble(&[]), Ok(vec![]));
}

#[test]
fn trailing_bytes_are_not_read() {
    assert_eq!(decode(&[0x3e, 0x10]), decode(&[0x3e, 0x10, 0x99, 0x98]));
    assert_eq!(decode(&[0xdb, 0x7f, 0x12]), (2, Instruction::In { port: 0x7f }));
}

#[test]
fn undocumented_opcodes() {
    assert_eq!(decode(&[0x28, 0x10]), (2, Instruction::Ldhi { imm: 0x10 }));
    assert_eq!(decode(&[0x38, 0x20]), (2, Instruction::Ldsi { imm: 0x20 }));
    assert_eq!(decode(&[0xdd, 0xcd, 0xab]), (3, Instruction::Jnk { addr: 0xabcd }));
    assert_eq!(decode(&[0xfd, 0x00, 0x00]), (3, Instruction::Jk { addr: 0 }));
}

#[test]
fn alu_families() {
    let regs = ["add", "adc", "sub", "sbb", "ana", "xra", "ora", "cmp"];
    for (y, name) in regs.iter().enumerate() {
        let (_, instr) = decode(&[0x80 | ((y as u8) << 3) | 2]);
        assert_eq!(instr.raw_asm(), format!("{} d", name));
    }
    let imms = ["adi", "aci", "sui", "sbi", "ani", "xri", "ori", "cpi"];
    for (y, name) in imms.iter().enumerate() {
        let (len, instr) = decode(&[0xc6 | ((y as u8) << 3), 0x0a]);
        assert_eq!(len, 2);
        assert_eq!(instr.raw_asm(), format!("{} 0xa", name));
    }
    assert_eq!(decode(&[0xa8]).1, Instruction::Xra { reg: Register::B });
    assert_eq!(decode(&[0xb0]).1, Instruction::Ora { reg: Register::B });
}

#[test]
fn rst_vectors() {
    for index in 0..8u8 {
        assert_eq!(decode(&[0xc7 | (index << 3)]), (1, Instruction::Rst { index }));
    }
    assert_eq!(Instruction::Rst { index: 7 }.raw_asm(), "rst 0x7");
}

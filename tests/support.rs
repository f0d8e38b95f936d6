use ripntear::i8051::{decode_instruction_from_stream, Instruction, Register, RegisterPair};
use ripntear::i8085::memory::{BankFlags, HighBank, LowBank};
use ripntear::i8085::Instruction as Instruction8085;
use ripntear::{AddressWidth, Print, Printer};

#[test]
fn stream_table_decodes() {
    assert_eq!(decode_instruction_from_stream(&[0x00]), Instruction::Nop);
    assert_eq!(decode_instruction_from_stream(&[0x76]), Instruction::Hlt);
    assert_eq!(
        decode_instruction_from_stream(&[0x31, 0xff, 0x7f]),
        Instruction::Lxi { to: RegisterPair::SP, value: 0x7fff }
    );
    assert_eq!(decode_instruction_from_stream(&[0x12]), Instruction::Stax { ptr: RegisterPair::DE });
    assert_eq!(decode_instruction_from_stream(&[0x0a]), Instruction::Ldax { ptr: RegisterPair::BC });
    assert_eq!(decode_instruction_from_stream(&[0x23]), Instruction::Inx { reg_pair: RegisterPair::HL });
    assert_eq!(decode_instruction_from_stream(&[0x3c]), Instruction::Inr { reg: Register::A });
    assert_eq!(decode_instruction_from_stream(&[0x35]), Instruction::Dcr { reg: Register::Mem });
    assert_eq!(
        decode_instruction_from_stream(&[0x06, 0x42]),
        Instruction::Mvi { reg: Register::B, value: 0x42 }
    );
    assert_eq!(decode_instruction_from_stream(&[0x19]), Instruction::Dad { reg_pair: RegisterPair::DE });
    assert_eq!(decode_instruction_from_stream(&[0x2b]), Instruction::Dad { reg_pair: RegisterPair::HL });
    assert_eq!(decode_instruction_from_stream(&[0x07]), Instruction::Rlc);
    assert_eq!(decode_instruction_from_stream(&[0x1f]), Instruction::Rar);
}

#[test]
fn bank_flags_select_banks() {
    let f = BankFlags::from_bits_truncate(BankFlags::LADR2 | BankFlags::HADR1);
    assert_eq!(f.bits(), 0b0110);
    assert_eq!(f.low(), LowBank::Ram2);
    assert_eq!(f.high(), HighBank::Unused);
    let all = BankFlags::from_bits_truncate(0xff);
    assert_eq!(all.bits(), 0x0f);
    assert_eq!(all.low(), LowBank::Ram3);
    assert_eq!(all.high(), HighBank::Ram3);
    let none = BankFlags::from_bits_truncate(0);
    assert_eq!(none.low(), LowBank::Rom0);
    assert_eq!(none.high(), HighBank::StdRam);
}

#[test]
fn printer_lists_addresses_and_text() {
    let entries = vec![
        (0usize, Instruction8085::Nop),
        (0x1a, Instruction8085::Jmp { addr: 0x100, condition: None }),
    ];
    let p = Printer::new(entries.clone(), AddressWidth::Bits16);
    assert!(!p.is_colored());
    assert_eq!(p.print(), "0000    nop\n001a    jmp 0x100\n");
    let p = p.with_color();
    assert!(p.is_colored());
    assert_eq!(p.print(), "0000    nop\n001a    jmp 0x100\n");
    let wide = Printer::new(entries, AddressWidth::Bits32);
    assert_eq!(wide.print(), "00000000    nop\n0000001a    jmp 0x100\n");
    let full = Printer::new(vec![(0x12345usize, Instruction8085::Hlt)], AddressWidth::Bits16);
    assert_eq!(full.print(), "12345    hlt\n");
    let long = Printer::new(vec![(1usize, Instruction8085::Ei)], AddressWidth::Bits64);
    assert_eq!(long.print(), "0000000000000001    ei\n");
    let empty: Printer<Instruction8085> = Printer::new(vec![], AddressWidth::Bits16);
    assert_eq!(empty.print(), "");
}

#[test]
fn print_is_the_assembly_text() {
    let i = Instruction8085::Call { addr: 0xabc, condition: None };
    assert_eq!(Print::print(&i), i.raw_asm());
}

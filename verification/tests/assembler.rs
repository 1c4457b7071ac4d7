use tinyvm::assembler::assembler;
use tinyvm::assembler::first_pass;
use tinyvm::assembler::instr_size;
use tinyvm::assembler::is_reg;
use tinyvm::assembler::parse_imm;
use tinyvm::assembler::parse_reg;
use tinyvm::assembler::AsmErrorKind;
use tinyvm::assembler::SymbolTable;
use tinyvm::text::tokenize;
use tinyvm::text::trim;

#[test]
fn scenario_sub_program_bytes() {
    let bytes = assembler("mov a,5\nmov b,3\nsub a,b\nhlt").unwrap();
    assert_eq!(bytes, vec![0x01, 0, 5, 0x01, 1, 3, 0x03, 0, 1, 0xFF]);
}

#[test]
fn assembly_is_idempotent() {
    let src = "start:\nmov a,1\nadd a,2\njnz start\nhlt";
    let first = assembler(src).unwrap();
    let second = assembler(src).unwrap();
    assert_eq!(first, second);
}

#[test]
fn empty_source_assembles_to_nothing() {
    assert_eq!(assembler("").unwrap(), Vec::<u8>::new());
}

#[test]
fn comments_blanks_and_spacing_are_ignored() {
    let src = "; a comment\n\n   mov a , 1  \n\tmov\tb,\t2\nhlt\n";
    let bytes = assembler(src).unwrap();
    assert_eq!(bytes, vec![0x01, 0, 1, 0x01, 1, 2, 0xFF]);
}

#[test]
fn carriage_returns_are_trimmed() {
    let bytes = assembler("mov a,1\r\nhlt\r\n").unwrap();
    assert_eq!(bytes, vec![0x01, 0, 1, 0xFF]);
}

#[test]
fn register_register_and_immediate_forms_get_distinct_opcodes() {
    let bytes = assembler("mov a,b\nmov a,7\nadd c,d\nadd c,9\nsub d,a\nsub d,200\nhlt").unwrap();
    assert_eq!(
        bytes,
        vec![0x08, 0, 1, 0x01, 0, 7, 0x02, 2, 3, 0x0A, 2, 9, 0x03, 3, 0, 0x0B, 3, 200, 0xFF]
    );
}

#[test]
fn cmp_dispatches_on_digits() {
    let bytes = assembler("cmp a,b\ncmp a,10\nhlt").unwrap();
    assert_eq!(bytes, vec![0x09, 0, 1, 0x07, 0, 10, 0xFF]);
}

#[test]
fn mul_div_are_register_register() {
    let bytes = assembler("mul a,b\ndiv c,d\nhlt").unwrap();
    assert_eq!(bytes, vec![0x0C, 0, 1, 0x0D, 2, 3, 0xFF]);
}

#[test]
fn forward_label_resolves_little_endian() {
    // the jump target sits after the jump itself: pass 1 must have filled
    // the symbol table before pass 2 emits the address
    let bytes = assembler("jmp end\nmov a,1\nend:\nhlt").unwrap();
    assert_eq!(bytes, vec![0x04, 6, 0, 0x01, 0, 1, 0xFF]);
}

#[test]
fn far_label_uses_both_address_bytes() {
    let mut src = String::from("jmp end\n");
    for _ in 0..90 {
        src.push_str("mov a,1\n");
    }
    src.push_str("end:\nhlt");
    let bytes = assembler(&src).unwrap();
    // 3 bytes of jmp plus 90 three-byte movs: the label lands at 273 = 0x0111
    assert_eq!(bytes[0], 0x04);
    assert_eq!(bytes[1], 0x11);
    assert_eq!(bytes[2], 0x01);
    assert_eq!(bytes[273], 0xFF);
}

#[test]
fn labels_are_case_insensitive() {
    let bytes = assembler("jmp End\nEND:\nhlt").unwrap();
    assert_eq!(bytes, vec![0x04, 3, 0, 0xFF]);
}

#[test]
fn mnemonics_are_case_insensitive() {
    let bytes = assembler("MOV A,5\nHlt").unwrap();
    assert_eq!(bytes, vec![0x01, 0, 5, 0xFF]);
}

#[test]
fn duplicate_label_keeps_the_last_address() {
    let bytes = assembler("x:\nhlt\nx:\nhlt\njmp x").unwrap();
    assert_eq!(bytes, vec![0xFF, 0xFF, 0x04, 1, 0]);
}

#[test]
fn unknown_mnemonic_reports_its_line() {
    let err = assembler("mov a,1\nfoo b\nhlt").unwrap_err();
    assert_eq!(err.kind, AsmErrorKind::UnknownMnemonic);
    assert_eq!(err.line, 2);
}

#[test]
fn unknown_register_reports_its_line() {
    let err = assembler("hlt\nmov x,5").unwrap_err();
    assert_eq!(err.kind, AsmErrorKind::UnknownRegister);
    assert_eq!(err.line, 2);
}

#[test]
fn oversized_immediate_is_rejected() {
    let err = assembler("mov a,256").unwrap_err();
    assert_eq!(err.kind, AsmErrorKind::BadImmediate);
    assert_eq!(err.line, 1);
}

#[test]
fn malformed_immediate_is_rejected() {
    let err = assembler("add a,5x").unwrap_err();
    assert_eq!(err.kind, AsmErrorKind::BadImmediate);
    assert_eq!(err.line, 1);
}

#[test]
fn cmp_with_oversized_literal_is_rejected() {
    let err = assembler("cmp a,999").unwrap_err();
    assert_eq!(err.kind, AsmErrorKind::BadImmediate);
}

#[test]
fn undefined_label_is_rejected() {
    let err = assembler("jmp nowhere\nhlt").unwrap_err();
    assert_eq!(err.kind, AsmErrorKind::UnknownLabel);
    assert_eq!(err.line, 1);
}

#[test]
fn missing_operand_is_rejected() {
    let err = assembler("mov a").unwrap_err();
    assert_eq!(err.kind, AsmErrorKind::MissingOperand);
}

#[test]
fn program_past_the_address_space_is_rejected() {
    let mut src = String::new();
    for _ in 0..65536 {
        src.push_str("hlt\n");
    }
    let err = assembler(&src).unwrap_err();
    assert_eq!(err.kind, AsmErrorKind::ProgramTooLarge);
    assert_eq!(err.line, 65536);
}

#[test]
fn tokenize_splits_and_lowercases() {
    let toks = tokenize(b"MOV  A,\t5");
    assert_eq!(toks, vec![b"mov".to_vec(), b"a".to_vec(), b"5".to_vec()]);
}

#[test]
fn trim_strips_surrounding_whitespace() {
    assert_eq!(trim(b"  mov a,1 \t\r"), b"mov a,1".to_vec());
    assert_eq!(trim(b" \t \r"), Vec::<u8>::new());
}

#[test]
fn parse_reg_knows_the_four_registers() {
    assert_eq!(parse_reg(b"a"), Some(0));
    assert_eq!(parse_reg(b"b"), Some(1));
    assert_eq!(parse_reg(b"c"), Some(2));
    assert_eq!(parse_reg(b"d"), Some(3));
    assert_eq!(parse_reg(b"e"), None);
    assert_eq!(parse_reg(b"ab"), None);
    assert!(is_reg(b"d"));
    assert!(!is_reg(b"x"));
}

#[test]
fn parse_imm_accepts_decimal_bytes_only() {
    assert_eq!(parse_imm(b"0"), Some(0));
    assert_eq!(parse_imm(b"255"), Some(255));
    assert_eq!(parse_imm(b"007"), Some(7));
    assert_eq!(parse_imm(b"256"), None);
    assert_eq!(parse_imm(b""), None);
    assert_eq!(parse_imm(b"1f"), None);
}

#[test]
fn instr_size_follows_the_table() {
    assert_eq!(instr_size(&tokenize(b"mov a,1")), Some(3));
    assert_eq!(instr_size(&tokenize(b"call x")), Some(3));
    assert_eq!(instr_size(&tokenize(b"ret")), Some(1));
    assert_eq!(instr_size(&tokenize(b"hlt")), Some(1));
    assert_eq!(instr_size(&tokenize(b"nop")), None);
    assert_eq!(instr_size(&tokenize(b"")), None);
}

#[test]
fn symbol_table_lookup_prefers_the_latest_entry() {
    let mut st = SymbolTable::new();
    assert_eq!(st.lookup(b"loop"), None);
    st.insert(b"loop".to_vec(), 4);
    st.insert(b"done".to_vec(), 9);
    assert_eq!(st.lookup(b"loop"), Some(4));
    assert_eq!(st.lookup(b"done"), Some(9));
    st.insert(b"loop".to_vec(), 12);
    assert_eq!(st.lookup(b"loop"), Some(12));
}

#[test]
fn first_pass_records_label_addresses() {
    let st = first_pass("mov a,1\nloop:\nadd a,1\njnz loop\nend:\nhlt").unwrap();
    assert_eq!(st.lookup(b"loop"), Some(3));
    assert_eq!(st.lookup(b"end"), Some(9));
    assert_eq!(st.lookup(b"missing"), None);
}

use tinyvm::assembler::assembler;
use tinyvm::cpu::Fault;
use tinyvm::cpu::CPU;
use tinyvm::instructions::Instruction;
use tinyvm::memory::Memory;

/// Assembles `src`, loads it at address 0 and steps until the machine
/// halts, panicking on any fault or on a runaway program.
fn run(src: &str) -> (CPU, Memory) {
    let program = assembler(src).expect("assembly failed");
    let mut cpu = CPU::default();
    let mut mem = Memory::new();
    assert!(program.len() <= mem.size());
    mem.load(&program);
    let mut steps = 0u32;
    while !cpu.halted {
        cpu.step(&mut mem).expect("execution fault");
        steps += 1;
        assert!(steps < 1_000_000, "program did not halt");
    }
    (cpu, mem)
}

#[test]
fn scenario_sub_program_runs() {
    let (cpu, _) = run("mov a,5\nmov b,3\nsub a,b\nhlt");
    assert_eq!(cpu.a, 2);
    assert!(!cpu.zero);
    assert!(!cpu.carry);
    assert!(cpu.halted);
}

#[test]
fn execution_is_deterministic() {
    let src = "mov a,200\nadd a,100\nmul a,a\ncall f\nhlt\nf:\nmov d,9\nret";
    let (c1, m1) = run(src);
    let (c2, m2) = run(src);
    assert_eq!(c1, c2);
    for addr in 0..=u16::MAX {
        assert_eq!(m1.read(addr), m2.read(addr));
    }
}

#[test]
fn jz_lands_on_label_when_equal() {
    let (cpu, _) = run("mov a,7\nmov b,7\ncmp a,b\njz equal\nmov c,1\nhlt\nequal:\nmov c,2\nhlt");
    assert_eq!(cpu.c, 2);
}

#[test]
fn jz_falls_through_when_unequal() {
    let (cpu, _) = run("mov a,7\nmov b,5\ncmp a,b\njz equal\nmov c,1\nhlt\nequal:\nmov c,2\nhlt");
    assert_eq!(cpu.c, 1);
}

#[test]
fn jnz_loops_until_zero() {
    let (cpu, _) = run("mov a,5\nmov b,0\nloop:\nadd b,2\nsub a,1\njnz loop\nhlt");
    assert_eq!(cpu.a, 0);
    assert_eq!(cpu.b, 10);
    assert!(cpu.zero);
}

#[test]
fn div_by_zero_faults_without_corrupting_state() {
    let program = assembler("mov a,10\nmov b,0\ndiv a,b\nhlt").unwrap();
    let mut cpu = CPU::default();
    let mut mem = Memory::new();
    mem.load(&program);
    cpu.step(&mut mem).unwrap();
    cpu.step(&mut mem).unwrap();
    let before = cpu;
    assert_eq!(cpu.step(&mut mem), Err(Fault::DivideByZero));
    assert_eq!(cpu, before);
    assert_eq!(cpu.a, 10);
    assert!(!cpu.halted);
}

#[test]
fn div_computes_the_quotient() {
    let (cpu, _) = run("mov a,17\nmov b,5\ndiv a,b\nhlt");
    assert_eq!(cpu.a, 3);
    assert!(!cpu.zero);
}

#[test]
fn add_sets_carry_and_wraps() {
    let (cpu, _) = run("mov a,200\nadd a,100\nhlt");
    assert_eq!(cpu.a, 44);
    assert!(cpu.carry);
    assert!(!cpu.zero);
}

#[test]
fn add_sets_zero_on_exact_wrap() {
    let (cpu, _) = run("mov a,128\nadd a,128\nhlt");
    assert_eq!(cpu.a, 0);
    assert!(cpu.carry);
    assert!(cpu.zero);
}

#[test]
fn add_without_overflow_clears_carry() {
    let (cpu, _) = run("mov a,1\nadd a,2\nhlt");
    assert_eq!(cpu.a, 3);
    assert!(!cpu.carry);
    assert!(!cpu.zero);
}

#[test]
fn sub_borrow_sets_carry() {
    let (cpu, _) = run("mov a,3\nsub a,5\nhlt");
    assert_eq!(cpu.a, 254);
    assert!(cpu.carry);
    assert!(!cpu.zero);
}

#[test]
fn sub_to_zero_sets_zero_flag() {
    let (cpu, _) = run("mov a,9\nsub a,9\nhlt");
    assert_eq!(cpu.a, 0);
    assert!(!cpu.carry);
    assert!(cpu.zero);
}

#[test]
fn mul_stores_low_byte_and_sets_carry() {
    let (cpu, _) = run("mov a,20\nmov b,13\nmul a,b\nhlt");
    assert_eq!(cpu.a, 4);
    assert!(cpu.carry);
    assert!(!cpu.zero);
}

#[test]
fn mul_within_a_byte_clears_carry() {
    let (cpu, _) = run("mov a,12\nmov b,20\nmul a,b\nhlt");
    assert_eq!(cpu.a, 240);
    assert!(!cpu.carry);
    assert!(!cpu.zero);
}

#[test]
fn mul_exact_multiple_of_256_sets_zero_and_carry() {
    let (cpu, _) = run("mov a,16\nmov b,16\nmul a,b\nhlt");
    assert_eq!(cpu.a, 0);
    assert!(cpu.carry);
    assert!(cpu.zero);
}

#[test]
fn mov_updates_zero_but_not_carry() {
    let (cpu, _) = run("mov a,200\nadd a,100\nmov b,0\nhlt");
    assert!(cpu.zero, "mov of 0 sets the zero flag");
    assert!(cpu.carry, "mov must leave carry as the add set it");
}

#[test]
fn cmp_stores_nothing() {
    let (cpu, _) = run("mov a,9\nmov b,4\ncmp a,b\nhlt");
    assert_eq!(cpu.a, 9);
    assert_eq!(cpu.b, 4);
    assert!(!cpu.zero);
    assert!(!cpu.carry);
}

#[test]
fn call_ret_round_trip_balances_the_stack() {
    let program = assembler("call f\nhlt\nf:\nret").unwrap();
    let mut cpu = CPU::default();
    cpu.sp = 0x1000;
    let mut mem = Memory::new();
    mem.load(&program);
    cpu.step(&mut mem).unwrap();
    assert_eq!(cpu.pc, 4, "call jumps to the target");
    assert_eq!(cpu.sp, 0x0FFE, "two pushed bytes");
    assert_eq!(mem.read(0x0FFF), 0, "high byte of the return address");
    assert_eq!(mem.read(0x0FFE), 3, "low byte of the return address");
    cpu.step(&mut mem).unwrap();
    assert_eq!(cpu.pc, 3, "ret lands just after the 3-byte call");
    assert_eq!(cpu.sp, 0x1000, "stack is balanced again");
    cpu.step(&mut mem).unwrap();
    assert!(cpu.halted);
}

#[test]
fn stack_wraps_around_the_address_space() {
    // with sp at 0 the pushed bytes land at the top of memory
    let (cpu, mem) = run("call f\nhlt\nf:\nmov c,1\nret");
    assert_eq!(cpu.sp, 0);
    assert_eq!(cpu.c, 1);
    assert_eq!(mem.read(0xFFFF), 0, "high byte of the wrapped push");
    assert_eq!(mem.read(0xFFFE), 3, "low byte of the wrapped push");
    assert!(cpu.halted);
}

#[test]
fn unknown_opcode_faults_without_corrupting_state() {
    let mut cpu = CPU::default();
    let mut mem = Memory::new();
    mem.write(0, 0xAB);
    let before = cpu;
    assert_eq!(cpu.step(&mut mem), Err(Fault::UnknownOpcode(0xAB)));
    assert_eq!(cpu, before);
}

#[test]
fn out_of_range_register_operand_faults() {
    let mut cpu = CPU::default();
    let mut mem = Memory::new();
    mem.write(0, 0x01);  // register-immediate mov
    mem.write(1, 9);  // no such register
    mem.write(2, 5);
    let before = cpu;
    assert_eq!(cpu.step(&mut mem), Err(Fault::InvalidRegister(9)));
    assert_eq!(cpu, before);
}

#[test]
fn fresh_cpu_is_zeroed_and_running() {
    let cpu = CPU::default();
    assert_eq!(cpu.a, 0);
    assert_eq!(cpu.b, 0);
    assert_eq!(cpu.c, 0);
    assert_eq!(cpu.d, 0);
    assert_eq!(cpu.pc, 0);
    assert_eq!(cpu.sp, 0);
    assert!(!cpu.zero);
    assert!(!cpu.carry);
    assert!(!cpu.halted);
}

#[test]
fn pointer_helpers_wrap() {
    let mut cpu = CPU::default();
    cpu.pc = u16::MAX;
    cpu.inc_pc();
    assert_eq!(cpu.pc, 0);
    cpu.sp = 0;
    cpu.dec_sp();
    assert_eq!(cpu.sp, u16::MAX);
    cpu.inc_sp();
    assert_eq!(cpu.sp, 0);
}

#[test]
fn memory_reads_back_what_was_written() {
    let mut mem = Memory::new();
    assert_eq!(mem.size(), 65536);
    assert_eq!(mem.read(0), 0);
    assert_eq!(mem.read(0xFFFF), 0);
    mem.write(0x1234, 0xCD);
    assert_eq!(mem.read(0x1234), 0xCD);
    assert_eq!(mem.read(0x1235), 0);
}

#[test]
fn load_places_the_program_at_address_zero() {
    let mut mem = Memory::new();
    mem.write(4, 0x77);
    mem.load(&vec![1, 2, 3]);
    assert_eq!(mem.read(0), 1);
    assert_eq!(mem.read(1), 2);
    assert_eq!(mem.read(2), 3);
    assert_eq!(mem.read(4), 0x77, "bytes past the program are untouched");
}

#[test]
fn opcode_names_cover_the_table() {
    assert_eq!(Instruction::opcode_name(0x01), "MOV");
    assert_eq!(Instruction::opcode_name(0x08), "MOV");
    assert_eq!(Instruction::opcode_name(0x02), "ADD");
    assert_eq!(Instruction::opcode_name(0x0A), "ADD");
    assert_eq!(Instruction::opcode_name(0x03), "SUB");
    assert_eq!(Instruction::opcode_name(0x0B), "SUB");
    assert_eq!(Instruction::opcode_name(0x04), "JMP");
    assert_eq!(Instruction::opcode_name(0x05), "JZ");
    assert_eq!(Instruction::opcode_name(0x06), "JNZ");
    assert_eq!(Instruction::opcode_name(0x07), "CMP");
    assert_eq!(Instruction::opcode_name(0x09), "CMP");
    assert_eq!(Instruction::opcode_name(0x0C), "MUL");
    assert_eq!(Instruction::opcode_name(0x0D), "DIV");
    assert_eq!(Instruction::opcode_name(0x0E), "CALL");
    assert_eq!(Instruction::opcode_name(0x0F), "RET");
    assert_eq!(Instruction::opcode_name(0xFF), "HLT");
    assert_eq!(Instruction::opcode_name(0x42), "???");
}

#[test]
fn opcodes_match_the_table_entries() {
    assert_eq!(Instruction::MOV_RI.opcode(), 0x01);
    assert_eq!(Instruction::MOV_RR.opcode(), 0x08);
    assert_eq!(Instruction::ADD_RR.opcode(), 0x02);
    assert_eq!(Instruction::ADD_RI.opcode(), 0x0A);
    assert_eq!(Instruction::SUB_RR.opcode(), 0x03);
    assert_eq!(Instruction::SUB_RI.opcode(), 0x0B);
    assert_eq!(Instruction::JMP.opcode(), 0x04);
    assert_eq!(Instruction::JZ.opcode(), 0x05);
    assert_eq!(Instruction::JNZ.opcode(), 0x06);
    assert_eq!(Instruction::CMP_RI.opcode(), 0x07);
    assert_eq!(Instruction::CMP_RR.opcode(), 0x09);
    assert_eq!(Instruction::MUL.opcode(), 0x0C);
    assert_eq!(Instruction::DIV.opcode(), 0x0D);
    assert_eq!(Instruction::CALL.opcode(), 0x0E);
    assert_eq!(Instruction::RET.opcode(), 0x0F);
    assert_eq!(Instruction::HLT.opcode(), 0xFF);
}

#[test]
fn handlers_can_be_driven_directly() {
    // the per-instruction handlers enter with pc past the opcode byte
    let mut cpu = CPU::default();
    let mut mem = Memory::new();
    mem.write(0, 0);  // destination register a
    mem.write(1, 41);  // immediate
    cpu.mov_ri(&mem).unwrap();
    assert_eq!(cpu.a, 41);
    assert_eq!(cpu.pc, 2);
    cpu.pc = 0;
    mem.write(0, 0);
    mem.write(1, 1);
    cpu.add_ri(&mem).unwrap();
    assert_eq!(cpu.a, 42);
    assert!(!cpu.carry);
    cpu.halt();
    assert!(cpu.halted);
}

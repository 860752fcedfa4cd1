use rust_8080::{Cpu, CpuError, Direction, PairUse, PortIn, PortOut, Registers, Snapshot};
use std::cell::RefCell;
use std::rc::Rc;

/// Prints the character in E for function 2, and the text at DE up to
/// `$` for function 9; the function number is in C.
struct Console {
    printed: Rc<RefCell<Vec<u8>>>,
}

impl PortIn for Console {
    fn read(&mut self, cpu: &Snapshot<'_>, _port: u8) -> u8 {
        if cpu.reg.c == 2 {
            self.printed.borrow_mut().push(cpu.reg.e);
        } else if cpu.reg.c == 9 {
            let mut addr = cpu.reg.de() as usize;
            while cpu.ram.read(addr).unwrap() != b'$' {
                self.printed.borrow_mut().push(cpu.ram.read(addr).unwrap());
                addr += 1;
            }
        }
        0xff
    }
}

struct Finish {
    finished: Rc<RefCell<bool>>,
}

impl PortOut for Finish {
    fn write(&mut self, _cpu: &Snapshot<'_>, _port: u8, _value: u8) {
        *self.finished.borrow_mut() = true;
    }
}

fn run(cpu: &mut Cpu, steps: usize) {
    for _ in 0..steps {
        cpu.cycle().unwrap();
    }
}

#[test]
fn nop_then_jmp_loops_forever() {
    let mut cpu = Cpu::from_raw(vec![0x00, 0xc3, 0x00, 0x00]);
    assert_eq!(cpu.pc, 0);
    cpu.cycle().unwrap();
    assert_eq!(cpu.pc, 1);
    cpu.cycle().unwrap();
    assert_eq!(cpu.pc, 0);
    for _ in 0..10 {
        cpu.cycle().unwrap();
        assert_eq!(cpu.pc, 1);
        cpu.cycle().unwrap();
        assert_eq!(cpu.pc, 0);
    }
    assert_eq!(cpu.reg, Registers::new());
    assert_eq!(cpu.sp, 0);
    assert_eq!(cpu.ram.as_slice(), &[0x00, 0xc3, 0x00, 0x00]);
}

#[test]
fn mvi_b_then_dcr_b() {
    let mut cpu = Cpu::from_raw(vec![0x06, 0x2a, 0x05]);
    cpu.cycle().unwrap();
    assert_eq!(cpu.reg.b, 0x2a);
    assert_eq!(cpu.pc, 2);
    cpu.cycle().unwrap();
    assert_eq!(cpu.reg.b, 0x29);
    assert_eq!(cpu.reg.sign(), false);
    assert_eq!(cpu.reg.zero(), false);
    // 0x29 is 0b0010_1001: three bits are set, an odd number
    assert_eq!(cpu.reg.parity(), false);
    assert_eq!(cpu.reg.carry(), false);
    assert_eq!(cpu.pc, 3);
}

#[test]
fn nop_changes_nothing_but_pc() {
    let mut cpu = Cpu::from_raw(vec![0x00, 0x00, 0x00]);
    cpu.reg.a = 1;
    cpu.reg.flags = 0x55;
    cpu.sp = 0x1234;
    let before = cpu.reg;
    cpu.cycle().unwrap();
    assert_eq!(cpu.pc, 1);
    assert_eq!(cpu.reg, before);
    assert_eq!(cpu.sp, 0x1234);
    assert_eq!(cpu.ram.as_slice(), &[0, 0, 0]);
    cpu.nop();
    assert_eq!(cpu.pc, 2);
    assert_eq!(cpu.reg, before);
}

#[test]
fn jmp_takes_the_address_low_byte_first() {
    let mut cpu = Cpu::from_raw(vec![0xc3, 0x34, 0x12, 0x00, 0xc3, 0x01, 0x00]);
    cpu.cycle().unwrap();
    assert_eq!(cpu.pc, 0x1234);
    cpu.pc = 4;
    cpu.cycle().unwrap();
    assert_eq!(cpu.pc, 1);
}

#[test]
fn conditional_jumps_follow_their_flag() {
    // every condition code, once with its flag clear and once with it set
    let flags = [0x40u8, 0x40, 0x01, 0x01, 0x04, 0x04, 0x80, 0x80];
    for cond in 0u8..8 {
        let opcode = 0xc2 | (cond << 3);
        let jumps_when_set = cond % 2 == 1;
        for set in [false, true] {
            let mut cpu = Cpu::from_raw(vec![opcode, 0x10, 0x00]);
            cpu.reg.flags = if set { flags[cond as usize] } else { 0 };
            cpu.cycle().unwrap();
            let expected = if set == jumps_when_set { 0x10 } else { 3 };
            assert_eq!(cpu.pc, expected, "condition {} with flag {}", cond, set);
        }
    }
}

#[test]
fn call_then_ret_comes_back() {
    //                                 CALL 0x0005              RET
    let mut cpu = Cpu::from_raw(vec![0xcd, 0x05, 0x00, 0x00, 0x00, 0xc9, 0x00, 0x00, 0x00, 0x00]);
    cpu.sp = 6;
    cpu.cycle().unwrap();
    assert_eq!(cpu.pc, 5);
    assert_eq!(cpu.sp, 8);
    assert_eq!(cpu.ram.read(6), Ok(0x03));
    assert_eq!(cpu.ram.read(7), Ok(0x00));
    cpu.cycle().unwrap();
    assert_eq!(cpu.pc, 3);
    assert_eq!(cpu.sp, 6);
}

#[test]
fn call_without_room_on_the_stack_fails() {
    let mut cpu = Cpu::from_raw(vec![0xcd, 0x05, 0x00]);
    cpu.sp = 2;
    assert_eq!(cpu.cycle(), Err(CpuError::OutOfBounds(3)));
    assert_eq!(cpu.pc, 0);
    assert_eq!(cpu.sp, 2);
    assert_eq!(cpu.ram.as_slice(), &[0xcd, 0x05, 0x00]);
}

#[test]
fn ret_reads_below_the_stack_pointer() {
    let mut cpu = Cpu::from_raw(vec![0xc9, 0x00, 0x78, 0x56]);
    cpu.sp = 4;
    cpu.cycle().unwrap();
    assert_eq!(cpu.pc, 0x5678);
    assert_eq!(cpu.sp, 2);
    let mut empty_stack = Cpu::from_raw(vec![0xc9]);
    assert_eq!(empty_stack.cycle(), Err(CpuError::OutOfBounds(0xfffe)));
    assert_eq!(empty_stack.sp, 0);
}

#[test]
fn inr_wraps_and_keeps_carry() {
    //                                 INR A  INR M
    let mut cpu = Cpu::from_raw(vec![0x3c, 0x34, 0x7f]);
    cpu.reg.a = 0xff;
    cpu.reg.set_carry(true);
    cpu.cycle().unwrap();
    assert_eq!(cpu.reg.a, 0x00);
    assert_eq!(cpu.reg.zero(), true);
    assert_eq!(cpu.reg.sign(), false);
    assert_eq!(cpu.reg.parity(), true);
    assert_eq!(cpu.reg.carry(), true);
    cpu.reg.hl_set(2);
    cpu.cycle().unwrap();
    assert_eq!(cpu.ram.read(2), Ok(0x80));
    assert_eq!(cpu.reg.sign(), true);
    assert_eq!(cpu.reg.zero(), false);
    assert_eq!(cpu.reg.parity(), false);
    assert_eq!(cpu.pc, 2);
}

#[test]
fn cmp_sets_flags_and_keeps_a() {
    //                                 CMP B  CMP C  CMP M  CPI 0x10
    let mut cpu = Cpu::from_raw(vec![0xb8, 0xb9, 0xbe, 0xfe, 0x10]);
    cpu.reg.a = 0x10;
    cpu.reg.b = 0x10;
    cpu.reg.c = 0x11;
    cpu.cycle().unwrap();
    assert_eq!(cpu.reg.a, 0x10);
    assert_eq!(
        (cpu.reg.zero(), cpu.reg.sign(), cpu.reg.carry(), cpu.reg.parity()),
        (true, false, false, true)
    );
    cpu.cycle().unwrap();
    assert_eq!(cpu.reg.a, 0x10);
    assert_eq!(
        (cpu.reg.zero(), cpu.reg.sign(), cpu.reg.carry(), cpu.reg.parity()),
        (false, true, true, true)
    );
    cpu.reg.hl_set(4);
    cpu.cycle().unwrap();
    assert_eq!(
        (cpu.reg.zero(), cpu.reg.sign(), cpu.reg.carry(), cpu.reg.parity()),
        (true, false, false, true)
    );
    assert_eq!(cpu.pc, 3);
    cpu.reg.a = 0x13;
    cpu.cycle().unwrap();
    assert_eq!(cpu.reg.a, 0x13);
    assert_eq!(
        (cpu.reg.zero(), cpu.reg.sign(), cpu.reg.carry(), cpu.reg.parity()),
        (false, false, false, true)
    );
    assert_eq!(cpu.pc, 5);
}

#[test]
fn lxi_loads_pairs_and_sp() {
    let mut cpu = Cpu::from_raw(vec![
        0x01, 0x34, 0x12, 0x11, 0x78, 0x56, 0x21, 0xbc, 0x9a, 0x31, 0xf0, 0xde,
    ]);
    run(&mut cpu, 4);
    assert_eq!(cpu.reg.bc(), 0x1234);
    assert_eq!(cpu.reg.de(), 0x5678);
    assert_eq!(cpu.reg.hl(), 0x9abc);
    assert_eq!(cpu.sp, 0xdef0);
    assert_eq!(cpu.pc, 12);
}

#[test]
fn lda_loads_and_sta_stores() {
    //                                 LDA 0x0006        STA 0x0007
    let mut cpu = Cpu::from_raw(vec![0x3a, 0x06, 0x00, 0x32, 0x07, 0x00, 0x5a, 0x00]);
    cpu.cycle().unwrap();
    assert_eq!(cpu.reg.a, 0x5a);
    assert_eq!(cpu.pc, 3);
    assert_eq!(cpu.ram.read(6), Ok(0x5a));
    cpu.cycle().unwrap();
    assert_eq!(cpu.ram.read(7), Ok(0x5a));
    assert_eq!(cpu.pc, 6);
}

#[test]
fn lda_and_sta_outside_memory() {
    let mut cpu = Cpu::from_raw(vec![0x3a, 0x00, 0x10, 0x32, 0x00, 0x20]);
    assert_eq!(cpu.cycle(), Err(CpuError::OutOfBounds(0x1000)));
    cpu.pc = 3;
    assert_eq!(cpu.cycle(), Err(CpuError::OutOfBounds(0x2000)));
    assert_eq!(cpu.pc, 3);
}

#[test]
fn shld_stores_and_lhld_loads() {
    //                                 SHLD 0x0006       LHLD 0x0006
    let mut cpu = Cpu::from_raw(vec![0x22, 0x06, 0x00, 0x2a, 0x06, 0x00, 0x00, 0x00]);
    cpu.reg.hl_set(0xabcd);
    cpu.cycle().unwrap();
    assert_eq!(cpu.ram.read(6), Ok(0xcd));
    assert_eq!(cpu.ram.read(7), Ok(0xab));
    cpu.reg.hl_set(0);
    cpu.cycle().unwrap();
    assert_eq!(cpu.reg.hl(), 0xabcd);
    assert_eq!(cpu.pc, 6);
}

#[test]
fn ldax_and_stax_go_through_bc_and_de() {
    //                                 LDAX B  LDAX D  STAX B  STAX D
    let mut cpu = Cpu::from_raw(vec![0x0a, 0x1a, 0x02, 0x12, 0x77, 0x88, 0x00, 0x00]);
    cpu.reg.bc_set(4);
    cpu.reg.de_set(5);
    cpu.cycle().unwrap();
    assert_eq!(cpu.reg.a, 0x77);
    cpu.cycle().unwrap();
    assert_eq!(cpu.reg.a, 0x88);
    cpu.reg.bc_set(6);
    cpu.reg.de_set(7);
    cpu.cycle().unwrap();
    assert_eq!(cpu.ram.read(6), Ok(0x88));
    cpu.reg.a = 0x99;
    cpu.cycle().unwrap();
    assert_eq!(cpu.ram.read(7), Ok(0x99));
    assert_eq!(cpu.pc, 4);
}

#[test]
fn dcx_and_inx_wrap_without_flags() {
    //                                 DCX B  INX SP  INX H  DCX SP
    let mut cpu = Cpu::from_raw(vec![0x0b, 0x33, 0x23, 0x3b]);
    cpu.sp = 0xffff;
    cpu.reg.hl_set(0x00ff);
    cpu.cycle().unwrap();
    assert_eq!(cpu.reg.bc(), 0xffff);
    cpu.cycle().unwrap();
    assert_eq!(cpu.sp, 0);
    cpu.cycle().unwrap();
    assert_eq!(cpu.reg.hl(), 0x0100);
    cpu.cycle().unwrap();
    assert_eq!(cpu.sp, 0xffff);
    assert_eq!(cpu.reg.flags, 0x02);
    assert_eq!(cpu.pc, 4);
}

#[test]
fn unimplemented_opcodes_are_reported() {
    for opcode in [0x80u8, 0x07, 0x27, 0xa0, 0xc6, 0xe6, 0xff, 0xc0, 0xfb, 0xe9, 0x08] {
        let mut cpu = Cpu::from_raw(vec![opcode, 0, 0]);
        assert_eq!(cpu.cycle(), Err(CpuError::UnimplementedOpcode(opcode)));
        assert_eq!(cpu.pc, 0);
    }
}

#[test]
fn fetch_outside_memory_is_reported() {
    let mut cpu = Cpu::from_raw(vec![0x00]);
    cpu.pc = 1;
    assert_eq!(cpu.cycle(), Err(CpuError::OutOfBounds(1)));
    cpu.pc = 500;
    assert_eq!(cpu.cycle(), Err(CpuError::OutOfBounds(500)));
    let mut empty = Cpu::from_raw(vec![]);
    assert_eq!(empty.cycle(), Err(CpuError::OutOfBounds(0)));
    let mut cut = Cpu::from_raw(vec![0xc3, 0x00]);
    assert_eq!(cut.cycle(), Err(CpuError::OutOfBounds(2)));
    let mut cut = Cpu::from_raw(vec![0x00, 0x06]);
    cut.pc = 1;
    assert_eq!(cut.cycle(), Err(CpuError::OutOfBounds(2)));
    assert_eq!(cut.pc, 1);
}

#[test]
fn ports_without_hooks_are_reported() {
    let mut cpu = Cpu::from_raw(vec![0xdb, 0x01, 0xd3, 0x01]);
    assert_eq!(cpu.cycle(), Err(CpuError::MissingPortHandler(Direction::In)));
    assert_eq!(cpu.pc, 0);
    cpu.pc = 2;
    assert_eq!(cpu.cycle(), Err(CpuError::MissingPortHandler(Direction::Out)));
    assert_eq!(cpu.pc, 2);
}

#[test]
fn load_starts_at_the_offset() {
    let mut cpu = Cpu::load(vec![0x3e, 0x07, 0x76], 0x100);
    assert_eq!(cpu.pc, 0x100);
    assert_eq!(cpu.sp, 0);
    assert_eq!(cpu.reg, Registers::new());
    assert_eq!(cpu.ram.len(), 0x103);
    assert_eq!(cpu.ram.read(0x0ff), Ok(0));
    cpu.cycle().unwrap();
    assert_eq!(cpu.reg.a, 7);
    assert_eq!(cpu.pc, 0x102);
    assert_eq!(cpu.cycle(), Err(CpuError::Halted));
    assert_eq!(cpu.pc, 0x102);
}

#[test]
fn pair_selector_errors_name_their_instruction() {
    assert_eq!(
        CpuError::InvalidRegisterPairSelector(3, PairUse::Ldax),
        CpuError::InvalidRegisterPairSelector(3, PairUse::Ldax)
    );
    assert_ne!(
        CpuError::InvalidRegisterPairSelector(3, PairUse::Ldax),
        CpuError::InvalidRegisterPairSelector(3, PairUse::Stax)
    );
}

#[test]
fn a_program_calls_the_system_through_its_ports() {
    let program = vec![
        0x31, 0x40, 0x01, // 0x100 LXI SP,0x0140
        0x0e, 0x09, //       0x103 MVI C,9
        0x11, 0x17, 0x01, // 0x105 LXI D,0x0117
        0xcd, 0x05, 0x00, // 0x108 CALL 0x0005
        0x0e, 0x02, //       0x10b MVI C,2
        0x1e, 0x21, //       0x10d MVI E,'!'
        0xcd, 0x05, 0x00, // 0x10f CALL 0x0005
        0xc3, 0x00, 0x00, // 0x112 JMP 0x0000
        0x00, 0x00, //       0x115
        b'H', b'I', b'$', // 0x117
    ];
    let mut image = program;
    image.resize(0x50, 0);
    let mut cpu = Cpu::load(image, 0x100);
    // OUT 0 at 0x0000 ends the run; IN 0 then RET at 0x0005 is the system call
    cpu.ram.write(0, 0xd3).unwrap();
    cpu.ram.write(1, 0x00).unwrap();
    cpu.ram.write(5, 0xdb).unwrap();
    cpu.ram.write(6, 0x00).unwrap();
    cpu.ram.write(7, 0xc9).unwrap();
    let printed = Rc::new(RefCell::new(Vec::new()));
    let finished = Rc::new(RefCell::new(false));
    cpu.port_in = Some(Box::new(Console { printed: printed.clone() }));
    cpu.port_out = Some(Box::new(Finish { finished: finished.clone() }));

    let mut instructions = 0;
    while !*finished.borrow() {
        instructions += 1;
        cpu.cycle().unwrap();
        assert!(instructions < 100);
    }
    assert_eq!(*printed.borrow(), b"HI!".to_vec());
    assert_eq!(instructions, 13);
    assert_eq!(cpu.reg.a, 0xff);
    assert_eq!(cpu.sp, 0x0140);
    assert_eq!(cpu.pc, 2);
}

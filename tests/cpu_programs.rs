use mayo::cpu::{ExecuteError, CPU};
use mayo::instructions::{
    ADD_REG_REG, CAL_LIT, CAL_REG, HLT, JMP_NOT_EQ, MOV_LIT_REG, MOV_MEM_REG, MOV_REG_MEM,
    MOV_REG_REG, POP, PSH_LIT, PSH_REG, RET,
};
use mayo::memory::{create_memory, Memory};
use mayo::memory_mapper::MemoryMapper;
use mayo::peripheral::Peripheral;
use mayo::screen_device::{ScreenCommand, ScreenDevice, ScreenWrite};
use mayo::register::Register;

fn load(size: usize, program: &[(usize, &[u8])]) -> Vec<u8> {
    let mut mem: Vec<u8> = vec![0; size];
    for (start, bytes) in program {
        for (i, b) in bytes.iter().enumerate() {
            mem[start + i] = *b;
        }
    }
    mem
}

#[test]
fn addition_program() {
    let mut mem: Vec<u8> = vec![0; 16];

    let mut i = 0;
    let mut add = |n: u8| {
        mem[i] = n;
        i += 1;
    };

    add(MOV_LIT_REG);
    add(0x12);
    add(0x34);
    add(Register::R1 as u8);

    add(MOV_LIT_REG);
    add(0xAB);
    add(0xCD);
    add(Register::R2 as u8);

    add(ADD_REG_REG);
    add(Register::R1 as u8);
    add(Register::R2 as u8);

    add(HLT);

    let mem = Memory::from_vec(mem);
    let mut cpu = CPU::new(Box::new(mem));

    cpu.run().unwrap();

    let acc_value = cpu.get_register(Register::Acc);
    assert_eq!(acc_value, 0x1234 + 0xABCD);
}

#[test]
fn subroutine_program() {
    let mut mem: Vec<u8> = vec![0; 256 * 256];

    let mut i = 0;
    let mut add = |n: u8| {
        mem[i] = n;
        i += 1;
    };

    let subroutine_address = (0x30, 0x00);

    add(PSH_LIT);
    add(0x33);
    add(0x33);

    add(PSH_LIT);
    add(0x22);
    add(0x22);

    add(PSH_LIT);
    add(0x11);
    add(0x11);

    add(MOV_LIT_REG);
    add(0x12);
    add(0x34);
    add(Register::R1 as u8);

    add(MOV_LIT_REG);
    add(0x56);
    add(0x78);
    add(Register::R4 as u8);

    add(PSH_LIT);
    add(0x00);
    add(0x00);

    add(CAL_LIT);
    add(subroutine_address.0);
    add(subroutine_address.1);

    add(PSH_LIT);
    add(0x44);
    add(0x44);

    add(HLT);

    // the subroutine
    let mut i = 0x3000;
    let mut add = |n: u8| {
        mem[i] = n;
        i += 1;
    };

    add(PSH_LIT);
    add(0x01);
    add(0x02);

    add(PSH_LIT);
    add(0x03);
    add(0x04);

    add(PSH_LIT);
    add(0x05);
    add(0x06);

    add(MOV_LIT_REG);
    add(0x07);
    add(0x08);
    add(Register::R1 as u8);

    add(MOV_LIT_REG);
    add(0x09);
    add(0x0A);
    add(Register::R8 as u8);

    add(RET);

    let mem = Memory::from_vec(mem);
    let mut cpu = CPU::new(Box::new(mem));

    cpu.run().unwrap();

    // the caller's state is back as it was before the call
    assert_eq!(cpu.pop(), Ok(0x4444));
    assert_eq!(cpu.pop(), Ok(0x1111));
    assert_eq!(cpu.pop(), Ok(0x2222));
    assert_eq!(cpu.pop(), Ok(0x3333));

    assert_eq!(cpu.get_register(Register::R1), 0x1234);
    assert_eq!(cpu.get_register(Register::R4), 0x5678);
}

#[test]
fn run_reports_halt() {
    let mem = load(16, &[(0, &[HLT])]);
    let mut cpu = CPU::new(Box::new(mem));
    assert_eq!(cpu.run(), Ok(true));
    assert_eq!(cpu.get_register(Register::Ip), 1);
}

#[test]
fn addition_wraps_around() {
    let mem = load(
        32,
        &[(
            0,
            &[
                MOV_LIT_REG, 0xFF, 0xFF, 2, MOV_LIT_REG, 0x00, 0x03, 3, ADD_REG_REG, 2, 3, HLT,
            ],
        )],
    );
    let mut cpu = CPU::new(Box::new(mem));
    assert_eq!(cpu.run(), Ok(true));
    assert_eq!(cpu.get_register(Register::Acc), 0x0002);
}

#[test]
fn unknown_opcode_is_a_decode_error() {
    let mem = load(16, &[(0, &[0xEE])]);
    let mut cpu = CPU::new(Box::new(mem));
    assert_eq!(cpu.step(), Err(ExecuteError::UnknownInstruction(0xEE)));
}

#[test]
fn null_byte_ends_the_program() {
    let mem = load(16, &[(0, &[MOV_LIT_REG, 0x00, 0x07, 2])]);
    let mut cpu = CPU::new(Box::new(mem));
    assert_eq!(cpu.step(), Ok(false));
    assert_eq!(cpu.step(), Err(ExecuteError::NullByte));
    assert_eq!(cpu.run(), Err(ExecuteError::NullByte));
    assert_eq!(cpu.get_register(Register::R1), 7);
}

#[test]
fn invalid_register_ordinal_is_rejected() {
    let mem = load(16, &[(0, &[MOV_LIT_REG, 0x00, 0x07, 12])]);
    let mut cpu = CPU::new(Box::new(mem));
    assert_eq!(cpu.step(), Err(ExecuteError::InvalidRegister(12)));
}

#[test]
fn fetch_past_the_end_is_an_address_fault() {
    let mem = load(3, &[(0, &[MOV_LIT_REG, 0x00, 0x07])]);
    let mut cpu = CPU::new(Box::new(mem));
    assert_eq!(cpu.step(), Err(ExecuteError::AddressFault(3)));
}

#[test]
fn push_on_small_memory_is_an_address_fault() {
    // SP starts at 0xFFFE, far past a 16-byte memory
    let mem = load(16, &[(0, &[PSH_LIT, 0x12, 0x34])]);
    let mut cpu = CPU::new(Box::new(mem));
    assert_eq!(cpu.step(), Err(ExecuteError::AddressFault(0xFFFE)));
}

#[test]
fn start_state() {
    let cpu = CPU::new(Box::new(vec![0u8; 4]));
    assert_eq!(cpu.get_register(Register::Sp), 0xFFFE);
    assert_eq!(cpu.get_register(Register::Fp), 0xFFFE);
    assert_eq!(cpu.get_register(Register::Ip), 0);
    assert_eq!(cpu.get_register(Register::Acc), 0);
}

#[test]
fn set_then_get_register() {
    let mut cpu = CPU::new(Box::new(vec![0u8; 4]));
    for v in [0u16, 1, 0x00FF, 0x0100, 0xABCD, 0xFFFF] {
        cpu.set_register(Register::R5, v);
        assert_eq!(cpu.get_register(Register::R5), v);
    }
    cpu.set_register(Register::R6, 0x1111);
    assert_eq!(cpu.get_register(Register::R5), 0xFFFF);
}

#[test]
fn push_push_pop_pop_is_lifo() {
    let mut cpu = CPU::new(Box::new(vec![0u8; 0x10000]));
    assert_eq!(cpu.push(0xAAAA), Ok(()));
    assert_eq!(cpu.push(0xBBBB), Ok(()));
    assert_eq!(cpu.get_register(Register::Sp), 0xFFFA);
    assert_eq!(cpu.pop(), Ok(0xBBBB));
    assert_eq!(cpu.pop(), Ok(0xAAAA));
    assert_eq!(cpu.get_register(Register::Sp), 0xFFFE);
}

#[test]
fn moves_between_registers_and_memory() {
    let mem = load(
        0x200,
        &[(
            0,
            &[
                MOV_LIT_REG, 0xBE, 0xEF, 2, // R1 <- 0xBEEF
                MOV_REG_REG, 2, 3, // R2 <- R1
                MOV_REG_MEM, 3, 0x01, 0x00, // [0x0100] <- R2
                MOV_MEM_REG, 0x01, 0x00, 4, // R3 <- [0x0100]
                HLT,
            ],
        )],
    );
    let mut cpu = CPU::new(Box::new(mem));
    assert_eq!(cpu.run(), Ok(true));
    assert_eq!(cpu.get_register(Register::R2), 0xBEEF);
    assert_eq!(cpu.get_register(Register::R3), 0xBEEF);
    let bytes = cpu.into_memory();
    assert_eq!(bytes[0x100], 0xBE);
    assert_eq!(bytes[0x101], 0xEF);
}

#[test]
fn store_outside_memory_is_an_address_fault() {
    let mem = load(16, &[(0, &[MOV_REG_MEM, 2, 0x20, 0x00])]);
    let mut cpu = CPU::new(Box::new(mem));
    assert_eq!(cpu.step(), Err(ExecuteError::AddressFault(0x2000)));
}

#[test]
fn jump_when_not_equal() {
    let mem = load(
        32,
        &[
            (0, &[JMP_NOT_EQ, 0x00, 0x05, 0x00, 0x10]),
            (0x10, &[JMP_NOT_EQ, 0x00, 0x00, 0x00, 0x00, HLT]),
        ],
    );
    let mut cpu = CPU::new(Box::new(mem));
    assert_eq!(cpu.step(), Ok(false));
    assert_eq!(cpu.get_register(Register::Ip), 0x10);
    assert_eq!(cpu.step(), Ok(false));
    assert_eq!(cpu.get_register(Register::Ip), 0x15);
    assert_eq!(cpu.step(), Ok(true));
}

#[test]
fn push_register_and_pop_into_register() {
    let mem = load(
        0x10000,
        &[(0, &[MOV_LIT_REG, 0x12, 0x34, 2, PSH_REG, 2, POP, 9, HLT])],
    );
    let mut cpu = CPU::new(Box::new(mem));
    assert_eq!(cpu.run(), Ok(true));
    assert_eq!(cpu.get_register(Register::R8), 0x1234);
    assert_eq!(cpu.get_register(Register::Sp), 0xFFFE);
}

#[test]
fn call_through_register_with_arguments() {
    let mem = load(
        0x10000,
        &[
            (
                0,
                &[
                    MOV_LIT_REG, 0x00, 0x07, 2, // R1 <- 7
                    MOV_LIT_REG, 0x40, 0x00, 5, // R4 <- 0x4000
                    PSH_LIT, 0xAA, 0xAA, // an argument
                    PSH_LIT, 0x00, 0x01, // argument count
                    CAL_REG, 5, HLT,
                ],
            ),
            (0x4000, &[MOV_LIT_REG, 0x00, 0x09, 2, PSH_LIT, 0x55, 0x55, RET]),
        ],
    );
    let mut cpu = CPU::new(Box::new(mem));
    assert_eq!(cpu.run(), Ok(true));
    assert_eq!(cpu.get_register(Register::R1), 7);
    assert_eq!(cpu.get_register(Register::Ip), 17);
    assert_eq!(cpu.get_register(Register::Sp), 0xFFFE);
    assert_eq!(cpu.get_register(Register::Fp), 0xFFFE);
}

#[test]
fn cpu_dict() {
    let mem = create_memory(1);
    let cpu = CPU::new(Box::new(mem));
    assert_eq!(cpu.get_register(Register::Ip), 0);

    assert_eq!(Register::Ip.as_index(), 0);
    assert_eq!(Register::Acc.as_index(), 2);
    assert_eq!(Register::R1.as_index(), 4);
    assert_eq!(Register::R2.as_index(), 6);
    assert_eq!(Register::R3.as_index(), 8);
    assert_eq!(Register::R4.as_index(), 10);
    assert_eq!(Register::R5.as_index(), 12);
    assert_eq!(Register::R6.as_index(), 14);
    assert_eq!(Register::R7.as_index(), 16);
    assert_eq!(Register::R8.as_index(), 18);
    assert_eq!(Register::Sp.as_index(), 20);
    assert_eq!(Register::Fp.as_index(), 22);
    assert_eq!(Register::from_ordinal(9), Some(Register::R8));
    assert_eq!(Register::from_ordinal(12), None);
}

#[test]
fn view_memory_reads_a_range() {
    let mem = load(8, &[(2, &[1, 2, 3])]);
    let cpu = CPU::new(Box::new(mem));
    assert_eq!(cpu.view_memory_at(2, 2), Ok(vec![1, 2, 3]));
    assert_eq!(cpu.view_memory_at(0, 0), Ok(vec![0]));
    assert_eq!(cpu.view_memory_at(6, 2), Err(()));
}

#[test]
fn program_writes_to_a_mapped_screen() {
    let mut program = vec![0u8; 0x10000];
    let code = [
        MOV_LIT_REG, 0x01, b'H', 2, // R1 <- bold 'H'
        MOV_REG_MEM, 2, 0x30, 0x11, // screen cell 0x11
        HLT,
    ];
    program[..code.len()].copy_from_slice(&code);
    let mut mm = MemoryMapper::new();
    mm.map(Peripheral::Memory(Memory::from_vec(program)), 0, 0xFFFF, true);
    mm.map(Peripheral::Screen(ScreenDevice::new()), 0x3000, 0x30FF, true);
    let mut cpu = CPU::new(Box::new(mm));
    assert_eq!(cpu.run(), Ok(true));
    let out = cpu.memory_mut().device_mut(0).take_screen_output();
    assert_eq!(
        out,
        vec![ScreenWrite { command: ScreenCommand::Bold, column: 2, row: 1, character: b'H' }]
    );
    assert!(cpu.memory_mut().device_mut(1).take_screen_output().is_empty());
}

#[test]
fn reading_the_screen_is_an_address_fault() {
    let mut program = vec![0u8; 0x10000];
    let code = [MOV_MEM_REG, 0x30, 0x00, 2];
    program[..code.len()].copy_from_slice(&code);
    let mut mm = MemoryMapper::new();
    mm.map(Peripheral::Memory(Memory::from_vec(program)), 0, 0xFFFF, true);
    mm.map(Peripheral::Screen(ScreenDevice::new()), 0x3000, 0x30FF, true);
    let mut cpu = CPU::new(Box::new(mm));
    assert_eq!(cpu.step(), Err(ExecuteError::AddressFault(0x3000)));
}

use invaders8080::flags::ConditionCodes;
use invaders8080::state8080::{emulate_8080_op, is_implemented, State8080};

const CLEAR: ConditionCodes = ConditionCodes { z: false, s: false, p: false, cy: false, ac: false };

fn machine(program: &[u8]) -> State8080 {
    let mut state = State8080::default();
    assert!(state.load_rom(program));
    state
}

fn run(state: &mut State8080, instructions: usize) -> u32 {
    let mut cycles: u32 = 0;
    for _ in 0..instructions {
        assert!(is_implemented(state.read_mem(state.get_pc())));
        cycles += emulate_8080_op(state) as u32;
    }
    cycles
}

fn reg(state: &State8080, name: char) -> u8 {
    State8080::get_reg(state, name)
}

#[test]
fn nop_only_moves_pc() {
    let mut state = machine(&[0x00]);
    assert_eq!(run(&mut state, 1), 4);
    assert_eq!(state.get_pc(), 1);
    assert_eq!(state.get_sp(), 0);
    assert_eq!(state.flags(), CLEAR);
}

#[test]
fn lxi_loads_little_endian() {
    // LXI B,1234; LXI D,5678; LXI H,9ABC; LXI SP,2400
    let mut state = machine(&[
        0x01, 0x34, 0x12, 0x11, 0x78, 0x56, 0x21, 0xBC, 0x9A, 0x31, 0x00, 0x24,
    ]);
    assert_eq!(run(&mut state, 4), 40);
    assert_eq!(reg(&state, 'b'), 0x12);
    assert_eq!(reg(&state, 'c'), 0x34);
    assert_eq!(reg(&state, 'd'), 0x56);
    assert_eq!(reg(&state, 'e'), 0x78);
    assert_eq!(reg(&state, 'h'), 0x9A);
    assert_eq!(reg(&state, 'l'), 0xBC);
    assert_eq!(state.get_sp(), 0x2400);
    assert_eq!(state.get_pc(), 12);
}

#[test]
fn stax_and_ldax() {
    // LXI B,2100; MVI A,42; STAX B; LXI D,2100; MVI A,00; LDAX D
    let mut state = machine(&[
        0x01, 0x00, 0x21, 0x3E, 0x42, 0x02, 0x11, 0x00, 0x21, 0x3E, 0x00, 0x1A,
    ]);
    run(&mut state, 3);
    assert_eq!(state.read_mem(0x2100), 0x42);
    run(&mut state, 3);
    assert_eq!(reg(&state, 'a'), 0x42);
    // STAX D and LDAX B
    let mut state = machine(&[0x11, 0x10, 0x22, 0x3E, 0x99, 0x12, 0x01, 0x10, 0x22, 0x3E, 0, 0x0A]);
    run(&mut state, 6);
    assert_eq!(state.read_mem(0x2210), 0x99);
    assert_eq!(reg(&state, 'a'), 0x99);
}

#[test]
fn shld_and_lhld() {
    // LXI H,BEEF; SHLD 2300; LXI H,0000; LHLD 2300
    let mut state = machine(&[0x21, 0xEF, 0xBE, 0x22, 0x00, 0x23, 0x21, 0, 0, 0x2A, 0x00, 0x23]);
    assert_eq!(run(&mut state, 2), 26);
    assert_eq!(state.read_mem(0x2300), 0xEF);
    assert_eq!(state.read_mem(0x2301), 0xBE);
    assert_eq!(run(&mut state, 2), 26);
    assert_eq!(reg(&state, 'h'), 0xBE);
    assert_eq!(reg(&state, 'l'), 0xEF);
    assert_eq!(state.get_pc(), 12);
}

#[test]
fn inx_and_dcx_wrap_without_flags() {
    // DCX B; INX B; INX B
    let mut state = machine(&[0x0B, 0x03, 0x03]);
    run(&mut state, 1);
    assert_eq!(reg(&state, 'b'), 0xFF);
    assert_eq!(reg(&state, 'c'), 0xFF);
    assert_eq!(state.flags(), CLEAR);
    run(&mut state, 2);
    assert_eq!(reg(&state, 'b'), 0x00);
    assert_eq!(reg(&state, 'c'), 0x01);
    assert_eq!(state.flags(), CLEAR);
    // LXI D,00FF; INX D; LXI H,0100; DCX H; DCX SP; INX SP
    let mut state = machine(&[0x11, 0xFF, 0x00, 0x13, 0x21, 0x00, 0x01, 0x2B, 0x3B, 0x33]);
    run(&mut state, 4);
    assert_eq!(reg(&state, 'd'), 0x01);
    assert_eq!(reg(&state, 'e'), 0x00);
    assert_eq!(reg(&state, 'h'), 0x00);
    assert_eq!(reg(&state, 'l'), 0xFF);
    run(&mut state, 1);
    assert_eq!(state.get_sp(), 0xFFFF);
    run(&mut state, 1);
    assert_eq!(state.get_sp(), 0x0000);
}

#[test]
fn inr_and_dcr_of_memory() {
    // LXI H,2050; MVI M,0F; INR M; DCR M; DCR M
    let mut state = machine(&[0x21, 0x50, 0x20, 0x36, 0x0F, 0x34, 0x35, 0x35]);
    assert_eq!(run(&mut state, 3), 30);
    assert_eq!(state.read_mem(0x2050), 0x10);
    assert_eq!(state.flags(), ConditionCodes { ac: true, ..CLEAR });
    assert_eq!(run(&mut state, 1), 10);
    assert_eq!(state.read_mem(0x2050), 0x0F);
    assert_eq!(state.flags(), ConditionCodes { p: true, ..CLEAR });
    run(&mut state, 1);
    assert_eq!(state.read_mem(0x2050), 0x0E);
    assert_eq!(state.flags(), ConditionCodes { ac: true, ..CLEAR });
}

#[test]
fn rotates() {
    // MVI A,81; RLC
    let mut state = machine(&[0x3E, 0x81, 0x07]);
    run(&mut state, 2);
    assert_eq!(reg(&state, 'a'), 0x03);
    assert!(state.flags().cy);
    // MVI A,40; RLC
    let mut state = machine(&[0x3E, 0x40, 0x07]);
    run(&mut state, 2);
    assert_eq!(reg(&state, 'a'), 0x80);
    assert!(!state.flags().cy);
    // MVI A,80; RAL; RAL
    let mut state = machine(&[0x3E, 0x80, 0x17, 0x17]);
    run(&mut state, 2);
    assert_eq!(reg(&state, 'a'), 0x00);
    assert!(state.flags().cy);
    run(&mut state, 1);
    assert_eq!(reg(&state, 'a'), 0x01);
    assert!(!state.flags().cy);
    // MVI A,01; RAR; RAR
    let mut state = machine(&[0x3E, 0x01, 0x1F, 0x1F]);
    run(&mut state, 2);
    assert_eq!(reg(&state, 'a'), 0x00);
    assert!(state.flags().cy);
    run(&mut state, 1);
    assert_eq!(reg(&state, 'a'), 0x80);
    assert!(!state.flags().cy);
    // MVI A,02; RRC leaves Z, S, P alone
    let mut state = machine(&[0x3E, 0x02, 0x0F]);
    state.set_flags(ConditionCodes { z: true, s: true, p: true, cy: true, ac: true });
    run(&mut state, 2);
    assert_eq!(reg(&state, 'a'), 0x01);
    assert_eq!(state.flags(), ConditionCodes { z: true, s: true, p: true, cy: false, ac: true });
}

#[test]
fn decimal_adjust() {
    // MVI A,9B; DAA
    let mut state = machine(&[0x3E, 0x9B, 0x27]);
    assert_eq!(run(&mut state, 2), 11);
    assert_eq!(reg(&state, 'a'), 0x01);
    assert_eq!(state.flags(), ConditionCodes { z: false, s: false, p: false, cy: true, ac: true });
    // MVI A,15; ADI 27; DAA gives 42
    let mut state = machine(&[0x3E, 0x15, 0xC6, 0x27, 0x27]);
    run(&mut state, 3);
    assert_eq!(reg(&state, 'a'), 0x42);
    assert_eq!(state.flags(), ConditionCodes { z: false, s: false, p: true, cy: false, ac: true });
    // MVI A,08; ADI 08; DAA uses the auxiliary carry: 16
    let mut state = machine(&[0x3E, 0x08, 0xC6, 0x08, 0x27]);
    run(&mut state, 2);
    assert_eq!(reg(&state, 'a'), 0x10);
    assert!(state.flags().ac);
    run(&mut state, 1);
    assert_eq!(reg(&state, 'a'), 0x16);
    assert_eq!(state.flags(), ConditionCodes { z: false, s: false, p: false, cy: false, ac: false });
    // MVI A,99; ADI 01; DAA gives 00 with carry
    let mut state = machine(&[0x3E, 0x99, 0xC6, 0x01, 0x27]);
    run(&mut state, 3);
    assert_eq!(reg(&state, 'a'), 0x00);
    assert_eq!(state.flags(), ConditionCodes { z: true, s: false, p: true, cy: true, ac: true });
    // MVI A,12; DAA changes nothing
    let mut state = machine(&[0x3E, 0x12, 0x27]);
    run(&mut state, 2);
    assert_eq!(reg(&state, 'a'), 0x12);
    assert_eq!(state.flags(), ConditionCodes { z: false, s: false, p: true, cy: false, ac: false });
}

#[test]
fn carry_flag_instructions() {
    // STC; CMC; CMC
    let mut state = machine(&[0x37, 0x3F, 0x3F]);
    run(&mut state, 1);
    assert_eq!(state.flags(), ConditionCodes { cy: true, ..CLEAR });
    run(&mut state, 1);
    assert_eq!(state.flags(), CLEAR);
    run(&mut state, 1);
    assert_eq!(state.flags(), ConditionCodes { cy: true, ..CLEAR });
}

#[test]
fn moves_between_registers_and_memory() {
    // MVI B,11; MOV C,B; MOV D,C; MOV E,D; MOV H,E; MOV L,H; MOV A,L
    let mut state = machine(&[0x06, 0x11, 0x48, 0x51, 0x5A, 0x63, 0x6C, 0x7D]);
    assert_eq!(run(&mut state, 7), 7 + 6 * 5);
    for name in ['a', 'b', 'c', 'd', 'e', 'h', 'l'] {
        assert_eq!(reg(&state, name), 0x11);
    }
    // LXI H,2080; MVI B,77; MOV M,B; MOV A,M; MOV M,H; MOV E,M
    let mut state = machine(&[0x21, 0x80, 0x20, 0x06, 0x77, 0x70, 0x7E, 0x74, 0x5E]);
    run(&mut state, 3);
    assert_eq!(state.read_mem(0x2080), 0x77);
    assert_eq!(run(&mut state, 1), 7);
    assert_eq!(reg(&state, 'a'), 0x77);
    run(&mut state, 2);
    assert_eq!(state.read_mem(0x2080), 0x20);
    assert_eq!(reg(&state, 'e'), 0x20);
    // MOV B,B changes nothing
    let mut state = machine(&[0x06, 0x09, 0x40]);
    run(&mut state, 2);
    assert_eq!(reg(&state, 'b'), 0x09);
    assert_eq!(state.get_pc(), 3);
}

#[test]
fn add_and_adc() {
    // MVI A,0F; MVI C,01; ADD C
    let mut state = machine(&[0x3E, 0x0F, 0x0E, 0x01, 0x81]);
    run(&mut state, 3);
    assert_eq!(reg(&state, 'a'), 0x10);
    assert_eq!(state.flags(), ConditionCodes { ac: true, ..CLEAR });
    // MVI A,FF; STC; ACI 00
    let mut state = machine(&[0x3E, 0xFF, 0x37, 0xCE, 0x00]);
    assert_eq!(run(&mut state, 3), 18);
    assert_eq!(reg(&state, 'a'), 0x00);
    assert_eq!(state.flags(), ConditionCodes { z: true, s: false, p: true, cy: true, ac: true });
    // MVI A,70; MVI D,20; STC; ADC D
    let mut state = machine(&[0x3E, 0x70, 0x16, 0x20, 0x37, 0x8A]);
    run(&mut state, 4);
    assert_eq!(reg(&state, 'a'), 0x91);
    assert_eq!(state.flags(), ConditionCodes { z: false, s: true, p: false, cy: false, ac: false });
    // ADD M: LXI H,2000; MVI M,05; MVI A,03; ADD M
    let mut state = machine(&[0x21, 0x00, 0x20, 0x36, 0x05, 0x3E, 0x03, 0x86]);
    run(&mut state, 3);
    assert_eq!(run(&mut state, 1), 7);
    assert_eq!(reg(&state, 'a'), 0x08);
    // ADD A doubles
    let mut state = machine(&[0x3E, 0x81, 0x87]);
    run(&mut state, 2);
    assert_eq!(reg(&state, 'a'), 0x02);
    assert!(state.flags().cy);
}

#[test]
fn sub_sets_borrow() {
    // MVI A,00; MVI B,01; SUB B
    let mut state = machine(&[0x3E, 0x00, 0x06, 0x01, 0x90]);
    run(&mut state, 3);
    assert_eq!(reg(&state, 'a'), 0xFF);
    assert_eq!(state.flags(), ConditionCodes { z: false, s: true, p: true, cy: true, ac: false });
    // SUB A clears A
    let mut state = machine(&[0x3E, 0x3C, 0x97]);
    run(&mut state, 2);
    assert_eq!(reg(&state, 'a'), 0x00);
    assert_eq!(state.flags(), ConditionCodes { z: true, s: false, p: true, cy: false, ac: true });
}

#[test]
fn logical_operations_clear_carry() {
    // MVI A,0F; MVI B,08; STC; ANA B
    let mut state = machine(&[0x3E, 0x0F, 0x06, 0x08, 0x37, 0xA0]);
    run(&mut state, 4);
    assert_eq!(reg(&state, 'a'), 0x08);
    assert_eq!(state.flags(), ConditionCodes { z: false, s: false, p: false, cy: false, ac: true });
    // MVI A,F0; STC; ANI 0F
    let mut state = machine(&[0x3E, 0xF0, 0x37, 0xE6, 0x0F]);
    run(&mut state, 3);
    assert_eq!(reg(&state, 'a'), 0x00);
    assert_eq!(state.flags(), ConditionCodes { z: true, s: false, p: true, cy: false, ac: true });
    // MVI A,5A; STC; XRA A
    let mut state = machine(&[0x3E, 0x5A, 0x37, 0xAF]);
    run(&mut state, 3);
    assert_eq!(reg(&state, 'a'), 0x00);
    assert_eq!(state.flags(), ConditionCodes { z: true, s: false, p: true, cy: false, ac: false });
    // MVI A,81; STC; XRI 01
    let mut state = machine(&[0x3E, 0x81, 0x37, 0xEE, 0x01]);
    run(&mut state, 3);
    assert_eq!(reg(&state, 'a'), 0x80);
    assert_eq!(state.flags(), ConditionCodes { z: false, s: true, p: false, cy: false, ac: false });
    // MVI A,01; MVI C,82; STC; ORA C
    let mut state = machine(&[0x3E, 0x01, 0x0E, 0x82, 0x37, 0xB1]);
    run(&mut state, 4);
    assert_eq!(reg(&state, 'a'), 0x83);
    assert_eq!(state.flags(), ConditionCodes { z: false, s: true, p: false, cy: false, ac: false });
    // ORI 00 on zero
    let mut state = machine(&[0xF6, 0x00]);
    run(&mut state, 1);
    assert_eq!(state.flags(), ConditionCodes { z: true, s: false, p: true, cy: false, ac: false });
    assert_eq!(state.get_pc(), 2);
}

#[test]
fn flags_follow_the_last_result() {
    for value in [0x00u8, 0x01, 0x03, 0x7F, 0x80, 0xFE, 0xFF] {
        // MVI A,value; ORA A
        let mut state = machine(&[0x3E, value, 0xB7]);
        run(&mut state, 2);
        let flags = state.flags();
        assert_eq!(flags.z, value == 0);
        assert_eq!(flags.s, value & 0x80 != 0);
        assert_eq!(flags.p, value.count_ones() % 2 == 0);
        // MVI A,value; ADI 01
        let mut state = machine(&[0x3E, value, 0xC6, 0x01]);
        run(&mut state, 2);
        let result = value.wrapping_add(1);
        assert_eq!(reg(&state, 'a'), result);
        let flags = state.flags();
        assert_eq!(flags.z, result == 0);
        assert_eq!(flags.s, result & 0x80 != 0);
        assert_eq!(flags.p, result.count_ones() % 2 == 0);
        assert_eq!(flags.cy, value == 0xFF);
    }
}

#[test]
fn conditional_jumps() {
    // each jump to 0x0010, with its condition false and then true
    let cases: [(u8, ConditionCodes); 8] = [
        (0xC2, ConditionCodes { z: false, ..CLEAR }),
        (0xCA, ConditionCodes { z: true, ..CLEAR }),
        (0xD2, ConditionCodes { cy: false, ..CLEAR }),
        (0xDA, ConditionCodes { cy: true, ..CLEAR }),
        (0xE2, ConditionCodes { p: false, ..CLEAR }),
        (0xEA, ConditionCodes { p: true, ..CLEAR }),
        (0xF2, ConditionCodes { s: false, ..CLEAR }),
        (0xFA, ConditionCodes { s: true, ..CLEAR }),
    ];
    for (index, (opcode, taken)) in cases.iter().enumerate() {
        let mut state = machine(&[*opcode, 0x10, 0x00]);
        state.set_flags(*taken);
        assert_eq!(run(&mut state, 1), 10);
        assert_eq!(state.get_pc(), 0x0010);
        let not_taken = if index % 2 == 0 {
            ConditionCodes { z: true, s: true, p: true, cy: true, ac: false }
        } else {
            CLEAR
        };
        let mut state = machine(&[*opcode, 0x10, 0x00]);
        state.set_flags(not_taken);
        assert_eq!(run(&mut state, 1), 10);
        assert_eq!(state.get_pc(), 0x0003);
    }
}

#[test]
fn conditional_calls_and_returns() {
    let calls: [(u8, ConditionCodes); 8] = [
        (0xC4, ConditionCodes { z: false, ..CLEAR }),
        (0xCC, ConditionCodes { z: true, ..CLEAR }),
        (0xD4, ConditionCodes { cy: false, ..CLEAR }),
        (0xDC, ConditionCodes { cy: true, ..CLEAR }),
        (0xE4, ConditionCodes { p: false, ..CLEAR }),
        (0xEC, ConditionCodes { p: true, ..CLEAR }),
        (0xF4, ConditionCodes { s: false, ..CLEAR }),
        (0xFC, ConditionCodes { s: true, ..CLEAR }),
    ];
    for (index, (opcode, taken)) in calls.iter().enumerate() {
        let not_taken = if index % 2 == 0 {
            ConditionCodes { z: true, s: true, p: true, cy: true, ac: false }
        } else {
            CLEAR
        };
        // Ccc 0010 at 0, Rcc at 0x10
        let mut image = vec![0u8; 0x20];
        image[0] = *opcode;
        image[1] = 0x10;
        image[0x10] = *opcode - 4;
        let mut state = machine(&image);
        state.set_sp(0x2400);
        state.set_flags(*taken);
        assert_eq!(run(&mut state, 1), 17);
        assert_eq!(state.get_pc(), 0x0010);
        assert_eq!(state.get_sp(), 0x23FE);
        assert_eq!(state.read_mem(0x23FE), 0x03);
        assert_eq!(state.read_mem(0x23FF), 0x00);
        state.set_flags(not_taken);
        assert_eq!(run(&mut state, 1), 11);
        assert_eq!(state.get_pc(), 0x0011);
        assert_eq!(state.get_sp(), 0x23FE);
        state.set_pc(0x0010);
        state.set_flags(*taken);
        assert_eq!(run(&mut state, 1), 11);
        assert_eq!(state.get_pc(), 0x0003);
        assert_eq!(state.get_sp(), 0x2400);
        let mut state = machine(&image);
        state.set_sp(0x2400);
        state.set_flags(not_taken);
        assert_eq!(run(&mut state, 1), 17);
        assert_eq!(state.get_pc(), 0x0003);
        assert_eq!(state.get_sp(), 0x2400);
    }
}

#[test]
fn restart_calls_fixed_vectors() {
    for n in 0..8u8 {
        let mut image = vec![0u8; 0x101];
        image[0x100] = 0xC7 + 8 * n;
        let mut state = machine(&image);
        state.set_pc(0x0100);
        state.set_sp(0x2400);
        assert_eq!(run(&mut state, 1), 11);
        assert_eq!(state.get_pc(), 8 * n as u16);
        assert_eq!(state.get_sp(), 0x23FE);
        assert_eq!(state.read_mem(0x23FE), 0x01);
        assert_eq!(state.read_mem(0x23FF), 0x01);
    }
}

#[test]
fn pchl_and_sphl() {
    // LXI H,1234; SPHL; PCHL
    let mut state = machine(&[0x21, 0x34, 0x12, 0xF9, 0xE9]);
    assert_eq!(run(&mut state, 3), 20);
    assert_eq!(state.get_sp(), 0x1234);
    assert_eq!(state.get_pc(), 0x1234);
}

#[test]
fn xthl_swaps_hl_with_stack_top() {
    // LXI H,1234; XTHL
    let mut state = machine(&[0x21, 0x34, 0x12, 0xE3]);
    state.set_sp(0x2400);
    state.write_mem(0x2400, 0xCD);
    state.write_mem(0x2401, 0xAB);
    assert_eq!(run(&mut state, 2), 28);
    assert_eq!(reg(&state, 'h'), 0xAB);
    assert_eq!(reg(&state, 'l'), 0xCD);
    assert_eq!(state.read_mem(0x2400), 0x34);
    assert_eq!(state.read_mem(0x2401), 0x12);
    assert_eq!(state.get_sp(), 0x2400);
}

#[test]
fn ei_and_di() {
    // EI; DI
    let mut state = machine(&[0xFB, 0xF3]);
    run(&mut state, 1);
    assert!(state.interrupt_enabled());
    run(&mut state, 1);
    assert!(!state.interrupt_enabled());
}

#[test]
fn pc_and_sp_wrap() {
    // a NOP at the top of the address space, which mirrors 0x3FFF
    let mut state = State8080::default();
    state.write_mem(0xFFFF, 0x00);
    state.set_pc(0xFFFF);
    run(&mut state, 1);
    assert_eq!(state.get_pc(), 0x0000);
    // MVI A at 0xFFFF takes its operand from address 0
    let mut state = machine(&[0x5A]);
    state.write_mem(0xFFFF, 0x3E);
    state.set_pc(0xFFFF);
    run(&mut state, 1);
    assert_eq!(reg(&state, 'a'), 0x5A);
    assert_eq!(state.get_pc(), 0x0001);
    // POP B with SP at 0xFFFF reads 0xFFFF and 0x0000
    let mut state = machine(&[0xC1]);
    state.write_mem(0xFFFF, 0x77);
    state.set_sp(0xFFFF);
    run(&mut state, 1);
    assert_eq!(reg(&state, 'c'), 0x77);
    assert_eq!(reg(&state, 'b'), 0xC1);
    assert_eq!(state.get_sp(), 0x0001);
}

#[test]
fn rom_survives_every_store_instruction() {
    // LXI H,0100; MVI M,FF; MOV M,H; INR M; LXI B,0100; STAX B; STA 0100; SHLD 0100;
    // LXI SP,0102; PUSH H; CALL 0020
    let mut image = vec![0u8; 0x200];
    let program = [
        0x21, 0x00, 0x01, 0x36, 0xFF, 0x74, 0x34, 0x01, 0x00, 0x01, 0x02, 0x32, 0x00, 0x01, 0x22,
        0x00, 0x01, 0x31, 0x02, 0x01, 0xE5, 0xCD, 0x20, 0x00,
    ];
    image[..program.len()].copy_from_slice(&program);
    image[0x0100] = 0x11;
    image[0x0101] = 0x22;
    let mut state = machine(&image);
    state.set_a(0x99);
    run(&mut state, 11);
    assert_eq!(state.get_pc(), 0x0020);
    assert_eq!(state.read_mem_chunk(0, 0x1FFF)[..0x200], image[..]);
}

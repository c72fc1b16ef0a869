use invaders8080::scheduler::{run_frame, FrameEnd, Scheduler, CYCLES_PER_FRAME, INTERRUPT_PERIOD};
use invaders8080::state8080::State8080;
use invaders8080::trace::{Trace, TraceEntry, TRACE_LIMIT};
use invaders8080::video::{
    draw_screen, expand, rasterize, rotate, BLACK, DISPLAY_HEIGHT, DISPLAY_WIDTH, HEIGHT, WHITE,
    WIDTH,
};

fn machine(program: &[u8]) -> State8080 {
    let mut state = State8080::default();
    assert!(state.load_rom(program));
    state
}

fn entry(n: u16) -> TraceEntry {
    TraceEntry {
        pc: n,
        opcode: (n % 251) as u8,
        lo: (n % 7) as u8,
        hi: (n % 13) as u8,
        frame_cycles: n.wrapping_mul(31),
    }
}

#[test]
fn constants_of_the_frame() {
    assert_eq!(CYCLES_PER_FRAME, 2_000_000 / 60);
    assert_eq!(INTERRUPT_PERIOD, 16_667);
    assert_eq!(TRACE_LIMIT, 1000);
    assert_eq!(Scheduler::new(), Scheduler { total_cycles: 0, swap_interrupt: false });
}

#[test]
fn frame_of_a_tight_loop() {
    // JMP 0000
    let mut state = machine(&[0xC3, 0x00, 0x00]);
    let mut scheduler = Scheduler::new();
    let mut trace = Trace::new();
    assert_eq!(run_frame(&mut state, &mut scheduler, &mut trace), FrameEnd::Complete(33340));
    assert_eq!(state.get_pc(), 0);
    assert_eq!(state.get_sp(), 0);
    assert_eq!(scheduler, Scheduler { total_cycles: 0, swap_interrupt: false });
    assert_eq!(trace.len(), 1000);
    let entries = trace.take_all();
    assert_eq!(entries.len(), 1000);
    assert_eq!(
        entries[0],
        TraceEntry { pc: 0, opcode: 0xC3, lo: 0, hi: 0, frame_cycles: 23340 }
    );
    assert_eq!(
        entries[999],
        TraceEntry { pc: 0, opcode: 0xC3, lo: 0, hi: 0, frame_cycles: 33330 }
    );
}

#[test]
fn frame_requests_vectors_in_turn() {
    // NOP; JMP 0000: 14 cycles a round
    let mut state = machine(&[0x00, 0xC3, 0x00, 0x00]);
    let mut scheduler = Scheduler::new();
    let mut trace = Trace::new();
    assert_eq!(run_frame(&mut state, &mut scheduler, &mut trace), FrameEnd::Complete(33334));
    // 2381 rounds are 33334 cycles; the first request falls after 16674
    assert_eq!(state.get_pc(), 0);
    assert_eq!(scheduler, Scheduler { total_cycles: 33334 - 16674, swap_interrupt: true });
    // the second frame passes two requests: after 14 cycles, and 16674 later
    assert_eq!(run_frame(&mut state, &mut scheduler, &mut trace), FrameEnd::Complete(33334));
    assert_eq!(state.get_pc(), 0);
    assert_eq!(scheduler, Scheduler { total_cycles: 33334 - 14 - 16674, swap_interrupt: true });
}

#[test]
fn frame_delivers_an_interrupt_between_instructions() {
    // 0000: EI; 0001: JMP 0001; 0008: RET
    let mut image = vec![0u8; 9];
    image[0] = 0xFB;
    image[1] = 0xC3;
    image[2] = 0x01;
    image[8] = 0xC9;
    let mut state = machine(&image);
    state.set_sp(0x2400);
    let mut scheduler = Scheduler::new();
    let mut trace = Trace::new();
    assert_eq!(run_frame(&mut state, &mut scheduler, &mut trace), FrameEnd::Complete(33334));
    assert_eq!(state.get_pc(), 0x0001);
    assert_eq!(state.get_sp(), 0x2400);
    assert!(!state.interrupt_enabled());
    assert_eq!(state.read_mem(0x23FE), 0x01);
    assert_eq!(state.read_mem(0x23FF), 0x00);
    assert_eq!(scheduler, Scheduler { total_cycles: 16660, swap_interrupt: true });
    let entries = trace.take_all();
    assert_eq!(entries.len(), 1000);
    assert!(entries.iter().all(|e| e.opcode == 0xC3 && e.pc == 1));
    assert_eq!(entries[999].frame_cycles, 33324);
}

#[test]
fn frame_uses_vector_two_second() {
    // 0000: EI; 0001: JMP 0001; 0008: EI; 0009: RET; 0010: JMP 0010
    let mut image = vec![0u8; 0x13];
    image[0] = 0xFB;
    image[1] = 0xC3;
    image[2] = 0x01;
    image[8] = 0xFB;
    image[9] = 0xC9;
    image[0x10] = 0xC3;
    image[0x11] = 0x10;
    let mut state = machine(&image);
    state.set_sp(0x2400);
    let mut scheduler = Scheduler::new();
    let mut trace = Trace::new();
    assert_eq!(run_frame(&mut state, &mut scheduler, &mut trace), FrameEnd::Complete(33338));
    assert_eq!(scheduler.swap_interrupt, true);
    assert!(state.interrupt_enabled());
    assert_eq!(state.get_pc(), 0x0001);
    assert_eq!(scheduler.total_cycles, 16664);
    // the request for vector 2 is due after one more jump; the one for
    // vector 1 that follows finds interrupts disabled and is lost
    assert_eq!(run_frame(&mut state, &mut scheduler, &mut trace), FrameEnd::Complete(33340));
    assert_eq!(scheduler, Scheduler { total_cycles: 16660, swap_interrupt: true });
    assert_eq!(state.get_pc(), 0x0010);
    assert!(!state.interrupt_enabled());
    assert_eq!(state.get_sp(), 0x23FE);
    assert_eq!(state.read_mem(0x23FE), 0x01);
    assert_eq!(state.read_mem(0x23FF), 0x00);
}

#[test]
fn frame_stops_at_unimplemented_opcode() {
    // NOP; NOP; opcode 08
    let mut state = machine(&[0x00, 0x00, 0x08]);
    let mut scheduler = Scheduler::new();
    let mut trace = Trace::new();
    assert_eq!(run_frame(&mut state, &mut scheduler, &mut trace), FrameEnd::Unimplemented(0x08));
    assert_eq!(state.get_pc(), 2);
    assert_eq!(scheduler, Scheduler { total_cycles: 8, swap_interrupt: false });
    let entries = trace.take_all();
    assert_eq!(
        entries,
        vec![
            TraceEntry { pc: 0, opcode: 0x00, lo: 0x00, hi: 0x08, frame_cycles: 0 },
            TraceEntry { pc: 1, opcode: 0x00, lo: 0x08, hi: 0x00, frame_cycles: 4 },
        ]
    );
    assert_eq!(run_frame(&mut state, &mut scheduler, &mut trace), FrameEnd::Unimplemented(0x08));
    assert_eq!(state.get_pc(), 2);
    assert_eq!(trace.len(), 0);
}

#[test]
fn trace_keeps_the_last_thousand() {
    let mut trace = Trace::new();
    assert_eq!(trace.len(), 0);
    for n in 0..1000u16 {
        trace.record(entry(n));
        assert_eq!(trace.len(), n as usize + 1);
    }
    trace.record(entry(1000));
    assert_eq!(trace.len(), 1000);
    trace.record(entry(1001));
    assert_eq!(trace.len(), 1000);
    let entries = trace.take_all();
    assert_eq!(entries.len(), 1000);
    for (i, e) in entries.iter().enumerate() {
        assert_eq!(*e, entry(i as u16 + 2));
    }
    assert_eq!(trace.len(), 0);
    assert_eq!(trace.take_all(), vec![]);
}

#[test]
fn trace_entries_come_back_unchanged_and_in_order() {
    let mut trace = Trace::new();
    let first = TraceEntry { pc: 0xFFFF, opcode: 0xFF, lo: 0xFF, hi: 0xFF, frame_cycles: 0xFFFF };
    let second = TraceEntry { pc: 0, opcode: 0, lo: 0, hi: 0, frame_cycles: 0 };
    let third = TraceEntry { pc: 0x1234, opcode: 0x56, lo: 0x78, hi: 0x9A, frame_cycles: 0xBCDE };
    trace.record(first);
    trace.record(second);
    trace.record(third);
    assert_eq!(trace.len(), 3);
    assert_eq!(trace.take_all(), vec![first, second, third]);
}

#[test]
fn blank_video_ram_is_black() {
    let vram = vec![0u8; 7168];
    let pixels = rasterize(&vram);
    assert_eq!(pixels.len(), 224 * 256);
    assert!(pixels.iter().all(|p| *p == BLACK));
    let vram = vec![0xFFu8; 7168];
    assert!(rasterize(&vram).iter().all(|p| *p == WHITE));
    assert_eq!(WHITE, 0xFFFFFFFF);
    assert_eq!(BLACK, 0xFF000000);
    assert_eq!(WIDTH, 256);
    assert_eq!(HEIGHT, 224);
    assert_eq!(DISPLAY_WIDTH, 224);
    assert_eq!(DISPLAY_HEIGHT, 256);
}

#[test]
fn expand_puts_low_bit_first() {
    let mut vram = vec![0u8; 7168];
    vram[0] = 0b0000_0101;
    vram[1] = 0x80;
    vram[7167] = 0x01;
    let buffer = expand(&vram);
    assert_eq!(buffer.len(), 57344);
    assert_eq!(buffer[0], WHITE);
    assert_eq!(buffer[1], BLACK);
    assert_eq!(buffer[2], WHITE);
    assert_eq!(buffer[3], BLACK);
    assert_eq!(buffer[15], WHITE);
    assert_eq!(buffer[14], BLACK);
    assert_eq!(buffer[57336], WHITE);
    assert_eq!(buffer[57337], BLACK);
    assert_eq!(buffer.iter().filter(|p| **p == WHITE).count(), 4);
}

#[test]
fn rotate_turns_a_quarter_left() {
    let buffer: Vec<u32> = (0..57344u32).collect();
    let rotated = rotate(&buffer);
    assert_eq!(rotated.len(), 57344);
    // the top line of the display is the last pixel of every unturned line
    assert_eq!(rotated[0], 255);
    assert_eq!(rotated[1], 256 + 255);
    assert_eq!(rotated[223], 223 * 256 + 255);
    // the bottom line of the display is the first pixel of every unturned line
    assert_eq!(rotated[255 * 224], 0);
    assert_eq!(rotated[255 * 224 + 223], 223 * 256);
    for row in 0..256usize {
        for column in 0..224usize {
            assert_eq!(rotated[row * 224 + column], (column * 256 + 255 - row) as u32);
        }
    }
}

#[test]
fn single_pixels_land_where_the_display_shows_them() {
    let lit = |byte: usize, bit: u8| -> Vec<usize> {
        let mut vram = vec![0u8; 7168];
        vram[byte] = 1 << bit;
        rasterize(&vram)
            .iter()
            .enumerate()
            .filter(|(_, p)| **p == WHITE)
            .map(|(i, _)| i)
            .collect()
    };
    // first byte, lowest bit: left column, bottom row
    assert_eq!(lit(0, 0), vec![255 * 224]);
    // first byte, highest bit: left column, 7 rows up
    assert_eq!(lit(0, 7), vec![248 * 224]);
    // last byte of the first unturned line: left column, top rows
    assert_eq!(lit(31, 7), vec![0]);
    assert_eq!(lit(31, 0), vec![7 * 224]);
    // first byte of the second unturned line: second column, bottom row
    assert_eq!(lit(32, 0), vec![255 * 224 + 1]);
    // last byte, highest bit: right column, top row
    assert_eq!(lit(7167, 7), vec![223]);
}

#[test]
fn draw_screen_reads_video_ram() {
    let mut state = State8080::default();
    state.write_mem(0x2400, 0x01);
    state.write_mem(0x3FFF, 0x80);
    state.write_mem(0x23FF, 0xFF);
    let pixels = draw_screen(&state);
    assert_eq!(pixels.len(), 57344);
    assert_eq!(pixels[255 * 224], WHITE);
    assert_eq!(pixels[223], WHITE);
    assert_eq!(pixels.iter().filter(|p| **p == WHITE).count(), 2);
}

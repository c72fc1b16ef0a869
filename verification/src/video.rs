//! The video rasterizer: video RAM, one bit per pixel, becomes a buffer of
//! 32-bit pixels turned a quarter to the left for display.

use vstd::prelude::*;
use crate::memory::{VRAM_END, VRAM_START};
use crate::state8080::State8080;

verus! {

/// Bytes of video RAM.
pub const VRAM_SIZE: usize = 7168;

/// Pixels in one line of the unturned picture.
pub const WIDTH: usize = 256;

/// Lines of the unturned picture.
pub const HEIGHT: usize = 224;

/// Pixels in one line of the display, once the picture is turned.
pub const DISPLAY_WIDTH: usize = HEIGHT;

/// Lines of the display, once the picture is turned.
pub const DISPLAY_HEIGHT: usize = WIDTH;

/// The pixel of a set bit: opaque white.
pub const WHITE: u32 = 0xFFFF_FFFF;

/// The pixel of a clear bit: opaque black.
pub const BLACK: u32 = 0xFF00_0000;

/// Whether bit `i` of `v` is set, bit 0 being the lowest.
pub open spec fn bit_is_set(v: u8, i: u8) -> bool {
    v & (1u8 << i) != 0
}

/// Pixel `n` of the unturned picture: the bytes of video RAM in order,
/// each giving eight pixels, lowest bit first.
pub open spec fn native_pixel(vram: Seq<u8>, n: int) -> u32 {
    if bit_is_set(vram[n / 8], (n % 8) as u8) {
        WHITE
    } else {
        BLACK
    }
}

/// The pixel shown at `column` and `row` of the display, which is
/// `HEIGHT` pixels wide and `WIDTH` pixels tall: the unturned picture
/// turned a quarter to the left, so that its line `column` runs up the
/// display.
pub open spec fn display_pixel(vram: Seq<u8>, column: int, row: int) -> u32 {
    native_pixel(vram, column * WIDTH + (WIDTH - 1 - row))
}

/// Expands video RAM to the unturned picture, one pixel per bit.
pub fn expand(vram: &[u8]) -> (buffer: Vec<u32>)
    requires
        vram@.len() == VRAM_SIZE,
    ensures
        buffer@.len() == WIDTH * HEIGHT,
        forall|n: int| 0 <= n < WIDTH * HEIGHT ==> buffer@[n] == native_pixel(vram@, n),
{
    let mut buffer: Vec<u32> = Vec::new();
    let mut k: usize = 0;
    while k < VRAM_SIZE
        invariant
            vram@.len() == VRAM_SIZE,
            k <= VRAM_SIZE,
            buffer@.len() == 8 * k,
            forall|n: int| 0 <= n < 8 * k ==> buffer@[n] == native_pixel(vram@, n),
        decreases VRAM_SIZE - k,
    {
        let v = vram[k];
        let mut i: u8 = 0;
        while i < 8
            invariant
                vram@.len() == VRAM_SIZE,
                k < VRAM_SIZE,
                i <= 8,
                v == vram@[k as int],
                buffer@.len() == 8 * k + i,
                forall|n: int| 0 <= n < 8 * k + i ==> buffer@[n] == native_pixel(vram@, n),
            decreases 8 - i,
        {
            let bit: u8 = 1u8 << i;
            buffer.push(if bit & v != 0 { WHITE } else { BLACK });
            assert(bit & v == v & bit) by (bit_vector);
            i = i + 1;
        }
        k = k + 1;
    }
    buffer
}

/// Turns the unturned picture a quarter to the left.
pub fn rotate(buffer: &Vec<u32>) -> (rotated: Vec<u32>)
    requires
        buffer@.len() == WIDTH * HEIGHT,
    ensures
        rotated@.len() == WIDTH * HEIGHT,
        forall|row: int, column: int|
            0 <= row < WIDTH && 0 <= column < HEIGHT ==> #[trigger] rotated@[row * HEIGHT + column]
                == buffer@[column * WIDTH + (WIDTH - 1 - row)],
{
    let mut rotated: Vec<u32> = Vec::new();
    let mut row: usize = 0;
    while row < WIDTH
        invariant
            buffer@.len() == WIDTH * HEIGHT,
            row <= WIDTH,
            rotated@.len() == row * HEIGHT,
            forall|r: int, c: int|
                0 <= r < row && 0 <= c < HEIGHT ==> #[trigger] rotated@[r * HEIGHT + c] == buffer@[c
                    * WIDTH + (WIDTH - 1 - r)],
        decreases WIDTH - row,
    {
        let x: usize = WIDTH - 1 - row;
        let mut column: usize = 0;
        while column < HEIGHT
            invariant
                buffer@.len() == WIDTH * HEIGHT,
                row < WIDTH,
                x == WIDTH - 1 - row,
                column <= HEIGHT,
                rotated@.len() == row * HEIGHT + column,
                forall|r: int, c: int|
                    0 <= r < row && 0 <= c < HEIGHT ==> #[trigger] rotated@[r * HEIGHT + c]
                        == buffer@[c * WIDTH + (WIDTH - 1 - r)],
                forall|c: int|
                    0 <= c < column ==> #[trigger] rotated@[row * HEIGHT + c] == buffer@[c * WIDTH
                        + (WIDTH - 1 - row)],
            decreases HEIGHT - column,
        {
            rotated.push(buffer[column * WIDTH + x]);
            column = column + 1;
        }
        row = row + 1;
    }
    rotated
}

/// The display buffer for a video RAM: `HEIGHT` pixels wide, `WIDTH`
/// pixels tall, line by line from the top.
pub fn rasterize(vram: &[u8]) -> (pixels: Vec<u32>)
    requires
        vram@.len() == VRAM_SIZE,
    ensures
        pixels@.len() == WIDTH * HEIGHT,
        forall|row: int, column: int|
            0 <= row < WIDTH && 0 <= column < HEIGHT ==> #[trigger] pixels@[row * HEIGHT + column]
                == display_pixel(vram@, column, row),
{
    let buffer = expand(vram);
    rotate(&buffer)
}

/// The display buffer for the video RAM of a machine.
pub fn draw_screen(state: &State8080) -> (pixels: Vec<u32>)
    requires
        state.wf(),
    ensures
        pixels@.len() == WIDTH * HEIGHT,
        forall|row: int, column: int|
            0 <= row < WIDTH && 0 <= column < HEIGHT ==> #[trigger] pixels@[row * HEIGHT + column]
                == display_pixel(
                state@.mem.subrange(VRAM_START as int, VRAM_END + 1),
                column,
                row,
            ),
{
    let vram_chunk = state.read_mem_chunk(VRAM_START, VRAM_END);
    rasterize(vram_chunk)
}

} // verus!

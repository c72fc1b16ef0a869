//! An Intel 8080 core wired as the Space Invaders arcade board: the memory
//! bus with its mirror, the instruction interpreter, the shift-register I/O
//! device, interrupt delivery, frame scheduling and the video rasterizer.

pub mod cycles;
pub mod debugger;
pub mod flags;
pub mod input;
pub mod isa;
pub mod laws;
pub mod machine;
pub mod memory;
pub mod scheduler;
pub mod state8080;
pub mod trace;
pub mod video;

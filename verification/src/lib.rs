//! An Intel 8080 core aimed at the Space Invaders arcade board: a bit-pattern
//! instruction decoder, a flag-accurate execution engine over a 64 KiB memory
//! image, and the arcade glue (shift register, button port, sound edges).

pub mod buffer;
pub mod button;
pub mod cycles;
pub mod decode;
pub mod flags;
pub mod machine;
pub mod model;
pub mod pattern;
pub mod registers;
pub mod regs_and_mem;
pub mod shift_register;
pub mod sound;

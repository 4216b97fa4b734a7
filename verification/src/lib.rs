//! An interpreter for the CHIP-8 and Super-CHIP-8 virtual machine.
//!
//! A [`Chip8`] holds 4096 bytes of memory, sixteen registers, a call stack,
//! two timers, a sixteen-key pad and a framebuffer. [`Chip8::step`] runs one
//! instruction and [`Chip8::tick`] counts the timers down; a front end calls
//! both at their own rates, hands over key strokes and presents the
//! framebuffer.
//!
//! What the machine does is fixed by a model: [`model::State`] is the
//! machine as a mathematical value, [`opcode::decoded`] says which
//! instruction a word encodes, and [`model::State::apply`] says what each
//! instruction does to the state. Every function that changes a machine
//! states its result as a function of that model, and [`laws`] proves what
//! holds of the model in general.
//!
//! - [`opcode`]: instruction words, their fields, and decoding.
//! - [`font`]: the built-in glyphs.
//! - [`display`]: the framebuffer, scrolling and sprite drawing.
//! - [`model`]: the state of a machine and the meaning of instructions.
//! - [`machine`]: the machine and the code that runs it.
//! - [`laws`]: general properties of the model.
//! - [`report`]: text renderings of a machine's state.
//! - [`keypad`]: the keyboard keys that stand for the pad.
//! - [`settings`]: clock speed and colours for a front end.

pub mod display;
pub mod font;
pub mod keypad;
pub mod laws;
pub mod machine;
pub mod model;
pub mod opcode;
pub mod report;
mod rng;
pub mod settings;

pub use machine::Chip8;
pub use machine::Fault;
pub use machine::LoadError;
pub use opcode::ByteManip;
pub use opcode::Instruction;

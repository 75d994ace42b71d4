//! An emulator core for the AT&T DMD 5620 terminal: a WE32100 instruction
//! interpreter, its memory and device bus, and the 2681 DUART, each stated
//! as a mathematical model and verified against it.

pub mod bus;
pub mod bus_model;
pub mod clock;
pub mod decode;
pub mod decode_model;
pub mod cpu;
pub mod cpu_model;
pub mod device;
pub mod display;
pub mod dmd;
pub mod duart;
pub mod duart_model;
pub mod err;
pub mod exec;
pub mod exec_model;
pub mod history;
pub mod instr;
pub mod mem;
pub mod mouse;
pub mod ring;
pub mod step;
pub mod switch_laws;
pub mod text;
pub mod utils;

//! A CHIP-8 interpreter core.
//!
//! The crate holds the machine's data (memory, display, registers, call
//! stack), the decoding of opcodes into instructions, and the
//! fetch/decode/execute cycle. Timing, rendering, input and the loading of
//! ROM files are left to the host, which builds an
//! [`executor::Executor`], hands it the program bytes once and then calls
//! [`executor::Executor::execute_once`] as often as it likes, reading the
//! display in between.
//!
//! Every function carries a contract that Verus checks. The contracts are
//! stated over a mathematical model of the machine, [`machine::Machine`],
//! which says what each instruction and each cycle does.

pub mod display;
pub mod executor;
pub mod instructions;
pub mod machine;
pub mod memory;
pub mod registers;

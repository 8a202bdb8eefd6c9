//! State model of a Chip-8 virtual machine: the register file with its
//! program counter and call stack, and the settings of the window that
//! presents the machine's screen.
pub mod display;
pub mod registers;

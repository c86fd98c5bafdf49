//! Execution core of a small CHIP-8-style virtual machine: opcode decoding,
//! instruction semantics and the fetch-decode-execute loop, with every step
//! stated against a mathematical model of the machine.
pub mod decode;
pub mod laws;
pub mod machine;

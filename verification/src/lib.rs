//! Instruction decoding for the BWB16 CPU: every 16-bit instruction word is
//! turned into the 27-bit control word that drives the datapath, and the
//! control words of all instructions form the decode ROM.
pub mod isa;
pub mod decode;
pub mod ctrl;
pub mod encode;
pub mod rom;
pub mod cpu;
pub mod properties;

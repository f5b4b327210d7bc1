//! Verified core of a CMSIS-DAP variable sampler: DWARF debug-information
//! decoding for the ELF variable browser, the mapping of DWARF base types
//! onto sampled value types, and the acquisition control state machine.

pub mod elf;
pub mod pipeline;
pub mod ui;

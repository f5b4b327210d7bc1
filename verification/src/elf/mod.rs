pub mod attr;
pub mod dwarf;
pub mod sections;
pub mod reader;
pub mod types;

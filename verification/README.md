# dap_sampler

The verified core of a CMSIS-DAP variable sampler for ARM Cortex-M targets.

- `src/elf/types.rs` maps DWARF base-type names and sizes onto the value
  types a sampled memory word is decoded as.
- `src/elf/attr.rs` reads the attributes of debugging-information entries
  (constants, type references, strings, file names, fixed addresses); location
  expressions, `.debug_str` lookups and lossy UTF-8 decoding go through gimli.
- `src/elf/dwarf.rs` reduces the entries of a unit, tracks their tree depth,
  and builds the table of addressable variables, the type table and the list
  of source files.
- `src/elf/reader.rs` parses the DWARF sections: it reads the units, their
  file tables, entries and attributes through gimli, one plain value at a
  time, and feeds them to the reduction in `dwarf.rs`; `parse_dwarf_sections`
  is stated over the values gimli reads.
- `src/elf/sections.rs` hands the DWARF loader the bytes of each section.
- `src/ui/controls.rs` is the acquisition control state: which buttons are
  offered, which command a frame yields, and the sample-rate and window inputs.

`app/` draws the control panel with egui and logs, per unit, the variable
counts that parsing reports; every decision is taken by the library.

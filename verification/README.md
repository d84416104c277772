# cmsis_pdsc_parser

Reads [CMSIS Pack Description](https://open-cmsis-pack.github.io/Open-CMSIS-Pack-Spec/main/html/packFormat.html)
(PDSC) files into Rust data structures. The parts of the format that hold
free text of their own — debug variables, debug access statements and
expressions, debug sequences and flash information — are read by parsers
whose results are stated in Verus contracts and proved.

## Layout

- `src/` — the library, verified with Verus.
  - `debug_access.rs`: statements and expressions of debug sequence blocks;
    their grammar as spec functions (`parse_statement`, `parse_expression`,
    `split_args`, ...), the parsers proved against it, and the printer proved
    against `expression_text`.
  - `family.rs`: the family element; debug variables (`debugvars_of`),
    sequences (`sequence_from_node`, ...) and flash information read from
    XML nodes; the data types of devices, processors, memories and so on.
  - `xml.rs`: the XML node that the element readers work on, and the reading
    of attribute values.
  - `text.rs`, `number.rs`: characters, trimming, splitting and numbers.
  - `pdsc.rs` and the other modules: the data types of the rest of the
    format, and `Package::new`, which completes a package read from a
    document.
- `app/` — the program: reads a PDSC file, lets serde fill the data types
  (through copies of them that carry the serde derives), and hands the
  element contents to the library.
- `tests/` — tests of the library.

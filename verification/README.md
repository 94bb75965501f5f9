# opencadcodec

Document-model pieces of a CAD codec, written in Verus: the functions in
`src/` are verified by Verus, and their public behaviour is stated in
`requires`/`ensures` contracts.

Layout:

- `src/objects/` — XRecords (entries, sections, mesh texture coordinates,
  viewport overrides, object references), dictionaries and solid-history
  objects, with the laws that relate their setters and getters.
- `src/entities/` — entities, proxy-graphics records (encode and decode with
  round-trip laws) and embedded entity bodies.
- `src/document.rs`, `src/tables.rs`, `src/xdata.rs` — the document, its
  symbol tables and extended data, with the handle discipline (`handles_wf`).
- `src/drawing_variables.rs`, `src/hatch_origin.rs`, `src/nested_copy.rs`,
  `src/localize.rs` — drawing variables, hatch pattern origins and the
  renaming of symbols copied from nested drawings.
- `src/io/` — read statistics and diagnostics, and the records kept in
  extension dictionaries for formats without native slots: loft settings,
  lofted-surface inputs and surface history links (store, restore, and the
  copying of shared extension dictionaries).
- `app/` — serde-enabled copies of library types and the geometry helpers
  that need floating point.
- `tests/` — tests run against the compiled library.

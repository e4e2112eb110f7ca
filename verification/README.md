# dbview

A read-only explorer for SQLite database files: it lists tables, shows their
structure and records, computes column statistics, describes in words what a
table and its columns hold, and draws distributions.

## Layout

- `src/` is the verified library.
  - `text.rs`: character-level text helpers (search, joining, UTF-8 byte
    lengths, shortening text at a byte limit with an ellipsis).
  - `numbers.rs`: decimal rendering of integers, and counts with thousands
    separators (through `num-format`).
  - `db.rs`: quoting of SQL identifiers (with the proof that a quoted name
    reads back exactly and cannot end early), the statements the explorer
    sends (with the proof that each is one SELECT or PRAGMA statement: no
    semicolon outside quotes, every quote closed, and a mean spliced in only
    as the text a floating-point number displays as), and the rendering of
    cell values.
  - `schema.rs`: column, index and table metadata, the reading of pragma
    rows, and the description of what a column holds.
  - `stats.rs`: the statements behind column statistics and the choice of
    numeric or text statistics (`stats_kind`).
  - `display.rs`: what each command shows, as text ready to print: the list
    of tables (or the notice for an empty database), a table's structure and
    description, a page of records (or the notice for an empty page), the
    overview of the database, and the labels of a distribution chart.
  - `viz.rs`: the counting behind a histogram (the notice for a column
    with no numeric value, clamping into the last bin, the counts per bin,
    the largest count).
  - `error.rs`: the errors the library's decisions produce.
- `app/` is the command-line program around it: argument parsing, the
  queries on the SQLite file, floating-point statistics and charts, and
  coloured output.
- `tests/` runs the library on concrete values.

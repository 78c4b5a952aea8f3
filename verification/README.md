# LitePack

A ZIP / 7z archive tool whose decisions are proved with Verus.

- `src/` is the verified library: format recognition (magic bytes, then extension),
  archive-bomb limits, safe output paths, the naming of sources, the step-by-step plans
  of compression and extraction, the mapping of the archive crates' failures to the
  library's errors, and the decisions of the command-line, desktop and Explorer-menu
  front ends. Contracts are stated over `Seq`, `Set` and spec functions; the laws
  (`safe_join_stays_inside`, `extraction_stays_inside`, `bomb_refusal_persists`,
  `signature_precedes_extension`, `extension_case_insensitive`,
  `compression_reports_follow_the_sources`, `absolute_path_is_absolute`, and the registry
  laws) are public proof functions.
- `app/` is the `litepack` command-line program. It reads the archives and the file
  system with the `zip`, `sevenz-rust2` and `walkdir` crates, hands the library plain
  values, and carries out each step the library decides on. `app/desktop.rs` holds the
  worker-thread side of the desktop page's commands.
- `tests/` runs the library on concrete values.

Paths are handled as text with `/` as the separator, as `std::path` does on Unix; a source
to compress is made absolute against the working directory that `app/` reads.

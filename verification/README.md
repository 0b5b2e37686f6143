# Phanerite

The state, rules and presentation decisions of the Phanerite Minecraft
launcher, written in Verus. The functions of `src/` carry contracts that
Verus proves, except the few wrappers around `std` and `zstd` calls (marked
`#[verifier::external_body]`), whose contracts are believed as their
documentation states them.

## Layout

- `src/route.rs` — pages, storage-scoped references and the bounded
  navigation history, with the laws of push and back.
- `src/state/` — the stores (instances, accounts, settings, sessions, launch
  jobs, crash reports) whose revision advances exactly when their content
  changes, the launch settings and their per-instance overrides, and crash
  report redaction.
- `src/pages/`, `src/components/` — what the pages and dialogs show and what
  their controls change: filters, labels, prepared crash reports, form
  validation, imports, instance actions.
- `src/components/instance_icon.rs` — the deterministic crystal artwork: the
  seed hash, the pseudo-random stream, prism rasterization and hole filling.
- `src/window.rs` — the client-side window frame: insets, corners and resize
  bands.
- `src/theme.rs`, `src/palette/` — the palette and the paint each theme role
  takes under an accent.
- `src/assets/` — the icon set and the serving of bundled (and zstd
  compressed) files.
- `src/launcher.rs` — the launcher's state at start-up.
- `src/seed.rs` — the seeded gallery data.
- `app/` — a command-line front: terminal rendering of the artwork (whose
  random rolls are floating point), saving reports, reading asset files.
- `tests/` — tests of the library on concrete values.

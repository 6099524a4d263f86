# omarchy_lib_theme

The theming library for Omarchy applications: a theme's colors read from its `colors.toml`, the
palette an application draws with, the six treatments a theme can be read through, and the
plain values the C bridge hands across.

## Layout

- `src/` — the verified library.
  - `theme/` — `Rgb` and its `#rrggbb` form, `Mode`, `ThemeColors` and its hue families,
    `ThemeError`, and the reader's decisions: the 64 KiB cap, UTF-8, the TOML document, the
    `mode` key and every color key, composed into a `Theme` by `theme_from_text`. `toml` is
    called from `theme/document.rs` only.
  - `color/` — the roles, content levels, deposits and states.
  - `modes/` — the treatments, the mode each resolves a theme to, and the mappings over a theme's
    colors.
  - `api/palette.rs` — `PaletteSeed` and `Palette`: a palette is the theme it was resolved from and
    the treatment it is read through, so re-reading it through another treatment never stacks.
  - `api/bridge.rs` — the values of the C ABI, the fixed orders its indices are read against, the
    names it gives, the snapshot, and the bytes an error message leaves in a caller's buffer.
- `app/` — the `extern "C"` name functions and `#[repr(C)]` layouts, reading the theme file
  from disk (`read_theme`, `read_active_theme`, `from_path`, `from_active_theme`), and the error
  as a `std::error::Error`.
- `tests/` — the tests, run against the compiled library.

The tonal color science — tones, separations, ramps, readable content, the role resolution and
the color transforms of five of the treatments — works in floating point and is not part of this
crate, in `src/` or `app/`. Where the library needs its results, it takes them as arguments:
`represent`'s `recolor`, `PaletteSeed::new`'s `Derived`, `with_error`'s shades, and `snapshot`'s
resolved roles and contents. Nothing here produces those values; a palette's color roles, its
deposits and its tonal ramps are not available from this crate.

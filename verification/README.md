# ubiart_toolkit

Parsers and writers for the cooked files of the UbiArt engine, as the Just
Dance games store them, with their behaviour stated in `requires`/`ensures`
contracts and proved by Verus.

- `src/` is the verified library. `layout` describes binary formats as runs
  and lists of big-endian fields, with spec functions that say what decoding
  gives and readers proved to agree; `encode` says what writing gives and
  proves that reading back a write gives the fields again.
  - `act`: actor files, their components and carousels; the writer and the
    round-trip laws.
  - `isc`: scenes. The binary scenes of Just Dance 2015 are parsed, with
    sub-scenes nested to any depth. The XML scenes of the later games are
    neither read nor written.
  - `gtx`, `png`: GFD textures of the Wii U and cooked textures of the Switch.
  - `sgs`, `json`: the framing of scene settings and cooked JSON files, and the
    scene settings themselves.
  - `isg`: the objectives of the game configuration.
  - `dlcdescriptor`, `utils`: DLC descriptors, game versions, split paths and
    interned strings.
- `app/` holds what the library leaves to ordinary Rust: the JSON text (serde),
  the de-tiling of Wii U textures (wiiu_swizzle), and writing to `std::io`.
- `tests/` runs the library on concrete files.

# leafish

The verified core of the Leafish Minecraft client: the logic that decides
what the client shows and sends, with each function's behaviour stated in a
contract and proved by Verus.

## Layout

- `src/` — the verified library.
  - `chunk_builder` — which faces of a chunk section can be seen through
    which (flood fill over the section's open cells), and the seed of a
    section's random generator.
  - `console` — console variables, their registry and configuration file,
    log levels; `console::text` the textual forms of values;
    `console::logging` how log records are filtered, formatted and kept.
  - `chat` — the chat log and the message being written.
  - `inventory` — window types, item clicks, the state of each kind of
    window (anvil, beacon, brewing stand, chest, crafting table, enchanting
    table, furnace, grindstone), the screens' shared state, materials.
  - `entity` — entity kinds, their protocol ids, and block digging.
  - `resources` — resource packs, the asset index, download progress.
  - `render` — the element buffer that draws quads as triangle pairs.
  - `accounts`, `auth`, `direction`, `key`, `player_like`, `version`.
- `tests/` — tests on concrete values.
- `app/` — the program around the library: logging to file and terminal,
  the configuration and accounts files, downloading and unpacking
  resources.

Run Verus on `src/lib.rs` to check the proofs.

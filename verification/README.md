# scratch-io

A client for itch.io games: it talks to the itch.io API, downloads and
installs uploads, finds and launches their executables, and reads and
applies wharf files (signatures and patches).

The library under `src/` is written in Verus: its functions carry contracts
that the verifier checks.

- `src/wharf/`: the wharf binary formats (protobuf framing, headers,
  containers, signatures and patches, block-by-block verification and patch
  application).
- `src/itch_api/`: API addresses and headers, paged lists, error
  classification, login and OAuth (PKCE) helpers, and the data types.
- `src/heuristics.rs`: the rating of candidate game executables and the
  breadth-first search over an upload's folders.
- `src/download.rs`, `src/game_files.rs`, `src/filesystem.rs`,
  `src/extract.rs`, `src/launch.rs`, `src/config.rs`: the decisions behind
  downloading, resuming, installing, moving, removing and launching.
- `src/text.rs`: decimal and hexadecimal text, ASCII case helpers.

`app/` is the command line program around the library: network and file
I/O, JSON and TOML, archive extraction and process spawning. `tests/`
exercises the library on concrete values.

# danmuji

A plugin toolkit for B站弹幕姬 (`copyliu/bililive_dm`), with its core written
in Verus and verified.

- `src/` is the verified library:
  - `model`, `ffi`, `host`, `plugin`: the events a plugin receives, their
    plain-value form at the .NET bridge and the conversion between the two,
    the plugin trait, and the protocol for reading strings from the host.
  - `version`: numeric SDK tags, their order, the latest tag of a
    `git ls-remote` listing, and the `.danmuji-version` file.
  - `hashing`, `overlay`: SHA-256 cache keys and the single-file plugin
    format (bridge, native DLL, checksum, length, version, magic).
  - `bridge`, `project`: the decisions of `cargo danmuji` — cache layout,
    MSBuild projects, SDK checkout steps, version upgrades, new-project
    files, package selection and the `cargo build` command line.
  - `example`, `sample`: the two bundled plugins, as functions from events
    to host calls.
  - `text`: trimming, splitting and number formatting used by the above;
    `paths`: what a path's text says on every platform (plain absolute
    paths and their parents).
- `app/` is the `cargo danmuji` program and the C side of the bridge
  (`#[repr(C)]` layouts, the host callback table, `export_plugin!`).
  It does the file, process and FFI work and leaves every decision, and
  the text of every error message of the tool's own rules, to the library.
- `tests/` exercise the library on concrete values.

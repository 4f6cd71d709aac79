# pydrop

A portable Python runner and packer. The library under `src/` holds the parts
that decide and compute, each with a contract proved by Verus:

- `embed` — the trailer format of a script packed behind the executable for the
  RustPython engine (marker, eight-byte little-endian length, script), the
  backward search that finds it again, and the round-trip law between the two.
- `imports` — which packages a script imports, from the matches of the import
  pattern: each name once, in the order of first use.
- `pth` — recognising a runtime's `._pth` path files and uncommenting
  `import site` in them.
- `bundle` — the engine marker of a zip-packed executable, which bundle entries
  to unpack, which script to start and with which arguments, and the exit
  status passed on.
- `launch` — what a start does (embedded script, packed bundle, default shell
  or command), which runtime a command uses, and the pip argument lists.
- `config` — the build settings.

`app/` is the command-line program around the library: argument parsing,
downloads, the file system, zip archives and child processes.

# heic-convert

A small desktop tool that converts HEIC/HEIF photos to JPEG or PNG with the
operating system's own codecs (WIC on Windows, `sips` on macOS).

- `src/` is the verified library (Verus): the conversion of one file as a
  state machine (`convert`), the search for an output name that never
  overwrites a file (`search`), the Explorer right-click menu's registry plan
  (`context_menu`), the pure parts of both platform converters (`platform`),
  the command line and the window's replies (`cli`), and text helpers.
  Disk, registry, codec and process work is asked for by the machines and
  done by the caller.
- `app/` is the program around it: the Tauri window, the command line entry,
  the file-system and registry calls, and the WIC/`sips` converters.
- `tests/` exercises the library on concrete values.

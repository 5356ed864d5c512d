# tvconvert

The logic of a small desktop app that converts videos for TinyTV players.

- `src/` — the library, with its contracts and proofs: output stems (`stem`), path helpers
  (`paths`), file metadata (`metadata`), ffmpeg command lines for the `.avi`
  conversions and the preview frame grab (`convert`), and the preview image
  pipeline, RGB frame to opaque RGBA to PNG to base64 (`screenshot`).
- `app/` — the Tauri commands: file system access, running ffmpeg, and the
  serde copies of the library's types.
- `tests/` — tests of the library on concrete values.

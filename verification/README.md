# j3pic

The image-viewing rules of the j3Pic image viewer, written in Verus with
their contracts proved: EXIF orientation and view rotation, pixel buffers and
their upright copies, folder navigation, keyboard and mouse commands,
animation playback, decode bookkeeping, the render, frame and preload caches
and the memory policy over them, export settings, file names and export
pixels, the settings file format, and the status and information texts.

Layout:

- `src/` is the verified library. Each module states what its functions
  return over spec functions and views; laws that relate several functions
  (a settings file reads back what was written, a step forward and a step
  back return to the start, eviction orders are unique, ...) are public proof
  functions next to the code they speak of (`config_laws` and
  `config_layout` for the settings file). The viewer's state machine is
  split into functions over explicit state: what a finished decode, scan or
  animation frame does (`decode_results`, `animation_frames`), what is decoded
  ahead (`preloading`), how the caches are held to the memory policy
  (`cache_policy`), what is drawn (`display`), what new settings invalidate
  (`config_apply`) and what an export writes (`export_request`).
  `viewer_core` holds the viewer's state between events and the steps over
  it: showing a decoded image, rotating, taking new settings, starting a
  decode and holding the caches to the memory policy. `viewer_error` gives
  the viewer's own failures their messages. Image
  resizing is done by the `image` crate behind a few trusted wrappers in
  `src/resample.rs`.
- `app/` is ordinary Rust around the library: the parts that work with
  floating-point numbers (zoom, pan, fitting an image to the window, the
  fractional settings and the profile table), and `app/viewer.rs`, which
  drives the verified viewer state for the window, keeping the zoom and pan
  beside it and handing file access to its caller.
- `tests/` runs the library on concrete values.

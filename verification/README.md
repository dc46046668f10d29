# vspreview_rs

The frame logic of a VapourSynth script previewer, verified with Verus.

- `src/` — the verified library: which output and frame are shown, when a
  frame is rendered again, how the keyboard seeks and switches outputs, and
  how a finished reload or render is taken in. Background jobs are held as
  opaque handles (`F` for a frame, `R` for a reload), so the library decides
  and the application runs them.
  - `filter.rs` — the resampling filter setting.
  - `input.rs` — the keys read per UI frame and the seek arithmetic.
  - `outputs.rs` — output keys and the fallback to the first output.
  - `previewer.rs` — the previewer state, its model and its steps.
  - `laws.rs` — properties that span several steps.
- `app/` — the eframe application: drawing, input reading, threads and
  promises, and the floating-point zoom and scroll handling.
- `tests/` — tests of the library.

# sysvoice_rec

A desktop recorder for system audio (Windows WASAPI loopback, or the default
input device elsewhere) that saves WAV, FLAC, MP3, AAC or Opus. Compressed
formats are produced by ffmpeg in two passes, normalising loudness to
-14 LUFS and then applying the chosen volume (0–200%).

## Layout

- `src/` — the verified library (Verus).
  - `encoder/` — output formats and the two-pass encoding as a sequence of
    steps (`EncodeJob`); `loudnorm` reads ffmpeg's loudness report;
    `analysis_output` proves that the report ffmpeg prints is read back
    exactly.
  - `recorder.rs` — the window's state and how every event changes it.
  - `recording.rs` — file names, clean-up of stale temporary files, and the
    choice of conversion when a recording stops.
  - `settings.rs` — settings, defaults and where ffmpeg is looked for.
  - `ffmpeg_manager.rs` — progress messages of the ffmpeg download.
  - `paths.rs` — file-system paths, carried through as opaque values.
  - `text.rs` — searching and decimal formatting over characters.
- `app/` — the program around the library: egui window, audio capture,
  threads, ffmpeg processes, the settings file and the download.
- `tests/` — tests of the library.

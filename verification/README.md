# hearit

The key that speaks: select text anywhere, press F10, and a local voice
engine reads it aloud.

- `src/` — the verified library (Verus): the speak key's debounce
  (`hotkey`), take tokens (`session`), the voice engine's launch and
  warmup (`sidecar`), its wire protocol (`synth`), the audio tap, sample
  ring and playback watch behind the pill (`speak`), the companions'
  lookup order (`paths`), clipboard polling (`grab`), tray commands
  (`tray`), the pill's placement (`pill`), and the two ledgers' formats
  (`gaplog`, `diag`).
- `tests/` — tests of the library.
- `app/` — the Tauri host: commands, hotkey registration, clipboard,
  audio output and FFT, the sidecar process, settings, tray and updater.

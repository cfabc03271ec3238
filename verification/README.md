# tongyi_translator

A Windows tray utility that translates the text of the focused input field in
place (default target: Simplified Chinese) when a global hotkey is pressed.

The crate is split in two:

- `src/` — the library, verified with Verus. It holds the settings and their
  defaults, the engines (request building and reply reading for DeepL and
  Google, the Marian worker protocol, the Windows Language Pack placeholder),
  the engine router, the greeting phrasebook, the step machine of the
  translation hot path with its safety laws (paste only into the window that
  passed the focus check; the clipboard is restored before any run ends once
  it was saved), the tray and menu decisions, hotkey flags, key strokes, and
  the texts of notifications and log lines.
- `app/` — the Win32 program around it: message loop, tray icon, hotkey
  registration, clipboard and keyboard input, HTTP and the Python worker,
  TOML settings file, log file and toasts. It asks the library what to do and
  performs it.

Module map of `src/`: `text` (trimming, UTF-16, decimal formatting),
`config`, `engine` (`router`, `deepl`, `google`, `marian`, `windows_lp`),
`translator` (phrasebook, single-flight guard, hot-path machine and its laws),
`hotkey`, `input`, `clipboard`, `logger`, `ui` (`notification`, `tray`),
`window` (menu commands, tray clicks, hotkey presses, balloons).

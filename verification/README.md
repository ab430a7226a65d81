# ait

A Windows tray translator for selected text: press a hotkey, the selected
text is taken (from the focused control, else through the clipboard) and
translated, with the built-in Google endpoint or an OpenAI-compatible chat
completions service.

## Layout

- `src/` is the library, checked with Verus. Every function there carries a
  contract, and the properties that span functions are stated as proof
  functions named `law_*`.
  - `config`: translator profiles and settings (defaults, repair after
    loading, adding, deleting and choosing profiles).
  - `hotkey`: reading and writing hotkey texts such as `Ctrl+Alt+E`.
  - `secret`: the base64 form in which protected keys are stored.
  - `startup`: the auto-start entry and its registry encoding (UTF-16).
  - `update`: release versions and the update message.
  - `translator`: requests, answers and error messages; the Google and chat
    completions protocols (addresses, prompts, status codes, answer shapes).
  - `capture`: the decisions around taking the selected text.
  - `app`: the translation workflow, the running state, hotkey and tray
    decisions.
  - `ui`: colors, layouts and reactions of the translation and settings
    windows and their controls.
  - `diagnostics`, `logging`, `command`, `json`, `text`, `error`.
- `app/` is the program: logging to files, the settings file, HTTP requests,
  the clipboard and UI Automation, DPAPI, the registry, and on Windows the
  tray icon, the translation and settings windows (`app/ui`) and the message
  loop (`app/shell.rs`), all driven by the library's decisions.
- `tests/` runs the library on concrete values.

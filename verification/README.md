# huali_mascot

The policy core of a desktop assistant whose mascot, todo panel, context menu
and notification card are separate transparent WebView windows. Everything
under `src/` is verified with Verus; `app/` is the Tauri desktop shell around
it (window, process and file I/O, floating-point layout in logical pixels).

Modules of the library:

- `runtime_health`, `recovery_windows`, `session_observer`: when a stalled or
  crashed WebView renderer is reloaded or its window recreated, how the repair
  budget is spent and restored, which renderer instances and probe answers are
  accepted, how session and power events reset the watch, and which window
  snapshots are restored once a rebuilt window has mounted.
- `overlay_state`: generation-numbered show/hide state machines of the
  notification card and the context menu, so that a delayed or superseded
  request can never show a window the user already dismissed.
- `auth_callback`, `callback_diagnostics`: recognising the
  `huali-ai-mascot://auth-callback` activation on the command line, its query
  values, the bounded arrival-ordered queue of pending callbacks, and what the
  diagnostics log records about a callback URL.
- `smoke_receipt`: the fields a release smoke receipt records (presence flags
  only, never callback values) and their merge into the stored JSON receipt,
  through `serde_json` calls whose contracts are trusted.
- `placement`, `desktop`: physical-pixel placement of cards, menu and docked
  mascot around the avatar, rectangle arithmetic, hover and drag monitors.
- `*_laws`: the properties the modules keep across calls, stated and proved.

`tests/` runs the library on concrete scenarios.

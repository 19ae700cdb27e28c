# adufa

Per-application audio output routing for Windows: a tray program that lists
the applications playing audio, sends each one to the output device it
belongs on, remembers those routes across restarts, and controls each
application's volume and mute state.

The decision logic is a library verified with Verus:

- `engine`, `model`, `identity`, `keyed`: the platform-independent routing
  engine (stored intent, fallback to the system default, failure notices),
  with its laws in `engine_laws`.
- `audio`, `volume`, `routing`, `route_store`, `runtime`, `process_identity`:
  grouping audio sessions into applications, the per-process routing calls
  and their answers, the route configuration, and restoring saved routes.
- `popup`, `popup_input`, `layout`, `selector`, `locator`, `taskbar`,
  `cursor`, `tray`, `hotkeys`, `icons`, `i18n`, `startup`, `symbols`,
  `theme`: the popup's model and layout, keyboard and pointer handling, the
  output selector, the Sound Locator, taskbar icon matching and the
  interface texts.
- `probe`: the argument handling and naming rules of the session probe.
- `text`, `geometry`: character sequences, numbers and rectangles.

`app/` is the Windows program around the library: COM audio discovery, the
routing and volume calls, files, and the native windows. `tests/` exercises
the library on concrete values.

# VeneClicker

An auto-clicker for Windows. The library (`src/`, verified with Verus) holds
its logic: the settings and their `config.txt` text format, keybind tokens and
their display, hotkey registration codes, what key presses and releases do,
the click workers' decisions, and the small computations behind the Windows
queries. `app/` holds the program around it: the egui window, the global key
listener (rdev), the Win32 hooks and calls, threads and file I/O.

Modules of the library:

- `text`: trimming, searching, splitting, joining and decimal numbers over
  character sequences.
- `config`, `config_laws`: settings, their ranges, the stored text, and the
  laws that reading back what was stored gives the settings.
- `keybind`, `hotkey`, `input`, `ui`: keybind tokens, Win32 hotkey codes, the
  key listener's decisions, and keybind capture from the window.
- `clicker`, `runtime`, `mouse_hook`, `win`: click worker decisions, the
  debounced on/off toggle, hook events and process names.

# topbar

A macOS-style menu bar for Windows 11, with its logic written in Verus and
proved against its contracts.

## Layout

- `src/` is the verified library:
  - `config`, `settings`: the configuration and the module layout (turning
    modules on and off, where a module goes, centering the clock);
  - `modules/`: the bar's modules (clock, battery, volume, network, media,
    weather, disk, clipboard, Bluetooth, night light, keyboard layout,
    uptime, active window, app menu, system information, GPU), one type
    that holds any of the bar's default modules, and the registry that
    keeps them by id;
  - `pointer`, `layout`: hovering, clicking and dragging modules to reorder
    a side, and where each module goes on the bar given its width;
  - `menus`: the context menu, each module's menu, and what a command does;
  - `quick_search`, `search`: the quick search box and the file index it
    searches, with ranked results;
  - `hotkey`, `tray`, `dropdown`, `preview`, `effects`, `theme`, `icons`:
    hotkey parsing and bookkeeping, the tray menu, dropdown geometry, file
    previews, window effects, colors and themes, icon glyphs;
  - `text`, `utils`, `json`: text helpers, formatting, geometry and a small
    JSON value model, read from text with `serde_json`.
- `app/` is the program around it: reading and writing the configuration
  file, querying the system, fetching the weather, the floating-point
  parts (DPI scaling, animations, color mixing, relevance scores, and the
  CPU, memory and GPU readings, which the system information and GPU
  modules receive as printed text), and a loop that prints the bar.
- `tests/` runs the library on concrete values.

The Win32 window, drawing, registry and shell calls are not part of this
crate; the library holds the decisions around them (which menu a click
opens, what a command changes, how a drag reorders modules, when the night
light toggle is checked) as functions from state and event to state and
action.

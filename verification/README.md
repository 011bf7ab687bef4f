# virtual_desktop_terminal

A Windows tool that gives Ctrl+Alt+F2 to F6 a terminal each on its own
Win32 desktop (Ctrl+Alt+F1 returns to the starting desktop). Each terminal is
a ConPTY `cmd.exe` drawn full-screen by a GDI window; its output goes through
the `vt100` emulator.

- `src/` is the verified library (Verus):
  - `wide.rs`: UTF-16 for the wide-character API, lossy UTF-8 of typed units,
    fixed-size wide buffers.
  - `palette.rs`: the xterm 256-colour palette and colour packing.
  - `keys.rs`: escape sequences of navigation and function keys.
  - `screen.rs`: the `vt100` boundary and plain-value screen snapshots.
  - `render.rs`: a snapshot turned into drawing commands.
  - `terminal.rs`: the terminal window's messages, state and decisions.
  - `desktops.rs`: the controller's messages, hotkeys and desktop table.
  - `messages.rs`: error texts.
- `app/` is the Win32 program around it: windows, desktops, the pseudo
  console, threads and GDI painting. It needs the `windows` crate, which only
  has content on Windows targets.
- `tests/` runs the library on concrete inputs.

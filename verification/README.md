# hyper-sync

LED sync daemon for Skydimo strips (USB serial, `Ada` frames), with a
terminal control panel and a tray icon.

- `src/` is the verified library: the serial frame, the strip layout,
  colour strings, the runtime configuration and its paths, the daemon's
  request handling and restart decisions, the control panel's state, the
  tray's toggle and icon, install/uninstall steps, pixel sampling of
  captured frames and the screen-capture worker's state machine. Every
  function carries a contract proved by Verus; the only calls into other
  code without proof are `String::push` and the `image` crate's PNG
  decoding and scaling.
- `tests/` exercises the library on concrete values.
- `app/` is the program around it: command line, Unix-socket IPC (JSON),
  TOML configuration files, the serial port, the floating-point colour
  arithmetic of the effects, the terminal UI and the tray. Screen capture
  and the audio monitor need PipeWire and are left out of this build.

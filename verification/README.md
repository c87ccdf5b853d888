# keepawake

The logic of a Windows tray tool that keeps the machine awake, the display
on and the network up, and presses F15 now and then against idle locks.

- `src/` — the verified library:
  - `text` — trimming, decimal parsing and printing, UTF-16 encoding
  - `lang` — the interface language and the table of interface texts
  - `config` — the settings and the `config.ini` format, read and write
  - `cli` — the command line
  - `status` — the state shared by tray, settings window and timer
  - `timer` — when to renew the keep-awake request and when to press F15
  - `brightness` — the WMI script, its answer, the report to the user
  - `power`, `clock`, `settings` — request flags, time stamps, the settings form
  - `sizes` — the status line and tray tip stay within 400 bytes
- `app/main.rs` — the program: tray and settings window (native-windows-gui),
  registry (winreg), Win32 calls, files, threads.
- `tests/` — tests of the library.

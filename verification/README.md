# wg-tui, verified core

A terminal manager for NetworkManager WireGuard and VPN profiles. The logic of the program
lives in a library that Verus verifies; a thin program around it runs the terminal, the
commands and the network lookups.

- `src/text.rs`: trimming, searching, `lines`, `:`-separated fields and `i32` parsing on text.
- `src/theme.rs`: colour strings (`#rrggbb`), the theme file's configuration, the Mocha theme.
- `src/profiles.rs`: profiles read from `nmcli -t` listings; the `nmcli` arguments and status
  lines of switching, defaulting and importing profiles.
- `src/files.rs`: file extensions and stems, the configuration files offered for import.
- `src/app.rs`: the application state, its transitions on keys and events, and their laws.
- `src/layout.rs`: the parts of the screen and the centred popup, divided by ratatui's layout solver.
- `src/view.rs`: the texts and colours that the screen shows for tabs, rows, titles and the status bar.
- `app/`: the terminal program (crossterm, ratatui drawing, tokio tasks, `nmcli`, `ping`,
  the GeoIP lookup, the theme file).
- `tests/`: tests of the library on concrete values.

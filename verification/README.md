# keycounter

KeyCounter counts key presses, mouse clicks, wheel turns and pointer travel on
Windows, stores them in SQLite and shows them in a local web dashboard with a
keyboard heatmap and a tray icon.

The crate is split in two:

- `src/` is the library, written in Verus and verified: key naming (`keys`), the
  hook state machine (`hooks`), date ranges (`model`), request routing and query
  decoding (`server`, `query`), the hourly and daily trend series and the daily
  totals table (`trend`), the batching decisions of the database writer (`writer`), the
  heatmap layout and key lookup (`layout`, `heatmap`), the CSV export format
  (`export`), the settings rules and the reading of the settings file and request
  bodies (`settings`), autostart toggling (`autostart`)
  and the tray and window decisions (`ui`).
- `app/` is the program around it: the Windows hooks and message loop, the
  SQLite store, the HTTP server, drawing the heatmap picture, the tray icon and
  the web view window. It calls the library for every decision listed above.

`tests/` exercises the library on concrete values.

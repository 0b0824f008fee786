# usage_monitor

The logic of a small Windows popup that shows how much of several AI providers' quotas
is used, written in Rust and verified with Verus.

`src/` is the verified library. It never touches the system: each function takes the
state and what the system reported, and gives back the new state and the list of
effects to carry out.

| Modules | What they hold |
| --- | --- |
| `numbers`, `time`, `text`, `strings` | readings in millionths, clock ticks, texts, languages |
| `models`, `poll`, `polling` | quotas, outcomes of a poll, what a finished poll changes, timers |
| `cells`, `pace`, `rows`, `state` | what each cell shows, pace guidance, which rows are visible |
| `geometry`, `placement`, `pointer` | sizes at a DPI, where the window stands, dragging and resizing |
| `theme`, `draw`, `paint` | colors and the drawing commands of the popup |
| `settings`, `names`, `json`, `settings_file` | preferences and the settings file |
| `menu`, `commands`, `events`, `updates`, `startup`, `effects` | menu, commands, messages, updates, start |

Only reading or skipping one JSON value and writing a JSON object with `serde_json` are
trusted (`json.rs`). The contracts there say what is claimed of these calls; putting the
values together to a record of settings is verified.

`app/` is the Windows program around the library. It builds on Windows only, since the
`windows` crate is empty elsewhere, and it leaves polling, updating, localization and
the tray icon to an implementation of its `Services` trait.

`tests/` runs the library on concrete values.

# wwise_rank

The logic of a desktop overlay that watches a Wwise authoring session over
WAAPI and turns the user's activity into a score, written in Verus.

- `src/` is the verified library: the known topics and their built-in scores
  (`topics`), the user settings and how loaded settings are completed
  (`settings`), the score/counter map (`score_table`), the running state and
  how events, ticks and resets change it (`state`), the connection
  configuration and back-off (`config`), decimal text (`text`), the ports to
  probe and the WAAPI address (`ports`), and the background monitor as a
  state machine (`monitor`). `uris` hands out the topic constants of
  `waapi_rs`.
- `app/` is the Tauri application around it: commands, JSON files, the
  WAAPI client and the asynchronous loop that performs the monitor's actions.
- `tests/` runs the library on concrete values.

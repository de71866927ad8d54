# turbopack-cli-dev

The decisions behind the `turbopack dev` command, verified with Verus.

- `src/` is the library. It holds the settings of a development server (`builder`), the search for
  a port (`port_search`), the plan of what is served (`source`), the URL of the server (`address`),
  how the command starts it (`start`) and what it tells the terminal (`progress`, `style`, `text`),
  and when a profiled process ends (`profile`). All of it computes on plain values.
- `app/` performs what the library decides: it listens, serves, prints and opens the browser. It
  needs the `turbo*` crates of the workspace around it, and the command line tool's modules
  `arguments`, `contexts`, `turbo_tasks_viz`, `util` and `web_entry_source`.
- `tests/` runs the library.

# openvhost_commands

The decision logic behind the OpenVHost desktop commands, verified with Verus.

- `src/` is the verified library. Each module holds one concern of the command
  layer: secret redaction (`redaction`), the MySQL first-run state machine
  (`mysql_init`), service rescans (`rescan`), pending changes and restarts
  (`apply`), the install slot (`install`), web server settings and the nginx
  config check (`web_server`), log sources (`logs`), package prechecks and
  runtime lookups (`packages`), catalogue rows (`rows`), database credential
  outcomes (`databases`), metrics (`metrics`), the state store handle (`store`),
  errors (`error`), the wall-clock stamps of log events (`clock`) and the
  string toolkit they share (`text`).
- `tests/` exercises the library on concrete values.
- `app/` is the unverified shell: the Tauri commands, file and process I/O, the
  async driver of the MySQL initialisation machine, and the serde copies of the
  library's transfer types.

# roslyn_official

Starts the official Roslyn language server from a Zed extension: finds the dotnet host, prepares
Razor support if the settings ask for it, installs the server or brings it up to date, and hands
the editor the call that starts it. It also makes the server's configuration from the user's
settings.

- `src/` is the library. It decides and does nothing else: `server::Launch` names an action, takes
  the answer as an event, and goes on. Everything in it is verified with Verus.
  - `text`, `paths`, `version`: reading text, paths and version numbers
  - `command`, `sdk`: command lines, their environment, and what `dotnet --list-sdks` writes
  - `events`: actions, effects and events
  - `dotnet`, `razor`, `server`: the search for the host, the setup of Razor, the whole start
  - `json`, `settings`: JSON values of `serde_json`, the user's settings
  - `runs`: what holds of whole runs, however the answers come
- `app/` performs the actions through the extension interface.
- `tests/` runs the library on concrete values.

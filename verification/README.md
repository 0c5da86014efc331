# PresenceHub

PresenceHub shows what you are doing on your desktop (an FL Studio project,
an editor session, any application you choose to watch) as Discord Rich
Presence. Plugins report activities; a presence engine decides which source
owns the display; outputs (the console and Discord's local IPC) show it.

The library in `src/` is verified with Verus: its public functions carry
`requires`/`ensures` contracts over mathematical models of their data, and
the properties that span several calls are stated and proved as `law_*`
proof functions next to the code they are about. A few accessors state
nothing of their result because it is not fixed by the library's state:
the shared run flag, which another thread may change, and the wall clock.
Calls into the standard library and `serde_json` go through small trusted
wrappers whose contracts say what the called function documents.

## Layout

- `src/activity.rs`, `src/presence.rs`, `src/render.rs`: the activity model,
  the presence model derived from it, and its rendering into Discord's
  activity payload.
- `src/output.rs`, `src/engine_laws.rs`: the presence engine (sessions,
  ownership policies, dispatch to outputs) and the laws it keeps.
- `src/plugin.rs`, `src/runtime.rs`, `src/lifecycle.rs`, `src/context.rs`:
  the plugin host, the runtime that drives one poll at a time, and the
  application lifecycle.
- `src/protocol.rs`, `src/discord.rs`, `src/discord_app.rs`: Discord IPC
  framing, the client and output state machines, and application lookup.
- `src/config.rs`, `src/registry.rs`, `src/desktop.rs`, `src/custom_app.rs`,
  `src/foreground.rs`, `src/process.rs`, `src/console.rs`: configuration,
  what to build from it, desktop defaults, user-defined application
  watchers, foreground-window matching, process start times and console
  output.
- `src/strmap.rs`, `src/text.rs`, `src/clock.rs`, `src/flag.rs`: a string
  map with a `Map` view, string helpers with character-level contracts, the
  wall clock and the shared stop flag.
- `app/`: the program around the library: configuration files, the Windows
  named pipe and system queries, HTTP lookups, and the polling loop.
- `tests/`: tests of the library through its public interface.

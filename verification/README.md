# mumble-tauri

The verified core of a desktop voice client with native screen sharing.

- `src/media` - screen sharing: settings, capture and encoder choice, the
  encode pipeline's decisions, direct and forwarded delivery, signalling.
- `src/state` - server connections: connecting, switching, disconnecting,
  channels, messages, and the screen shares bound to them.
- `src/commands`, `src/startup.rs` - requests of the user interface, and what
  happens at startup and to windows.
- `src/text.rs`, `src/collections.rs`, `src/ids.rs`, `src/json.rs` - helpers.

Every function states what it returns or changes, and Verus proves it.  Outside
crates are called through small wrappers whose contracts are not proved; each
says so.

`app/` is the application around the library: tasks, sockets, files and
processes.  It takes from its caller the window system, the voice protocol and,
where a build has them, the codec library and the system's capture interfaces.

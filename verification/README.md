# yawsf

A native Wayland host for desktop shells built with web technologies. The host
embeds web pages in GTK/WebKit layer-shell and session-lock surfaces and exposes an
authenticated local HTTP API through which a shell backend creates, updates and
closes those surfaces.

The decisions of the host are a verified library (`src/`), written in Verus:

- `protocol`: the host's data model (window configuration, session-lock state,
  host state, commands between the HTTP and GTK sides);
- `idmap`, `windows`: the managed layer-shell windows, kept ordered by identifier,
  with what each update, close and listing does to them;
- `session_lock`: the session-lock state machine driven by requests and compositor
  events;
- `auth`: bearer-token checks of API requests;
- `urls`, `cli`: the configuration (base URL, bind address, token, supervised
  command);
- `startup`, `webapp`, `server`, `openapi`, `surfaces`: the startup handshake, the
  supervised child's command and termination, shutdown requests, response statuses,
  shell callbacks, the API reference page and surface placement.

`app/` is the program around it: GTK and WebKit widgets, the Rocket server, the
Tokio runtime, HTTP calls to the shell and process supervision. It calls the library
for every decision.

## Why the windows and locks live in `IdMap`

The host keys its layer-shell windows and its per-window locks by `String`
identifiers. vstd specifies `BTreeMap` and `HashMap`, but a `String` key proves
little there: the key type's order and hashing come from impls that Verus has not
read, so even the length after an insert is not established. `IdMap` is a vector
kept strictly sorted by identifier, in code-point order, which is the order of
`str`'s `Ord` and so the order in which a `BTreeMap` lists the windows. Its
operations are proved against a `Map` view, and its sortedness is a type invariant.
For the per-window locks the order is unobservable; what matters there is that one
identifier always gives back the same entry (`IdMap::entry_or_insert`).

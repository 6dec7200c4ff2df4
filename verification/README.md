# ril_websocket

A bridge between the radio interface layer of a browser, spoken as JSON over
a WebSocket, a JavaScript RIL worker running in SpiderMonkey, and the unix
sockets of the RIL daemons.

- `src/` is the verified library: the registry of radio clients
  (`registry`), the routing of WebSocket and RIL messages to the worker
  (`message`), the checks on what the worker asks to send (`payload`, `host`)
  and the text the bridge builds (`text`).
- `app/` is the program around it: the WebSocket server, the JavaScript
  engine and the daemon sockets.
- `tests/` runs the library on concrete values.

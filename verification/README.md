# resenha_client

The verified core of the Resenha Client, a tray application that connects
Counter-Strike 2's Game State Integration with the Resenha platform.

- `src/` is the library, verified with Verus: the event dispatcher (diff of
  two GSI payloads into domain events), the match controller that decides what
  leaves the machine, the WebSocket manager's decisions (backend commands,
  backoff, token renewal), pairing and token handling, configuration, the CS2
  `.cfg` file and Steam library discovery, the version gate, and the JSON
  text of every message sent to the backend.
- `app/` is the program around it: the Tauri window and tray, the local HTTP
  server, the WebSocket connection, HTTP requests, the credential store, files
  and logging.
- `tests/` exercises the library on concrete payloads and messages.

`config.json` keeps only the local GSI port and the secret GSI token. The
backend address is fixed when the binary is built (`RESENHA_BACKEND_URL`),
is not stored in `config.json` and is not part of the status shown to the
interface.

# animus-trigger-slack

Slack mentions and direct messages as Animus trigger events, and outbound Slack
messages as JSON-RPC methods for workflow phases.

`src/` is the library, verified with Verus. It decides what becomes of each
request, message and answer, and performs no I/O. `app/` is the plugin around
it: standard input and output, HTTP, the WebSocket, the protocol crates' types
and their decoding and encoding.

| Module | What it holds |
|---|---|
| `events` | Slack event JSON to trigger events: kinds, ids, timestamps |
| `config` | the environment's values, credentials and the channel allowlist |
| `socket` | envelopes, acks and verdicts; `apps.connections.open`; backoff |
| `socket_loop` | the Socket Mode loop as a state machine |
| `web_api` | requests to the Slack Web API, and what its answers say |
| `dispatch` | JSON-RPC requests, responses and notifications |
| `backend` | schema, health and credential gating |
| `manifest` | the plugin manifest |
| `protocol` | the data of JSON-RPC and the trigger protocol |
| `json`, `text`, `time` | JSON values over `serde_json`, text, points in time over `chrono` |

Each module ends with its laws: public proof functions, named `law_...`, that
state what holds across functions.

What is trusted rather than proved are the calls into `serde_json` (reading,
writing and taking values apart), `chrono` (building a point in time, the clock)
and `reqwest` (how an HTTP status is written). Each such item says in its doc
comment what is claimed of the outside function.

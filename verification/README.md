# rmcp, verified core

An SDK for the Model Context Protocol, split in two.

`src/` is verified with Verus:

- `model` — the messages: request identifiers, requests, results,
  notifications, content, tools.
- `service::serve` — the decisions of a running service: for each event
  (a reply of a local handler, a request or notification sent by the local
  side, a message from the peer, the end of input, cancellation) the next
  state of the two pools (responders of sent requests, tokens of requests
  being handled) and the action to take. Laws at the end of the file state
  that an answer reaches the responder of its request once, that a
  cancellation reaches the right handler, and that unsolicited answers are
  dropped.
- `service::client` — the client's opening of a session.
- `handler` — the answers that handler results make, the default answers of
  handler methods, and the tool registry with the argument helpers.
- `tool_macro` — the decisions of the `#[tool]` attribute.
- `key_map` — a map kept as a vector of entries with distinct keys.

`app/` holds what Verus does not take: the asynchronous event loop that
carries out the actions, the handler traits, the tool-call adapters, the
transports, and the token work of the `#[tool]` expansion.

# nats_bridge

A payments-router connector that hands every payment and refund operation to
external workers over NATS, written in Verus.

The library (`src/`) decides everything the bridge does and proves it:

- `amount`: minor-unit amounts and their decimal form.
- `headers`: NATS header maps, seen as a map from header name to values.
- `domain`: the router's data for each operation and the results it expects.
- `transformers`: the requests sent to workers, the replies they send back,
  and how a reply becomes the router's result.
- `connector`: per operation, the subject, headers and body of the message,
  how it is exchanged (authorize, complete, capture, void and refund are
  published to JetStream and answered on an inbox; the two status queries
  are plain requests) and how long its reply may take, the request recorded
  once a worker answered, and the reading of replies.
- `client_pool`: the client cache (one client per server), the connection
  options, the JetStream streams and the order they are set up in, the steps
  of a publish that waits for a worker's reply and the metrics of each step.
- `laws`: properties across operations (headers agree with bodies, each
  attempt has its own idempotency key, each operation lands in one stream,
  a financial operation's reply is only taken after JetStream stored the
  message, the stream setup stops at the first failure, ...).

`app/` runs the asynchronous side on tokio and `async-nats`: JSON bodies,
connections, stream creation, publishing and waiting for replies.

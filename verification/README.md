# tokio_tungstenite

Asynchronous WebSockets for the Tokio stack, built on `tungstenite`.

`src/` is the verified core: the decisions of the async layer (readiness, the
handshake's outcome, pongs, proxy tunnels, the address and connector of a request,
proxy selection from the environment) are functions with contracts, proved with Verus.

- `poll`: how the results of WebSocket operations become readiness (`Async`,
  `AsyncSink`): "would block" waits, a closed connection ends the stream.
- `handshake`: a handshake that is resumed each time it is polled, handing out its
  result or error exactly once.
- `auto_pong`: answering every ping with a pong carrying its payload, and the steps of a
  poll that sends a pending pong before it reads on.
- `compat`: blocking-style I/O over an async stream, which only touches the stream
  while a task context is installed.
- `proxy`: tunnels through HTTP `CONNECT` and SOCKS5 proxies, as a state machine that
  says what to write and what to read next (`proxy::tunnel`), with the wire formats in
  `proxy::http` and `proxy::socks5`; `proxy::env` picks the proxy for a target from the
  `HTTP_PROXY`, `HTTPS_PROXY`, `ALL_PROXY` and `NO_PROXY` values.
- `connect`: the `host:port` a request connects to, and whether its scheme can be served.
- `bytes`: decimal numbers, authorities, Base64 and the end of an HTTP head.

`app/` performs the I/O, runs the loops that alternate I/O with those decisions, and implements the outside traits (`futures` streams and
sinks, tokio's `AsyncRead`/`AsyncWrite`, `std::io::Read`/`Write`) around the core.

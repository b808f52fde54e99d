# rmcp

A Rust SDK for the Model Context Protocol (MCP) whose core is written in
Verus: the JSON-RPC envelope, the framing of messages, the request routing of
a service, the opening handshake, the tool registry, streamable HTTP sessions
and the decisions of the HTTP transports carry contracts that Verus proves.

Layout:

- `src/`: the verified library. Each module states its types' models as spec
  functions and views, and its laws as public proof functions.
- `tests/`: tests that run the library on concrete values.
- `app/`: what runs around the library and is not verified: JSON encoding of
  the library's types, byte streams and the async service loop, the HTTP
  client and server transports, and the `tool` attribute.

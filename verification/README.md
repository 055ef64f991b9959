# spdm_lib

SPDM message handling, verified with Verus.

- `codec`: a message buffer with a data window, and little-endian integer layout.
- `protocol`: the message header, request/response codes, versions, capabilities.
- `state`, `context`: the negotiated state of a connection; `ERROR` responses.
- `commands::error`: error codes, the fixed fields of `ERROR`, and their decoding.
- `commands::chunk`: chunked transfer of large messages (`CHUNK_GET`,
  `CHUNK_RESPONSE`, `CHUNK_SEND`) on both sides.
- `chunk_ctx`: the state of large messages in transfer.
- `requester`: the requester's flow state machine and client.

Each public function's contract states its result and effect over the views
of the buffers and contexts; laws that span functions (round trips of the
wire formats; what a responder writes a requester reads, for `ERROR`,
`CHUNK_GET` and `CHUNK_RESPONSE`; the flow state machine's transitions) are public proof functions beside them.

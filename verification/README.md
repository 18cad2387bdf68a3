# mcp_core

The domain core of an MCP server, verified with Verus.

- `src/error.rs` holds the domain error carried by responses and the errors
  reported by transports and tools. Each error renders as text, with a contract
  that states that text.
- `src/message.rs` holds the abstract messages: requests, responses and
  notifications. Their JSON payloads are carried without being inspected.
- `src/registry.rs` holds the registry of tools by name. Its contracts describe it
  as a map from names to tools.
- `src/mcp.rs` holds the builder and the manager. A request is handled in two
  verified steps: `start_request` picks the registered tool or answers
  "tool not found", and `finish_request` turns the tool's outcome into the answer.
- `src/laws.rs` holds the properties that span calls: routing after
  registration, replacement, counting, and equal answers to equal requests.

`app/` holds what Verus does not take. That is the asynchronous `Transport`
and `Tool` traits, the asynchronous request processing that awaits the tool
between the two steps, and serialisable and displayable copies of the types.

# radkit_core

The task-status and message mapping of an A2A agent runtime, and the logic of
its memory tools, written in Verus with their contracts proved.

- `src/protocol.rs`: plain-value models of the A2A messages, and the wire
  numbers of task states and roles, read from `a2a_types`.
- `src/runtime/status_mapper.rs`: skill results to task statuses, terminal and
  resumable statuses, and the laws that tie them together.
- `src/models/`: runtime content and its conversion to A2A messages and artifacts.
- `src/tools/memory/`: the memory toolset and the two decision steps of saving
  a user fact.
- `app/`: conversion to `a2a_types` wire types and the asynchronous tool
  interfaces that await the memory service.

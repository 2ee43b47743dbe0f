# teledap

The verified core of TeleDAP, an MCP server that lets AI assistants drive
embedded debuggers (CodeLLDB or GDB over the Debug Adapter Protocol, and
OpenOCD over its Tcl interface).

## Layout

- `src/` — the library, verified with Verus:
  - `state`, `gating`, `session`: the five-state session machine, which
    operations each state admits, and how events and operations move the
    session; `handle_event` and the `after_*` steps carry exact contracts.
  - `mapping`: translation between AI-relative and absolute paths (aliases,
    base directories, longest-match resolution and its reverse).
  - `cache`, `breakpoints`, `variables`, `context`: the variable-handle cache,
    the breakpoint cache, expansion limits and the context chain.
  - `context_walk`: the assembly of a context chain as a step function that
    asks for one adapter request at a time; its contract says the finished
    chain is exactly what the adapter's answers give.
  - `codec`: `Content-Length` framing, with a proved encode/decode round trip
    and proofs that any valid frame decodes the same with more bytes after it,
    and that cut short it decodes as incomplete, except for a cut inside a
    header longer than the 4 KiB header limit, which is refused as too long.
  - `tools`, `registry`, `handlers`: the MCP tool catalogue, state-aware
    listing and routing, and the argument building of each tool handler.
  - `mcp`, `client`, `trace`, `openocd`: JSON-RPC message reading, DAP
    response routing, the trace ring and entries, and OpenOCD reply collection.
  - `dap`: the DAP data model.
- `tests/` — tests of the library on concrete values.
- `app/` — the asynchronous runtime around it: the adapter and OpenOCD
  processes, framing over their pipes, the MCP stdio transport, JSON
  conversion of the DAP values, and the tool handlers that perform the I/O.

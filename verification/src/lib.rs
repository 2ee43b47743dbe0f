//! TeleDAP core: the verified logic of a bridge between AI tool calls and
//! embedded debuggers.
//!
//! The crate holds the debug-session state machine and its operation gating,
//! path mapping between AI-relative and absolute paths, the variable and
//! breakpoint caches, the DAP wire framing, the MCP tool catalogue with its
//! state-aware filtering, and the DAP data model.

pub mod state;
pub mod text;
pub mod gating;
pub mod mapping;
pub mod numtext;
pub mod codec;
pub mod cache;
pub mod json;
pub mod error;
pub mod client;
pub mod session;
pub mod variables;
pub mod context;
pub mod context_walk;
pub mod breakpoints;
pub mod mcp;
pub mod tools;
pub mod registry;
pub mod trace;
pub mod openocd;
pub mod handlers;
pub mod dap;

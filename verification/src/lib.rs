//! A server that offers read-only log query tools over a Loki backend,
//! without its I/O.
//!
//! An invocation names a tool and gives its arguments. The server checks
//! who calls and how often, looks into its cache, asks the backend what the
//! query would cost, runs the tool and shapes the answer. Every decision on
//! that way is made here and stated in a contract; sending a request and
//! reading the clock are left to whoever drives the server, step by step:
//! see [`mcp::LokiMcpServer::call_tool`] and [`tools::ToolRouter::call`].

pub mod cache;
pub mod config;
pub mod error;
pub mod guardrails;
pub mod json;
pub mod keyed;
pub mod loki;
pub mod mcp;
pub mod metrics;
pub mod rate_limit;
pub mod recent_actions;
pub mod response;
pub mod server;
pub mod text;
pub mod time;
pub mod tools;

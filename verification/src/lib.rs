//! Correlation bridge between an HTTP caller and tools that run inside a
//! sandboxed rendering surface.
//!
//! Code can be sent into the surface but nothing comes back from it directly.
//! Each invocation is therefore given an execution id, a wrapper script that
//! reports its own outcome to the gateway, and a bounded wait on the result
//! store for the entry with that id.
//!
//! The library decides; the host acts. The host enumerates surfaces, runs
//! scripts, serves HTTP, sleeps and holds the locks. What it learns it hands
//! to the functions here, and it does what they return.

pub mod bridge;
pub mod http;
pub mod ids;
pub mod json;
pub mod store;
pub mod text;
pub mod tools;

pub use bridge::WebViewBridge;
pub use http::{
    ErrorResponse, ExecuteRequest, ExecuteResponse, HealthResponse, InvokeRequest,
    StoreResultRequest,
};
pub use store::ResultStore;
pub use tools::{execute_tool, ToolError, ToolRequest, ToolResponse};

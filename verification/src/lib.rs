//! Lifecycle and orchestration core for a per-workspace development sandbox.
//!
//! The library holds the verified decision logic of the tool: deriving a
//! stable container identity from a workspace path, deciding when the sandbox
//! image must be rebuilt, the container lifecycle state machine, the
//! supervision of the notification daemon through its PID file, and the
//! command lines handed to the external container runtime. All process,
//! file and network I/O lives outside the library; callers observe the world,
//! hand the observations in as plain values, and execute the returned plans.

pub mod config;
pub mod container;
pub mod credentials;
pub mod identity;
pub mod image;
pub mod notify;
pub mod orchestrate;
pub mod supervisor;
pub mod text;

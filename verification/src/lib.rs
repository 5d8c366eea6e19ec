//! Bring-up and tear-down of a persistent set of Linux namespaces that hosts a
//! VPN client and a SOCKS proxy behind a private veth link.
//!
//! The crate holds every decision of the two workflows: what counts as
//! mounted, which commands are issued and in which order, how their answers
//! are judged. It touches nothing on the host itself. A workflow is a state
//! machine that hands out one step at a time and is fed the event that
//! answers it; the caller owns the system calls.
//!
//! - `namespace`: the four kinds, their mount points, mount status, the
//!   commands that enter namespaces, and the process table.
//! - `net`: the private link, the route to the outside, the reading of the
//!   host's default route.
//! - `up`, `down`: the two workflows.
//! - `effect`, `lower`: the steps, the events, and the operation that
//!   carries out each step.
//! - `command`, `error`, `text`, `fixed`, `privilege`: commands as data,
//!   errors, text operations, the fixed names and numbers, the privilege
//!   check.
//! - `host`, `laws`: a model of the host, and what the workflows are proved
//!   to achieve on it.

pub mod fixed;
pub mod text;
pub mod command;
pub mod error;
pub mod namespace;
pub mod effect;
pub mod lower;
pub mod net;
pub mod up;
pub mod down;
pub mod privilege;
pub mod host;
pub mod laws;

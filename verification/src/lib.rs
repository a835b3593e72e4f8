//! Lifecycle management for instances of an external chat-bot runtime.
//!
//! The crate holds the decision logic of the service: the provisioning
//! state machine that sets up an instance's working directory, the detached
//! launch plan for its process, the decoder for the remote adapter and
//! plugin registries, and an in-memory model of the persistence layer with
//! transactional replace-all semantics. Everything that touches the
//! filesystem, spawns processes, speaks HTTP or SQL lives outside, in the
//! surrounding application, which hands plain values in and out.

pub mod errors;
pub mod instance;
pub mod nonebot;
pub mod storage;

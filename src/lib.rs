//! A portable actor framework: bounded channels, a channel pool, a
//! hierarchical state machine engine and a supervisor.
pub mod messaging;
pub mod pool;
pub mod state_machine;
pub mod components;
pub mod registry;
pub mod supervisor;
pub mod counter;
pub mod root;

//! Native lowering of agents: machine types, exported wrappers, entry blocks.
pub mod agent;
pub mod agent_laws;
pub mod type_laws;
pub mod types;
pub mod wrapper;
pub mod wrapper_call_laws;
pub mod wrapper_laws;

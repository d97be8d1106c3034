//! Deploys to the agents of a cluster, over control sessions.
//!
//! A master keeps a control session with the agent of each node. To deploy a service to the
//! node that it is pinned to, the master sends the agent a message and waits twice: briefly for
//! the agent to acknowledge the receipt, and then, for as long as a deploy may take, for its
//! result. Nothing here does input or output or reads a clock: whoever does hands in what
//! happened and when, and does what comes out.
//!
//! - `config`, `workload`: what a service is configured to be, and what an agent is asked to run
//! - `wire`: the frames and messages of a control session
//! - `agent`: the agent's side of a session
//! - `nodes`, `services`, `state`: what the master knows
//! - `deploy`, `failure`: the two waits, and how a deploy fails
//! - `reconcile`: a run through a list of configurations
//! - `laws`: what holds of deploys as a whole
//! - `agent_laws`, `deploy_laws`, `reconcile_laws`, `wire_laws`: what each operation does, told by
//!   what goes in and what comes out
//! - `data_laws`, `view_laws`: what the data mean, and that nothing of them is left out
//! - `names`, `text`, `decimal`: the data that the others are made of

pub mod agent;
pub mod agent_laws;
pub mod config;
pub mod data_laws;
pub mod decimal;
pub mod deploy;
pub mod deploy_laws;
pub mod failure;
pub mod laws;
pub mod names;
pub mod nodes;
pub mod reconcile;
pub mod reconcile_laws;
pub mod services;
pub mod state;
pub mod text;
pub mod view_laws;
pub mod wire;
pub mod wire_laws;
pub mod workload;

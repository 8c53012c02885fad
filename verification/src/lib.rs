//! A peer-to-peer mesh of agents that ask and answer each other's
//! questions: the message model, the per-node state, the answering engine
//! and the node's decisions on each network event and console command.

pub mod text;
pub mod answerer;
pub mod strmap;
pub mod protocol;
pub mod state;
pub mod node;
pub mod laws;

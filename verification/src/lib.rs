//! A proof-of-work mining client: the job scheduler, the two solvers' state
//! machines and the two RPC front-ends, as a verified library.

pub mod encoding;
pub mod hex;
pub mod options;
pub mod rpc;
pub mod target;
pub mod worker;

pub use rpc::{HttpConfig, RpcConfig, StratumConfig};
pub use worker::Worker;

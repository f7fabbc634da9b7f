//! The two front-ends that take jobs in and hand solutions back.

pub mod http;
pub mod job;
pub mod message;
pub mod stratum;

pub use self::http::{Config as HttpConfig, Runner as HttpRunner};
pub use self::stratum::{Config as StratumConfig, Runner as StratumRunner};

use vstd::prelude::*;

verus! {

/// The one front-end a miner runs, and what it is made with.
#[derive(Clone, Debug, PartialEq, Eq)]
pub enum RpcConfig {
    Http(HttpConfig),
    Stratum(StratumConfig),
}

} // verus!

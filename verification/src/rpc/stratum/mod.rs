//! The Stratum front-end: a session of line-delimited JSON over one
//! connection.

pub mod client;
pub mod dispatch;
pub mod error;
pub mod frame;
pub mod runner;

pub use self::client::{Connect, Event, Input, Polled, Serve, State};
pub use self::dispatch::{dispatch_fn, Dispatch, DispatchFn, NewDispatch};
pub use self::error::{Error, Kind};
pub use self::runner::{Config, Rpc, RpcError, Runner};

//! A typed, transport-agnostic client layer for smart contracts: resolving
//! method signatures against an interface description, linking libraries into
//! deployment bytecode, and driving deployment and event polling as explicit
//! state machines whose every step carries a verified contract.

pub mod tokens;
pub mod types;
pub mod abi;
pub mod errors;
pub mod method;
pub mod instance;
pub mod bytecode;
pub mod artifact;
pub mod deploy;
pub mod linker;
pub mod event;

pub use crate::artifact::{Artifact, Deployments, Network};
pub use crate::deploy::{DeployBuilder, PendingDeploy, Receipt};
pub use crate::errors::{AbiError, DeployError, LinkError, MethodError, NetworkError};
pub use crate::event::{
    Cursor, EventBuilder, EventStream, LogFilter, LogStream, RawLog, StreamAction, StreamError,
    DEFAULT_POLL_INTERVAL,
};
pub use crate::instance::{Instance, NetworkLookup};
pub use crate::linker::Linker;
pub use crate::method::{
    CallParameters, CallRequest, MethodBuilder, MethodDefaults, TransactionRequest,
    ViewMethodBuilder,
};
pub use crate::abi::{LogParam, StateMutability};
pub use crate::tokens::{Kind, Value};
pub use crate::types::{Address, TransactionHash, U256};

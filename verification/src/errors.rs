//! The error kinds of the library, one enum per concern.

use crate::types::TransactionHash;
use ethcontract_common::abi::Error;
use vstd::prelude::*;

verus! {

/// Failure to resolve a name in the interface description, or to encode or
/// decode values against it. The two are distinct kinds.
#[derive(Debug)]
pub enum AbiError {
    /// No function or event is known under this signature or name.
    InvalidName(String),
    /// The values do not have the shape of the types of the resolved function
    /// or event, or the types are ones that nothing can be decoded against.
    InvalidData,
    /// The codec refused the values or the bytes; its own error is carried
    /// along.
    Codec(Error),
}

/// Failure to link a library, or to finish linking.
#[derive(Clone, Debug, PartialEq, Eq)]
pub enum LinkError {
    /// The library name is no valid placeholder identifier.
    InvalidName(String),
    /// The bytecode holds no placeholder for the library.
    NotFound(String),
    /// The bytecode still holds a placeholder, for this library.
    UndefinedLibrary(String),
    /// The text of the bytecode is no template any more: linking has cut a
    /// placeholder short or left a character that is no code.
    Malformed,
}

/// A request that is rejected before anything is sent.
#[derive(Clone, Copy, Debug, PartialEq, Eq)]
pub enum MethodError {
    /// A function that changes state was asked for through the read-only path.
    StateMutating,
    /// A function that only reads state was asked to be sent as a transaction.
    ReadOnly,
    /// Value was attached to a function that accepts none.
    NonPayable,
}

/// Failure to deploy a contract.
#[derive(Debug)]
pub enum DeployError {
    /// The artifact holds no bytecode to deploy.
    EmptyBytecode,
    /// Linking is incomplete.
    Link(LinkError),
    /// Constructor arguments were given, but the interface description
    /// declares no constructor.
    NoConstructor,
    /// The constructor arguments do not fit the constructor.
    Abi(AbiError),
    /// The transport failed; its message is passed through.
    Transport(String),
    /// The deployment transaction was included but reverted.
    Reverted(TransactionHash),
    /// The receipt of the deployment transaction names no created contract.
    MissingAddress(TransactionHash),
}

/// Failure to find a contract on the active network.
#[derive(Clone, Debug, PartialEq, Eq)]
pub enum NetworkError {
    /// The artifact registers no address for this network id.
    NotDeployed(String),
}

} // verus!

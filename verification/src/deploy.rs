//! Deployment in two phases: a transaction that carries the payload is
//! submitted, and once it is included its receipt names the address of the
//! new contract.
//!
//! Each phase is a type. Only a pending deployment can be completed, and only
//! a receipt that reports success and names an address yields an instance.

use crate::errors::DeployError;
use crate::instance::Instance;
use crate::method::{
    copy_bytes, is_transaction, CallParameters, MethodDefaults, TransactionRequest,
};
use crate::types::{Address, TransactionHash, U256};
use ethcontract_common::Abi;
use vstd::prelude::*;

verus! {

/// What the receipt of an included transaction reports.
#[derive(Clone, Copy, Debug, PartialEq, Eq)]
pub struct Receipt {
    /// Whether execution succeeded, where the network reports it.
    pub status: Option<bool>,
    /// The address of the contract that the transaction created, if it
    /// created one.
    pub contract_address: Option<Address>,
}

/// A deployment that has not been sent yet.
pub struct DeployBuilder<W> {
    /// The transport handle the deployment will be sent through.
    pub web3: W,
    /// The interface description of the contract.
    pub abi: Abi,
    /// The payload: the code, followed by the encoded constructor arguments.
    pub data: Vec<u8>,
    /// The caller's parameters.
    pub parameters: CallParameters,
}

impl<W> DeployBuilder<W> {
    /// A deployment of `data` for a contract described by `abi`, with no
    /// parameter set.
    pub fn new(web3: W, abi: Abi, data: Vec<u8>) -> (builder: Self)
        ensures
            builder.web3 == web3,
            builder.abi == abi,
            builder.data == data,
            builder.parameters == CallParameters::unset(),
    {
        DeployBuilder { web3, abi, data, parameters: CallParameters::new() }
    }

    /// Sets the sender.
    pub fn from(self, address: Address) -> (builder: Self)
        ensures
            builder.parameters == (CallParameters { from: Some(address), ..self.parameters }),
            builder.web3 == self.web3,
            builder.abi == self.abi,
            builder.data == self.data,
    {
        let mut builder = self;
        builder.parameters.from = Some(address);
        builder
    }

    /// Sets the gas limit.
    pub fn gas(self, limit: U256) -> (builder: Self)
        ensures
            builder.parameters == (CallParameters { gas: Some(limit), ..self.parameters }),
            builder.web3 == self.web3,
            builder.abi == self.abi,
            builder.data == self.data,
    {
        let mut builder = self;
        builder.parameters.gas = Some(limit);
        builder
    }

    /// Sets the gas price.
    pub fn gas_price(self, price: U256) -> (builder: Self)
        ensures
            builder.parameters == (CallParameters { gas_price: Some(price), ..self.parameters }),
            builder.web3 == self.web3,
            builder.abi == self.abi,
            builder.data == self.data,
    {
        let mut builder = self;
        builder.parameters.gas_price = Some(price);
        builder
    }

    /// Sets the value transferred to the new contract.
    pub fn value(self, amount: U256) -> (builder: Self)
        ensures
            builder.parameters == (CallParameters { value: Some(amount), ..self.parameters }),
            builder.web3 == self.web3,
            builder.abi == self.abi,
            builder.data == self.data,
    {
        let mut builder = self;
        builder.parameters.value = Some(amount);
        builder
    }

    /// The transaction that deploys the contract: it has no recipient and
    /// carries the payload.
    pub fn transaction(&self) -> (request: TransactionRequest)
        ensures
            is_transaction(request, None, self.data@, self.parameters),
    {
        let data = copy_bytes(&self.data);
        TransactionRequest {
            from: self.parameters.from,
            to: None,
            gas: self.parameters.gas,
            gas_price: self.parameters.gas_price,
            value: self.parameters.value,
            data,
        }
    }

    /// Records the outcome of submitting the transaction. A transport failure
    /// ends the deployment at once; otherwise the deployment is pending under
    /// the hash that the transport answered with.
    pub fn submitted(self, outcome: Result<TransactionHash, String>) -> (next: Result<
        PendingDeploy<W>,
        DeployError,
    >)
        ensures
            match (outcome, next) {
                (Ok(hash), Ok(pending)) => {
                    &&& pending.transaction == hash
                    &&& pending.web3 == self.web3
                    &&& pending.abi == self.abi
                },
                (Err(message), Err(DeployError::Transport(passed))) => passed == message,
                _ => false,
            },
    {
        match outcome {
            Ok(transaction) => Ok(PendingDeploy { web3: self.web3, abi: self.abi, transaction }),
            Err(message) => Err(DeployError::Transport(message)),
        }
    }
}

/// A deployment whose transaction was submitted and is not yet known to be
/// included.
pub struct PendingDeploy<W> {
    /// The transport handle the deployment was sent through.
    pub web3: W,
    /// The interface description of the contract.
    pub abi: Abi,
    /// The hash of the deployment transaction.
    pub transaction: TransactionHash,
}

impl<W> PendingDeploy<W> {
    /// Records the outcome of waiting for the receipt and, on success, binds
    /// the contract's interface description to the address the receipt names.
    ///
    /// No instance comes back unless the receipt names a created contract and
    /// does not report a revert: a transport failure is passed through, a
    /// revert gives `Reverted`, and a receipt without an address gives
    /// `MissingAddress`.
    pub fn complete(self, outcome: Result<Receipt, String>) -> (deployed: Result<
        Instance<W>,
        DeployError,
    >)
        ensures
            match deployed {
                Ok(instance) => {
                    &&& outcome matches Ok(receipt)
                    &&& receipt.status != Some(false)
                    &&& receipt.contract_address == Some(instance.location())
                    &&& instance.interface() == self.abi
                    &&& instance.transport() == self.web3
                    &&& instance.default_parameters() == MethodDefaults::unset()
                    &&& instance.wf()
                },
                Err(DeployError::Transport(passed)) => outcome matches Err(message) && passed
                    == message,
                Err(DeployError::Reverted(hash)) => {
                    &&& outcome matches Ok(receipt)
                    &&& receipt.status == Some(false)
                    &&& hash == self.transaction
                },
                Err(DeployError::MissingAddress(hash)) => {
                    &&& outcome matches Ok(receipt)
                    &&& receipt.status != Some(false)
                    &&& receipt.contract_address is None
                    &&& hash == self.transaction
                },
                Err(_) => false,
            },
    {
        let receipt = match outcome {
            Ok(receipt) => receipt,
            Err(message) => {
                return Err(DeployError::Transport(message));
            },
        };
        match receipt.status {
            Some(false) => {
                return Err(DeployError::Reverted(self.transaction));
            },
            _ => {},
        }
        match receipt.contract_address {
            Some(address) => Ok(Instance::at(self.web3, self.abi, address)),
            None => Err(DeployError::MissingAddress(self.transaction)),
        }
    }
}

} // verus!

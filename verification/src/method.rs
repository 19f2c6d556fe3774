//! Builders for calls and transactions on one resolved function.
//!
//! A builder holds the encoded call and the caller's parameters. It is turned
//! into a request, a plain value for the transport, by a function that first
//! checks the request against the function's declared state mutability: what
//! it rejects never reaches a transport.

use crate::abi::{
    constant_flag_of, decode_output, function_constant_flag, function_mutability, function_output,
    function_outputs, mutability_of, output_kinds_of, StateMutability,
};
use crate::tokens::{all_decodable, are_decodable, Value};
use crate::errors::{AbiError, MethodError};
use crate::types::{Address, U256};
use ethcontract_common::abi::Function;
use vstd::prelude::*;

verus! {

/// Parameters applied to every call built from an instance, unless the call
/// sets its own.
#[derive(Clone, Copy, Debug, PartialEq, Eq)]
pub struct MethodDefaults {
    /// The sender.
    pub from: Option<Address>,
    /// The gas limit.
    pub gas: Option<U256>,
    /// The gas price.
    pub gas_price: Option<U256>,
    /// The value transferred with the call.
    pub value: Option<U256>,
}

impl Default for MethodDefaults {
    fn default() -> (defaults: Self)
        ensures
            defaults == MethodDefaults::unset(),
    {
        MethodDefaults { from: None, gas: None, gas_price: None, value: None }
    }
}

impl MethodDefaults {
    /// The defaults that set nothing.
    pub open spec fn unset() -> MethodDefaults {
        MethodDefaults { from: None, gas: None, gas_price: None, value: None }
    }
}

/// The caller's parameters of one call or transaction.
#[derive(Clone, Copy, Debug, PartialEq, Eq)]
pub struct CallParameters {
    /// The sender.
    pub from: Option<Address>,
    /// The gas limit.
    pub gas: Option<U256>,
    /// The gas price.
    pub gas_price: Option<U256>,
    /// The value transferred with the call.
    pub value: Option<U256>,
}

impl CallParameters {
    /// Parameters that set nothing.
    pub open spec fn unset() -> CallParameters {
        CallParameters { from: None, gas: None, gas_price: None, value: None }
    }

    /// These parameters, with each one that is unset taken from `defaults`.
    pub open spec fn or_defaults(self, defaults: MethodDefaults) -> CallParameters {
        CallParameters {
            from: if self.from is Some { self.from } else { defaults.from },
            gas: if self.gas is Some { self.gas } else { defaults.gas },
            gas_price: if self.gas_price is Some { self.gas_price } else { defaults.gas_price },
            value: if self.value is Some { self.value } else { defaults.value },
        }
    }

    /// Whether the parameters attach a value other than zero.
    pub open spec fn sends_value(self) -> bool {
        self.value matches Some(value) && value.value() != 0
    }

    /// Parameters that set nothing.
    pub fn new() -> (parameters: Self)
        ensures
            parameters == CallParameters::unset(),
    {
        CallParameters { from: None, gas: None, gas_price: None, value: None }
    }

    /// Fills each unset parameter from `defaults`; what is set stays.
    pub fn with_defaults(self, defaults: &MethodDefaults) -> (merged: Self)
        ensures
            merged == self.or_defaults(*defaults),
    {
        CallParameters {
            from: if self.from.is_some() { self.from } else { defaults.from },
            gas: if self.gas.is_some() { self.gas } else { defaults.gas },
            gas_price: if self.gas_price.is_some() { self.gas_price } else { defaults.gas_price },
            value: if self.value.is_some() { self.value } else { defaults.value },
        }
    }

    /// Whether a value other than zero is attached.
    pub fn has_value(&self) -> (attached: bool)
        ensures
            attached == self.sends_value(),
    {
        match &self.value {
            Some(value) => !value.is_zero(),
            None => false,
        }
    }
}

/// A read-only query, ready for the transport.
#[derive(Clone, Debug, PartialEq, Eq)]
pub struct CallRequest {
    /// The sender.
    pub from: Option<Address>,
    /// The contract that is called.
    pub to: Address,
    /// The gas limit.
    pub gas: Option<U256>,
    /// The gas price.
    pub gas_price: Option<U256>,
    /// The value transferred.
    pub value: Option<U256>,
    /// The encoded call.
    pub data: Vec<u8>,
}

/// A state-mutating request, ready to be signed and submitted.
#[derive(Clone, Debug, PartialEq, Eq)]
pub struct TransactionRequest {
    /// The sender.
    pub from: Option<Address>,
    /// The contract that is called; `None` creates a contract.
    pub to: Option<Address>,
    /// The gas limit.
    pub gas: Option<U256>,
    /// The gas price.
    pub gas_price: Option<U256>,
    /// The value transferred.
    pub value: Option<U256>,
    /// The encoded call, or the deployment payload.
    pub data: Vec<u8>,
}

/// Whether a function only reads state: it is declared pure or view, or
/// carries the legacy constant flag.
pub open spec fn read_only(function: Function) -> bool {
    function_mutability(function) is Pure || function_mutability(function) is View
        || function_constant_flag(function) == Some(true)
}

/// Whether a function accepts value.
pub open spec fn payable(function: Function) -> bool {
    function_mutability(function) is Payable
}

/// Whether `values` is what decoding `returned` against the outputs of
/// `function` comes to.
pub open spec fn decodes(
    function: Function,
    returned: Seq<u8>,
    values: Result<Vec<Value>, AbiError>,
) -> bool {
    match values {
        Ok(tokens) => {
            &&& all_decodable(function_outputs(function))
            &&& function_output(function, returned) == Some(tokens@)
        },
        Err(AbiError::InvalidData) => !all_decodable(function_outputs(function)),
        Err(AbiError::Codec(_)) => {
            &&& all_decodable(function_outputs(function))
            &&& function_output(function, returned) is None
        },
        Err(AbiError::InvalidName(_)) => false,
    }
}

/// Whether `request` is the query that sends `data` to `address` under
/// `parameters`.
pub open spec fn is_call(
    request: CallRequest,
    address: Address,
    data: Seq<u8>,
    parameters: CallParameters,
) -> bool {
    &&& request.to == address
    &&& request.data@ == data
    &&& request.from == parameters.from
    &&& request.gas == parameters.gas
    &&& request.gas_price == parameters.gas_price
    &&& request.value == parameters.value
}

/// Whether `request` is the transaction that sends `data` to `to` under
/// `parameters`.
pub open spec fn is_transaction(
    request: TransactionRequest,
    to: Option<Address>,
    data: Seq<u8>,
    parameters: CallParameters,
) -> bool {
    &&& request.to == to
    &&& request.data@ == data
    &&& request.from == parameters.from
    &&& request.gas == parameters.gas
    &&& request.gas_price == parameters.gas_price
    &&& request.value == parameters.value
}

/// A copy of `bytes`.
pub(crate) fn copy_bytes(bytes: &Vec<u8>) -> (copy: Vec<u8>)
    ensures
        copy@ == bytes@,
{
    let copy = bytes.clone();
    assert(copy@ =~= bytes@);
    copy
}

/// A call of one resolved function, not yet sent: it can still become a query
/// or a transaction.
pub struct MethodBuilder<W> {
    /// The transport handle the request will be sent through.
    pub web3: W,
    /// The resolved function.
    pub function: Function,
    /// The contract that is called.
    pub address: Address,
    /// The encoded call.
    pub data: Vec<u8>,
    /// The caller's parameters.
    pub parameters: CallParameters,
}

impl<W> MethodBuilder<W> {
    /// A builder for `data`, an encoded call of `function`, to the contract at
    /// `address`, with no parameter set.
    pub fn new(web3: W, function: Function, address: Address, data: Vec<u8>) -> (builder: Self)
        ensures
            builder.web3 == web3,
            builder.function == function,
            builder.address == address,
            builder.data == data,
            builder.parameters == CallParameters::unset(),
    {
        MethodBuilder { web3, function, address, data, parameters: CallParameters::new() }
    }

    /// Applies `defaults` to every parameter that the call has not set itself.
    pub fn with_defaults(self, defaults: &MethodDefaults) -> (builder: Self)
        ensures
            builder.parameters == self.parameters.or_defaults(*defaults),
            builder.web3 == self.web3,
            builder.function == self.function,
            builder.address == self.address,
            builder.data == self.data,
    {
        let parameters = self.parameters.with_defaults(defaults);
        MethodBuilder {
            web3: self.web3,
            function: self.function,
            address: self.address,
            data: self.data,
            parameters,
        }
    }

    /// Sets the sender.
    pub fn from(self, address: Address) -> (builder: Self)
        ensures
            builder.parameters == (CallParameters { from: Some(address), ..self.parameters }),
            builder.web3 == self.web3,
            builder.function == self.function,
            builder.address == self.address,
            builder.data == self.data,
    {
        let mut builder = self;
        builder.parameters.from = Some(address);
        builder
    }

    /// Sets the gas limit.
    pub fn gas(self, limit: U256) -> (builder: Self)
        ensures
            builder.parameters == (CallParameters { gas: Some(limit), ..self.parameters }),
            builder.web3 == self.web3,
            builder.function == self.function,
            builder.address == self.address,
            builder.data == self.data,
    {
        let mut builder = self;
        builder.parameters.gas = Some(limit);
        builder
    }

    /// Sets the gas price.
    pub fn gas_price(self, price: U256) -> (builder: Self)
        ensures
            builder.parameters == (CallParameters { gas_price: Some(price), ..self.parameters }),
            builder.web3 == self.web3,
            builder.function == self.function,
            builder.address == self.address,
            builder.data == self.data,
    {
        let mut builder = self;
        builder.parameters.gas_price = Some(price);
        builder
    }

    /// Sets the value transferred with the call.
    pub fn value(self, amount: U256) -> (builder: Self)
        ensures
            builder.parameters == (CallParameters { value: Some(amount), ..self.parameters }),
            builder.web3 == self.web3,
            builder.function == self.function,
            builder.address == self.address,
            builder.data == self.data,
    {
        let mut builder = self;
        builder.parameters.value = Some(amount);
        builder
    }

    /// Restricts the builder to the read-only path.
    pub fn view(self) -> (builder: ViewMethodBuilder<W>)
        ensures
            builder.method == self,
    {
        ViewMethodBuilder { method: self }
    }

    /// Whether the function only reads state.
    pub fn is_read_only(&self) -> (answer: bool)
        ensures
            answer == read_only(self.function),
    {
        let by_flag = match constant_flag_of(&self.function) {
            Some(flag) => flag,
            None => false,
        };
        match mutability_of(&self.function) {
            StateMutability::Pure => true,
            StateMutability::View => true,
            _ => by_flag,
        }
    }

    /// Whether the function accepts value.
    pub fn is_payable(&self) -> (answer: bool)
        ensures
            answer == payable(self.function),
    {
        match mutability_of(&self.function) {
            StateMutability::Payable => true,
            _ => false,
        }
    }

    /// The call as a read-only query, which executes the function on the node
    /// without committing anything.
    ///
    /// Rejected where value is attached to a function that accepts none.
    pub fn call_request(&self) -> (request: Result<CallRequest, MethodError>)
        ensures
            match request {
                Ok(query) => {
                    &&& !(self.parameters.sends_value() && !payable(self.function))
                    &&& is_call(query, self.address, self.data@, self.parameters)
                },
                Err(error) => {
                    &&& self.parameters.sends_value() && !payable(self.function)
                    &&& error == MethodError::NonPayable
                },
            },
    {
        if self.parameters.has_value() && !self.is_payable() {
            return Err(MethodError::NonPayable);
        }
        Ok(
            CallRequest {
                from: self.parameters.from,
                to: self.address,
                gas: self.parameters.gas,
                gas_price: self.parameters.gas_price,
                value: self.parameters.value,
                data: copy_bytes(&self.data),
            },
        )
    }

    /// The call as a transaction to be signed and submitted.
    ///
    /// Rejected where the function only reads state, and where value is
    /// attached to a function that accepts none.
    pub fn transaction(&self) -> (request: Result<TransactionRequest, MethodError>)
        ensures
            match request {
                Ok(transaction) => {
                    &&& !read_only(self.function)
                    &&& !(self.parameters.sends_value() && !payable(self.function))
                    &&& is_transaction(
                        transaction,
                        Some(self.address),
                        self.data@,
                        self.parameters,
                    )
                },
                Err(error) => if read_only(self.function) {
                    error == MethodError::ReadOnly
                } else {
                    &&& self.parameters.sends_value() && !payable(self.function)
                    &&& error == MethodError::NonPayable
                },
            },
    {
        if self.is_read_only() {
            return Err(MethodError::ReadOnly);
        }
        if self.parameters.has_value() && !self.is_payable() {
            return Err(MethodError::NonPayable);
        }
        Ok(
            TransactionRequest {
                from: self.parameters.from,
                to: Some(self.address),
                gas: self.parameters.gas,
                gas_price: self.parameters.gas_price,
                value: self.parameters.value,
                data: copy_bytes(&self.data),
            },
        )
    }

    /// Decodes the bytes that the call returned into the function's output
    /// values.
    ///
    /// Fails with `InvalidData` where the output types are ones that nothing
    /// can be decoded against, and with the codec's error where the bytes do
    /// not fit them.
    pub fn decode(&self, returned: &Vec<u8>) -> (values: Result<Vec<Value>, AbiError>)
        ensures
            decodes(self.function, returned@, values),
    {
        let kinds = output_kinds_of(&self.function);
        if !are_decodable(&kinds) {
            return Err(AbiError::InvalidData);
        }
        match decode_output(&self.function, returned) {
            Ok(tokens) => Ok(tokens),
            Err(error) => Err(AbiError::Codec(error)),
        }
    }
}

/// A call of one resolved function that can only be sent as a read-only
/// query.
pub struct ViewMethodBuilder<W> {
    /// The call.
    pub method: MethodBuilder<W>,
}

impl<W> ViewMethodBuilder<W> {
    /// Sets the sender.
    pub fn from(self, address: Address) -> (builder: Self)
        ensures
            builder.method.parameters == (CallParameters {
                from: Some(address),
                ..self.method.parameters
            }),
            builder.method.web3 == self.method.web3,
            builder.method.function == self.method.function,
            builder.method.address == self.method.address,
            builder.method.data == self.method.data,
    {
        ViewMethodBuilder { method: self.method.from(address) }
    }

    /// Sets the gas limit.
    pub fn gas(self, limit: U256) -> (builder: Self)
        ensures
            builder.method.parameters == (CallParameters {
                gas: Some(limit),
                ..self.method.parameters
            }),
            builder.method.web3 == self.method.web3,
            builder.method.function == self.method.function,
            builder.method.address == self.method.address,
            builder.method.data == self.method.data,
    {
        ViewMethodBuilder { method: self.method.gas(limit) }
    }

    /// Sets the gas price.
    pub fn gas_price(self, price: U256) -> (builder: Self)
        ensures
            builder.method.parameters == (CallParameters {
                gas_price: Some(price),
                ..self.method.parameters
            }),
            builder.method.web3 == self.method.web3,
            builder.method.function == self.method.function,
            builder.method.address == self.method.address,
            builder.method.data == self.method.data,
    {
        ViewMethodBuilder { method: self.method.gas_price(price) }
    }

    /// The call as a read-only query.
    ///
    /// Rejected where the function changes state: a read-only query of such a
    /// function would answer with data that no transaction ever produced.
    /// Rejected too where value is attached, since no function that only reads
    /// state accepts any.
    pub fn call_request(&self) -> (request: Result<CallRequest, MethodError>)
        ensures
            match request {
                Ok(query) => {
                    &&& read_only(self.method.function)
                    &&& !(self.method.parameters.sends_value() && !payable(self.method.function))
                    &&& is_call(
                        query,
                        self.method.address,
                        self.method.data@,
                        self.method.parameters,
                    )
                },
                Err(error) => if !read_only(self.method.function) {
                    error == MethodError::StateMutating
                } else {
                    &&& self.method.parameters.sends_value() && !payable(self.method.function)
                    &&& error == MethodError::NonPayable
                },
            },
    {
        if !self.method.is_read_only() {
            return Err(MethodError::StateMutating);
        }
        self.method.call_request()
    }

    /// Decodes the bytes that the query returned into the function's output
    /// values, as `MethodBuilder::decode` does.
    pub fn decode(&self, returned: &Vec<u8>) -> (values: Result<Vec<Value>, AbiError>)
        ensures
            decodes(self.method.function, returned@, values),
    {
        self.method.decode(returned)
    }
}

} // verus!

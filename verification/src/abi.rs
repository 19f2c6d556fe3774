//! The boundary to the interface-description codec.
//!
//! The interface description and everything inside it (functions, events, the
//! constructor) are values of the codec crate. They are carried through this
//! library unopened; what the library needs to know of them it asks through
//! the functions of this module. Each of those converts plain values, makes
//! one call into the codec, and converts back; its contract is believed, not
//! proved. The codec is only called on values that the library has checked:
//! what it cannot take is left out by `requires`.

use crate::tokens::{all_decodable, fit, total, weights, Kind, Value, WORD_LIMIT};
use crate::types::{Address, U256};
use ethcontract_common::abi::ethereum_types::U256 as CodecWord;
use ethcontract_common::abi::{
    Constructor, Error, Event, Function, ParamType as CodecKind, Token as CodecValue,
};
use ethcontract_common::Abi;
use vstd::prelude::*;

verus! {

/// An interface description: the functions, events and constructor of a
/// contract.
#[verifier::external_type_specification]
#[verifier::external_body]
pub struct ExAbi(ethcontract_common::abi::Contract);

/// One callable function of an interface description.
#[verifier::external_type_specification]
#[verifier::external_body]
pub struct ExFunction(ethcontract_common::abi::Function);

/// One event of an interface description.
#[verifier::external_type_specification]
#[verifier::external_body]
pub struct ExEvent(ethcontract_common::abi::Event);

/// The constructor of an interface description.
#[verifier::external_type_specification]
#[verifier::external_body]
pub struct ExConstructor(ethcontract_common::abi::Constructor);

/// One argument or result value, in the codec's form.
#[verifier::external_type_specification]
#[verifier::external_body]
pub struct ExToken(ethcontract_common::abi::Token);

/// The type of one parameter, in the codec's form.
#[verifier::external_type_specification]
#[verifier::external_body]
pub struct ExParamType(ethcontract_common::abi::ParamType);

/// The codec's own error value.
#[verifier::external_type_specification]
#[verifier::external_body]
pub struct ExCodecError(ethcontract_common::abi::Error);

/// How a function may touch chain state, as its description declares it.
#[derive(Clone, Copy, Debug, PartialEq, Eq, Structural)]
pub enum StateMutability {
    /// Reads no state.
    Pure,
    /// Reads state, changes none.
    View,
    /// Changes state, accepts no value.
    NonPayable,
    /// Changes state and accepts value.
    Payable,
}

/// The function table of an interface description: each name with its
/// overloads, in declaration order.
pub uninterp spec fn abi_functions(abi: Abi) -> Map<Seq<char>, Seq<Function>>;

/// The event table of an interface description: each name with the events
/// declared under it.
pub uninterp spec fn abi_events(abi: Abi) -> Map<Seq<char>, Seq<Event>>;

/// The constructor of an interface description, if it declares one.
pub uninterp spec fn abi_constructor(abi: Abi) -> Option<Constructor>;

/// The canonical signature of a function: its name and argument types.
pub uninterp spec fn function_signature(function: Function) -> Seq<char>;

/// The declared state mutability of a function.
pub uninterp spec fn function_mutability(function: Function) -> StateMutability;

/// The legacy `constant` flag of a function, where its description carries one.
pub uninterp spec fn function_constant_flag(function: Function) -> Option<bool>;

/// The types of the inputs of a function, in their order.
pub uninterp spec fn function_inputs(function: Function) -> Seq<Kind>;

/// The types of the outputs of a function, in their order.
pub uninterp spec fn function_outputs(function: Function) -> Seq<Kind>;

/// The types of the inputs of a constructor, in their order.
pub uninterp spec fn constructor_inputs(constructor: Constructor) -> Seq<Kind>;

/// The types of the parameters of an event, in their order.
pub uninterp spec fn event_inputs(event: Event) -> Seq<Kind>;

/// The call payload (selector, then encoded arguments) of a function for the
/// given arguments; `None` where the codec refuses the arguments.
pub uninterp spec fn function_call_data(function: Function, tokens: Seq<Value>) -> Option<
    Seq<u8>,
>;

/// The values that returned bytes decode to under a function's output types;
/// `None` where the bytes do not fit them.
pub uninterp spec fn function_output(function: Function, data: Seq<u8>) -> Option<Seq<Value>>;

/// The encoding of constructor arguments; `None` where the codec refuses the
/// arguments.
pub uninterp spec fn constructor_arguments(constructor: Constructor, tokens: Seq<Value>) -> Option<
    Seq<u8>,
>;

/// The 32-byte topic that identifies an event in a log.
pub uninterp spec fn event_topic(event: Event) -> Seq<u8>;

/// Whether an event is declared anonymous: its occurrences then carry no
/// identifying topic.
pub uninterp spec fn event_anonymous(event: Event) -> bool;

/// The decoding of a raw log entry under an event's parameters; `None` where
/// the entry does not fit them.
pub uninterp spec fn event_log(event: Event, topics: Seq<[u8; 32]>, data: Seq<u8>) -> Option<
    Seq<LogParam>,
>;

/// One decoded parameter of an event occurrence.
#[derive(Debug, PartialEq, Eq)]
pub struct LogParam {
    /// The name of the parameter.
    pub name: String,
    /// Its value.
    pub value: Value,
}

/// Whether the codec can be asked to encode `tokens` against `kinds`: the
/// values have the shapes of the types, and their encoding stays within the
/// words the codec can count.
pub open spec fn encodable(tokens: Seq<Value>, kinds: Seq<Kind>) -> bool {
    fit(tokens, kinds) && total(weights(tokens), tokens.len() as int) <= WORD_LIMIT
}

/// Lists the names in the function table of `abi`.
///
/// Reads the keys of `Contract::functions`. Believed: every name returned is a
/// key of the table, and every key of the table is returned.
#[verifier::external_body]
pub(crate) fn abi_function_names(abi: &Abi) -> (names: Vec<String>)
    ensures
        forall|i: int|
            0 <= i < names@.len() ==> abi_functions(*abi).dom().contains(#[trigger] names@[i]@),
        forall|n: Seq<char>|
            abi_functions(*abi).dom().contains(n) ==> exists|i: int|
                0 <= i < names@.len() && #[trigger] names@[i]@ == n,
{
    abi.functions.keys().cloned().collect()
}

/// Hands out the overloads declared under `name`, none if the name is unknown.
///
/// Reads `Contract::functions` at `name`. Believed: the result is the table's
/// entry for the name, in its order, and is empty where there is no entry.
#[verifier::external_body]
pub(crate) fn abi_functions_named(abi: &Abi, name: &str) -> (overloads: Vec<Function>)
    ensures
        abi_functions(*abi).dom().contains(name@) ==> overloads@ == abi_functions(*abi)[name@],
        !abi_functions(*abi).dom().contains(name@) ==> overloads@.len() == 0,
{
    abi.functions.get(name).cloned().unwrap_or_default()
}

/// Hands out the first event declared under `name`.
///
/// Calls `Contract::event`. Believed: the result is the first event of the
/// table's entry for the name, and an error where the name has no event.
#[verifier::external_body]
pub(crate) fn abi_event_named(abi: &Abi, name: &str) -> (found: Result<Event, Error>)
    ensures
        found is Ok <==> (abi_events(*abi).dom().contains(name@) && abi_events(*abi)[name@].len()
            > 0),
        found matches Ok(event) ==> event == abi_events(*abi)[name@][0],
{
    abi.event(name).cloned()
}

/// Hands out the constructor of `abi`, if it declares one.
///
/// Calls `Contract::constructor`.
#[verifier::external_body]
pub(crate) fn abi_constructor_of(abi: &Abi) -> (constructor: Option<Constructor>)
    ensures
        constructor == abi_constructor(*abi),
{
    abi.constructor().cloned()
}

/// Computes the canonical signature of a function.
///
/// Calls `FunctionExt::abi_signature`, which depends on the function alone.
#[verifier::external_body]
pub(crate) fn signature_of(function: &Function) -> (signature: String)
    ensures
        signature@ == function_signature(*function),
{
    ethcontract_common::FunctionExt::abi_signature(function)
}

/// Reads the declared state mutability of a function.
///
/// Picks the field `Function::state_mutability`.
#[verifier::external_body]
pub(crate) fn mutability_of(function: &Function) -> (mutability: StateMutability)
    ensures
        mutability == function_mutability(*function),
{
    match function.state_mutability {
        ethcontract_common::abi::StateMutability::Pure => StateMutability::Pure,
        ethcontract_common::abi::StateMutability::View => StateMutability::View,
        ethcontract_common::abi::StateMutability::NonPayable => StateMutability::NonPayable,
        ethcontract_common::abi::StateMutability::Payable => StateMutability::Payable,
    }
}

/// Reads the legacy `constant` flag of a function.
///
/// Picks the field `Function::constant`.
#[verifier::external_body]
#[allow(deprecated)]
pub(crate) fn constant_flag_of(function: &Function) -> (flag: Option<bool>)
    ensures
        flag == function_constant_flag(*function),
{
    function.constant
}

/// Converts a parameter type of the codec to the library's.
///
/// Variant for variant, over `ParamType` of the codec.
#[verifier::external_body]
fn kind_of(kind: &CodecKind) -> Kind {
    match kind {
        CodecKind::Address => Kind::Address,
        CodecKind::Bytes => Kind::Bytes,
        CodecKind::Int(size) => Kind::Int(*size),
        CodecKind::Uint(size) => Kind::Uint(*size),
        CodecKind::Bool => Kind::Bool,
        CodecKind::String => Kind::String,
        CodecKind::Array(of) => Kind::Array(Box::new(kind_of(of))),
        CodecKind::FixedBytes(size) => Kind::FixedBytes(*size),
        CodecKind::FixedArray(of, size) => Kind::FixedArray(Box::new(kind_of(of)), *size),
        CodecKind::Tuple(of) => Kind::Tuple(of.iter().map(kind_of).collect()),
    }
}

/// Converts a value of the library to the codec's.
///
/// Variant for variant, into `Token` of the codec; the variants that hold
/// other values are converted by `nested_to_codec`.
#[verifier::external_body]
fn to_codec(value: &Value) -> CodecValue {
    match value {
        Value::Address(address) => CodecValue::Address(address.bytes.into()),
        Value::FixedBytes(bytes) => CodecValue::FixedBytes(bytes.clone()),
        Value::Bytes(bytes) => CodecValue::Bytes(bytes.clone()),
        Value::Int(value) => CodecValue::Int(CodecWord(value.limbs)),
        Value::Uint(value) => CodecValue::Uint(CodecWord(value.limbs)),
        Value::Bool(value) => CodecValue::Bool(*value),
        Value::String(text) => CodecValue::String(text.clone()),
        nested => nested_to_codec(nested),
    }
}

/// Converts a value that holds other values to the codec's.
///
/// Variant for variant, into `Token` of the codec.
#[verifier::external_body]
fn nested_to_codec(value: &Value) -> CodecValue {
    match value {
        Value::FixedArray(items) => CodecValue::FixedArray(items.iter().map(to_codec).collect()),
        Value::Array(items) => CodecValue::Array(items.iter().map(to_codec).collect()),
        Value::Tuple(items) => CodecValue::Tuple(items.iter().map(to_codec).collect()),
        plain => to_codec(plain),
    }
}

/// Converts a value of the codec to the library's.
///
/// Variant for variant, out of `Token` of the codec; the variants that hold
/// other values are converted by `nested_from_codec`.
#[verifier::external_body]
fn from_codec(value: CodecValue) -> Value {
    match value {
        CodecValue::Address(address) => Value::Address(Address { bytes: address.0 }),
        CodecValue::FixedBytes(bytes) => Value::FixedBytes(bytes),
        CodecValue::Bytes(bytes) => Value::Bytes(bytes),
        CodecValue::Int(value) => Value::Int(U256 { limbs: value.0 }),
        CodecValue::Uint(value) => Value::Uint(U256 { limbs: value.0 }),
        CodecValue::Bool(value) => Value::Bool(value),
        CodecValue::String(text) => Value::String(text),
        nested => nested_from_codec(nested),
    }
}

/// Converts a value of the codec that holds other values to the library's.
///
/// Variant for variant, out of `Token` of the codec.
#[verifier::external_body]
fn nested_from_codec(value: CodecValue) -> Value {
    match value {
        CodecValue::FixedArray(items) => Value::FixedArray(items.into_iter().map(from_codec).collect()),
        CodecValue::Array(items) => Value::Array(items.into_iter().map(from_codec).collect()),
        CodecValue::Tuple(items) => Value::Tuple(items.into_iter().map(from_codec).collect()),
        plain => from_codec(plain),
    }
}

/// Hands out the types of the inputs of a function.
///
/// Picks `kind` of each of `Function::inputs`.
#[verifier::external_body]
pub(crate) fn input_kinds_of(function: &Function) -> (kinds: Vec<Kind>)
    ensures
        kinds@ == function_inputs(*function),
{
    function.inputs.iter().map(|input| kind_of(&input.kind)).collect()
}

/// Hands out the types of the outputs of a function.
///
/// Picks `kind` of each of `Function::outputs`.
#[verifier::external_body]
pub(crate) fn output_kinds_of(function: &Function) -> (kinds: Vec<Kind>)
    ensures
        kinds@ == function_outputs(*function),
{
    function.outputs.iter().map(|output| kind_of(&output.kind)).collect()
}

/// Hands out the types of the inputs of a constructor.
///
/// Picks `kind` of each of `Constructor::inputs`.
#[verifier::external_body]
pub(crate) fn constructor_kinds_of(constructor: &Constructor) -> (kinds: Vec<Kind>)
    ensures
        kinds@ == constructor_inputs(*constructor),
{
    constructor.inputs.iter().map(|input| kind_of(&input.kind)).collect()
}

/// Hands out the types of the parameters of an event.
///
/// Picks `kind` of each of `Event::inputs`.
#[verifier::external_body]
pub(crate) fn event_kinds_of(event: &Event) -> (kinds: Vec<Kind>)
    ensures
        kinds@ == event_inputs(*event),
{
    event.inputs.iter().map(|input| kind_of(&input.kind)).collect()
}

/// Encodes a call of `function` with the given arguments.
///
/// Calls `Function::encode_input`, which depends on the function and the
/// arguments alone. Its type check indexes the types of a tuple by the
/// positions of the tuple's values, and its encoder counts words in 32 bits:
/// values of another shape than the input types, and values too large to
/// count, are left out.
#[verifier::external_body]
pub(crate) fn encode_call(function: &Function, tokens: &Vec<Value>) -> (data: Result<
    Vec<u8>,
    Error,
>)
    requires
        encodable(tokens@, function_inputs(*function)),
    ensures
        data is Ok <==> function_call_data(*function, tokens@) is Some,
        data matches Ok(bytes) ==> function_call_data(*function, tokens@) == Some(bytes@),
{
    let tokens: Vec<_> = tokens.iter().map(to_codec).collect();
    function.encode_input(&tokens)
}

/// Decodes the bytes that a call of `function` returned.
///
/// Calls `Function::decode_output`, which depends on the function and the
/// bytes alone. Its decoder adds a declared byte length to an offset
/// unchecked and does not advance on an empty tuple or fixed array: output
/// types with fixed bytes longer than a word, or with an empty tuple or
/// fixed array, are left out.
#[verifier::external_body]
pub(crate) fn decode_output(function: &Function, data: &Vec<u8>) -> (values: Result<
    Vec<Value>,
    Error,
>)
    requires
        all_decodable(function_outputs(*function)),
    ensures
        values is Ok <==> function_output(*function, data@) is Some,
        values matches Ok(tokens) ==> function_output(*function, data@) == Some(tokens@),
{
    let tokens = function.decode_output(data)?;
    Ok(tokens.into_iter().map(from_codec).collect())
}

/// Appends the encoded constructor arguments to deployment code.
///
/// Calls `Constructor::encode_input`, which returns the code followed by the
/// encoding of the arguments. Values of another shape than the input types,
/// and values too large to count, are left out as for a call.
#[verifier::external_body]
pub(crate) fn encode_constructor(
    constructor: &Constructor,
    code: Vec<u8>,
    tokens: &Vec<Value>,
) -> (data: Result<Vec<u8>, Error>)
    requires
        encodable(tokens@, constructor_inputs(*constructor)),
    ensures
        data is Ok <==> constructor_arguments(*constructor, tokens@) is Some,
        data matches Ok(bytes) ==> bytes@ == code@ + constructor_arguments(
            *constructor,
            tokens@,
        ).unwrap(),
{
    let tokens: Vec<_> = tokens.iter().map(to_codec).collect();
    constructor.encode_input(code, &tokens)
}

/// Computes the topic that identifies `event` in a log.
///
/// Calls `Event::signature`, which depends on the event alone.
#[verifier::external_body]
pub(crate) fn topic_of(event: &Event) -> (topic: [u8; 32])
    ensures
        topic@ == event_topic(*event),
{
    event.signature().0
}

/// Reads whether an event is declared anonymous.
///
/// Picks the field `Event::anonymous`.
#[verifier::external_body]
pub(crate) fn anonymous_flag_of(event: &Event) -> (anonymous: bool)
    ensures
        anonymous == event_anonymous(*event),
{
    event.anonymous
}

/// Decodes a raw log entry as an occurrence of `event`.
///
/// Calls `Event::parse_log`, which depends on the event, the topics and the
/// data alone. It decodes as `Function::decode_output` does: parameter types
/// with fixed bytes longer than a word, or with an empty tuple or fixed
/// array, are left out.
#[verifier::external_body]
pub(crate) fn decode_log(event: &Event, topics: &Vec<[u8; 32]>, data: &Vec<u8>) -> (log: Result<
    Vec<LogParam>,
    Error,
>)
    requires
        all_decodable(event_inputs(*event)),
    ensures
        log is Ok <==> event_log(*event, topics@, data@) is Some,
        log matches Ok(entry) ==> event_log(*event, topics@, data@) == Some(entry@),
{
    let topics = topics.iter().map(|topic| (*topic).into()).collect();
    let log = event.parse_log((topics, data.clone()).into())?;
    Ok(log.params.into_iter().map(|p| LogParam { name: p.name, value: from_codec(p.value) }).collect())
}

} // verus!

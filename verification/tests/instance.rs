use ethcontract_common::abi::{
    Contract, Event, EventParam, Function, Param, ParamType, StateMutability,
};
use evm_contract::{
    AbiError, Address, CallParameters, Instance, LogFilter, MethodDefaults, MethodError,
    StreamAction, Value, DEFAULT_POLL_INTERVAL, U256,
};
use std::collections::BTreeMap;

fn param(name: &str, kind: ParamType) -> Param {
    Param { name: name.to_string(), kind, internal_type: None }
}

#[allow(deprecated)]
fn function(
    name: &str,
    inputs: Vec<Param>,
    outputs: Vec<Param>,
    constant: Option<bool>,
    state_mutability: StateMutability,
) -> Function {
    Function { name: name.to_string(), inputs, outputs, constant, state_mutability }
}

fn transfer() -> Function {
    function(
        "transfer",
        vec![param("to", ParamType::Address), param("amount", ParamType::Uint(256))],
        vec![param("", ParamType::Bool)],
        None,
        StateMutability::NonPayable,
    )
}

fn balance_of() -> Function {
    function(
        "balanceOf",
        vec![param("owner", ParamType::Address)],
        vec![param("", ParamType::Uint(256))],
        None,
        StateMutability::View,
    )
}

fn deposit() -> Function {
    function("deposit", vec![], vec![], None, StateMutability::Payable)
}

fn legacy_total() -> Function {
    function(
        "total",
        vec![],
        vec![param("", ParamType::Uint(256))],
        Some(true),
        StateMutability::NonPayable,
    )
}

fn set_uint() -> Function {
    function("set", vec![param("v", ParamType::Uint(256))], vec![], None, StateMutability::NonPayable)
}

fn set_bool() -> Function {
    function("set", vec![param("v", ParamType::Bool)], vec![], None, StateMutability::NonPayable)
}

fn transfer_event() -> Event {
    Event {
        name: "Transfer".to_string(),
        inputs: vec![
            EventParam { name: "from".to_string(), kind: ParamType::Address, indexed: true },
            EventParam { name: "to".to_string(), kind: ParamType::Address, indexed: true },
            EventParam { name: "value".to_string(), kind: ParamType::Uint(256), indexed: false },
        ],
        anonymous: false,
    }
}

fn anonymous_event() -> Event {
    Event {
        name: "Ping".to_string(),
        inputs: vec![EventParam {
            name: "value".to_string(),
            kind: ParamType::Uint(256),
            indexed: false,
        }],
        anonymous: true,
    }
}

fn token_abi() -> Contract {
    let mut functions = BTreeMap::new();
    functions.insert("transfer".to_string(), vec![transfer()]);
    functions.insert("balanceOf".to_string(), vec![balance_of()]);
    functions.insert("deposit".to_string(), vec![deposit()]);
    functions.insert("total".to_string(), vec![legacy_total()]);
    functions.insert("set".to_string(), vec![set_uint(), set_bool()]);
    let mut events = BTreeMap::new();
    events.insert("Transfer".to_string(), vec![transfer_event()]);
    events.insert("Ping".to_string(), vec![anonymous_event()]);
    events.insert("Never".to_string(), vec![]);
    Contract {
        constructor: None,
        functions,
        events,
        errors: BTreeMap::new(),
        receive: false,
        fallback: false,
    }
}

fn address(last: u8) -> Address {
    let mut bytes = [0u8; 20];
    bytes[0] = 0xab;
    bytes[19] = last;
    Address { bytes }
}

fn address_token(address: Address) -> Value {
    Value::Address(address)
}

fn uint_token(value: u64) -> Value {
    Value::Uint(U256::from_u64(value))
}

fn word(value: u64) -> Vec<u8> {
    let mut bytes = vec![0u8; 24];
    bytes.extend(value.to_be_bytes());
    bytes
}

fn address_word(address: Address) -> Vec<u8> {
    let mut bytes = vec![0u8; 12];
    bytes.extend(address.bytes);
    bytes
}

fn instance() -> Instance<()> {
    Instance::at((), token_abi(), address(1))
}

#[test]
fn at_binds_interface_and_address() {
    let instance = instance();
    assert_eq!(instance.address(), address(1));
    assert_eq!(*instance.abi(), token_abi());
    assert_eq!(
        instance.defaults(),
        MethodDefaults { from: None, gas: None, gas_price: None, value: None }
    );
    instance.web3();
}

#[test]
fn every_signature_resolves_to_its_own_function() {
    let instance = instance();
    let cases: Vec<(&str, Vec<Value>, Function)> = vec![
        (
            "transfer(address,uint256)",
            vec![address_token(address(7)), uint_token(1)],
            transfer(),
        ),
        ("balanceOf(address)", vec![address_token(address(7))], balance_of()),
        ("deposit()", vec![], deposit()),
        ("total()", vec![], legacy_total()),
        ("set(uint256)", vec![uint_token(5)], set_uint()),
        ("set(bool)", vec![Value::Bool(true)], set_bool()),
    ];
    for (signature, params, expected) in cases {
        let builder = instance.method(signature, params).unwrap();
        assert_eq!(builder.function, expected);
        assert_eq!(builder.address, address(1));
    }
}

#[test]
fn transfer_call_data_is_selector_then_encoded_arguments() {
    let instance = instance();
    let recipient = address(9);
    let builder = instance
        .method("transfer(address,uint256)", vec![address_token(recipient), uint_token(100)])
        .unwrap();
    let mut expected = vec![0xa9, 0x05, 0x9c, 0xbb];
    expected.extend(address_word(recipient));
    expected.extend(word(100));
    assert_eq!(builder.data, expected);
    assert_eq!(builder.data.len(), 4 + 32 + 32);
}

#[test]
fn overloads_are_told_apart_by_signature() {
    let instance = instance();
    let by_uint = instance.method("set(uint256)", vec![uint_token(1)]).unwrap();
    let by_bool = instance.method("set(bool)", vec![Value::Bool(true)]).unwrap();
    assert_eq!(by_uint.data[..4], [0x60, 0xfe, 0x47, 0xb1]);
    assert_eq!(by_bool.data[..4], [0x5f, 0x76, 0xf6, 0xab]);
    assert_eq!(by_uint.data[4..], word(1)[..]);
    assert_eq!(by_bool.data[4..], word(1)[..]);
}

#[test]
fn unknown_signature_is_a_resolution_error() {
    let instance = instance();
    match instance.method("transfer(address)", vec![address_token(address(2))]) {
        Err(AbiError::InvalidName(name)) => assert_eq!(name, "transfer(address)"),
        _ => panic!("expected an unknown function"),
    }
    assert!(matches!(instance.method("transfer", vec![]), Err(AbiError::InvalidName(_))));
    assert!(matches!(instance.view_method("", vec![]), Err(AbiError::InvalidName(_))));
}

#[test]
fn arguments_that_do_not_fit_are_an_encoding_error() {
    let instance = instance();
    assert!(matches!(
        instance.method("transfer(address,uint256)", vec![uint_token(1)]),
        Err(AbiError::InvalidData)
    ));
    assert!(matches!(
        instance.method("set(bool)", vec![uint_token(1)]),
        Err(AbiError::InvalidData)
    ));
    assert!(matches!(
        instance.view_method("balanceOf(address)", vec![]),
        Err(AbiError::InvalidData)
    ));
}

fn shapes_abi() -> Contract {
    let pair = ParamType::Tuple(vec![ParamType::Uint(256)]);
    let mut functions = BTreeMap::new();
    functions.insert(
        "one".to_string(),
        vec![function("one", vec![param("t", pair)], vec![], None, StateMutability::NonPayable)],
    );
    functions.insert(
        "many".to_string(),
        vec![function(
            "many",
            vec![
                param("a", ParamType::Array(Box::new(ParamType::Uint(8)))),
                param("b", ParamType::FixedArray(Box::new(ParamType::Bool), 2)),
                param("c", ParamType::FixedBytes(4)),
                param("d", ParamType::Bytes),
                param("e", ParamType::String),
                param("f", ParamType::Int(256)),
            ],
            vec![],
            None,
            StateMutability::NonPayable,
        )],
    );
    functions.insert(
        "wide".to_string(),
        vec![function(
            "wide",
            vec![],
            vec![param("", ParamType::Uint(256)), param("", ParamType::FixedBytes(usize::MAX))],
            None,
            StateMutability::View,
        )],
    );
    functions.insert(
        "hollow".to_string(),
        vec![function(
            "hollow",
            vec![],
            vec![param("", ParamType::FixedArray(Box::new(ParamType::Tuple(vec![])), usize::MAX))],
            None,
            StateMutability::View,
        )],
    );
    Contract {
        constructor: None,
        functions,
        events: BTreeMap::new(),
        errors: BTreeMap::new(),
        receive: false,
        fallback: false,
    }
}

#[test]
fn tuple_of_another_arity_is_refused_not_encoded() {
    let instance = Instance::at((), shapes_abi(), address(1));
    let two = Value::Tuple(vec![uint_token(1), uint_token(2)]);
    assert!(matches!(
        instance.method("one((uint256))", vec![two]),
        Err(AbiError::InvalidData)
    ));
    assert!(matches!(
        instance.method("one((uint256))", vec![Value::Tuple(vec![])]),
        Err(AbiError::InvalidData)
    ));
    assert!(matches!(
        instance.method("one((uint256))", vec![Value::Tuple(vec![Value::Bool(true)])]),
        Err(AbiError::InvalidData)
    ));
    let builder = instance.method("one((uint256))", vec![Value::Tuple(vec![uint_token(5)])]).unwrap();
    assert_eq!(builder.data[4..], word(5)[..]);
    assert_eq!(builder.data.len(), 36);
}

#[test]
fn nested_values_are_encoded_where_they_have_the_shape() {
    let instance = Instance::at((), shapes_abi(), address(1));
    let signature = "many(uint8[],bool[2],bytes4,bytes,string,int256)";
    let arguments = || {
        vec![
            Value::Array(vec![uint_token(1), uint_token(2), uint_token(3)]),
            Value::FixedArray(vec![Value::Bool(true), Value::Bool(false)]),
            Value::FixedBytes(vec![1, 2, 3, 4]),
            Value::Bytes(vec![9; 33]),
            Value::String("hi".to_string()),
            Value::Int(U256 { limbs: [u64::MAX; 4] }),
        ]
    };
    let builder = instance.method(signature, arguments()).unwrap();
    assert_eq!(builder.data.len(), 4 + 32 * (7 + 4 + 3 + 2));
    assert_eq!(builder.data[4 + 32 * 6..4 + 32 * 7], [0xff; 32]);
    let mut short = arguments();
    short[1] = Value::FixedArray(vec![Value::Bool(true)]);
    assert!(matches!(instance.method(signature, short), Err(AbiError::InvalidData)));
    let mut long = arguments();
    long[2] = Value::FixedBytes(vec![1, 2, 3, 4, 5]);
    assert!(matches!(instance.method(signature, long), Err(AbiError::InvalidData)));
    let mut mixed = arguments();
    mixed[0] = Value::Array(vec![uint_token(1), Value::Bool(true)]);
    assert!(matches!(instance.method(signature, mixed), Err(AbiError::InvalidData)));
    let mut swapped = arguments();
    swapped[3] = Value::String("hi".to_string());
    assert!(matches!(instance.method(signature, swapped), Err(AbiError::InvalidData)));
}

#[test]
fn outputs_that_cannot_be_decoded_against_are_refused() {
    let instance = Instance::at((), shapes_abi(), address(1));
    let wide = instance.view_method("wide()", vec![]).unwrap();
    assert!(matches!(wide.decode(&vec![0u8; 64]), Err(AbiError::InvalidData)));
    let hollow = instance.method("hollow()", vec![]).unwrap();
    assert!(matches!(hollow.decode(&vec![0u8; 64]), Err(AbiError::InvalidData)));
}

#[test]
fn defaults_apply_unless_the_call_overrides() {
    let mut instance = instance();
    let defaults = MethodDefaults {
        from: Some(address(3)),
        gas: Some(U256::from_u64(21000)),
        gas_price: None,
        value: None,
    };
    instance.set_defaults(defaults);
    assert_eq!(instance.defaults(), defaults);
    assert_eq!(instance.address(), address(1));
    let builder = instance.method("deposit()", vec![]).unwrap();
    assert_eq!(
        builder.parameters,
        CallParameters {
            from: Some(address(3)),
            gas: Some(U256::from_u64(21000)),
            gas_price: None,
            value: None,
        }
    );
    let builder = builder.from(address(4)).gas_price(U256::from_u64(2)).value(U256::from_u64(10));
    assert_eq!(builder.parameters.from, Some(address(4)));
    assert_eq!(builder.parameters.gas, Some(U256::from_u64(21000)));
    assert_eq!(builder.parameters.gas_price, Some(U256::from_u64(2)));
    assert_eq!(builder.parameters.value, Some(U256::from_u64(10)));
    let merged = CallParameters {
        from: Some(address(5)),
        gas: None,
        gas_price: Some(U256::from_u64(7)),
        value: None,
    }
    .with_defaults(&defaults);
    assert_eq!(merged.from, Some(address(5)));
    assert_eq!(merged.gas, Some(U256::from_u64(21000)));
    assert_eq!(merged.gas_price, Some(U256::from_u64(7)));
    let again = builder.with_defaults(&MethodDefaults {
        from: Some(address(6)),
        gas: Some(U256::from_u64(1)),
        gas_price: Some(U256::from_u64(1)),
        value: Some(U256::from_u64(1)),
    });
    assert_eq!(again.parameters.value, Some(U256::from_u64(10)));
    assert_eq!(again.parameters.from, Some(address(4)));
    assert_eq!(again.parameters.gas, Some(U256::from_u64(21000)));
    assert_eq!(again.parameters.gas_price, Some(U256::from_u64(2)));
}

#[test]
fn default_value_is_attached_and_checked() {
    let mut instance = instance();
    instance.set_defaults(MethodDefaults {
        from: None,
        gas: None,
        gas_price: None,
        value: Some(U256::from_u64(8)),
    });
    let payable = instance.method("deposit()", vec![]).unwrap();
    assert_eq!(payable.parameters.value, Some(U256::from_u64(8)));
    assert_eq!(payable.transaction().unwrap().value, Some(U256::from_u64(8)));
    let other = instance
        .method("transfer(address,uint256)", vec![address_token(address(2)), uint_token(1)])
        .unwrap();
    assert_eq!(other.transaction(), Err(MethodError::NonPayable));
    assert!(other.value(U256::zero()).transaction().is_ok());
}

#[test]
fn view_call_of_a_state_mutating_function_is_rejected() {
    let instance = instance();
    let view = instance
        .view_method("transfer(address,uint256)", vec![address_token(address(2)), uint_token(1)])
        .unwrap();
    assert_eq!(view.call_request(), Err(MethodError::StateMutating));
    let view = instance.view_method("deposit()", vec![]).unwrap();
    assert_eq!(view.call_request(), Err(MethodError::StateMutating));
}

#[test]
fn view_call_of_a_view_function_is_a_query() {
    let instance = instance();
    let owner = address(2);
    let view = instance
        .view_method("balanceOf(address)", vec![address_token(owner)])
        .unwrap()
        .from(address(8))
        .gas(U256::from_u64(5))
        .gas_price(U256::from_u64(6));
    let request = view.call_request().unwrap();
    assert_eq!(request.to, address(1));
    assert_eq!(request.from, Some(address(8)));
    assert_eq!(request.gas, Some(U256::from_u64(5)));
    assert_eq!(request.gas_price, Some(U256::from_u64(6)));
    assert_eq!(request.value, None);
    let mut expected = vec![0x70, 0xa0, 0x82, 0x31];
    expected.extend(address_word(owner));
    assert_eq!(request.data, expected);
}

#[test]
fn legacy_constant_flag_makes_a_function_read_only() {
    let instance = instance();
    let builder = instance.method("total()", vec![]).unwrap();
    assert!(builder.is_read_only());
    assert!(!builder.is_payable());
    assert_eq!(builder.transaction(), Err(MethodError::ReadOnly));
    assert!(builder.view().call_request().is_ok());
}

#[test]
fn read_only_function_is_rejected_as_transaction() {
    let instance = instance();
    let builder = instance.method("balanceOf(address)", vec![address_token(address(2))]).unwrap();
    assert!(builder.is_read_only());
    assert_eq!(builder.transaction(), Err(MethodError::ReadOnly));
    assert!(builder.call_request().is_ok());
}

#[test]
fn value_is_rejected_by_a_function_that_accepts_none() {
    let instance = instance();
    let builder = instance
        .method("transfer(address,uint256)", vec![address_token(address(2)), uint_token(1)])
        .unwrap();
    assert!(!builder.is_read_only());
    let zero = builder.value(U256::zero());
    assert!(zero.transaction().is_ok());
    let some = zero.value(U256 { limbs: [0, 0, 1, 0] });
    assert_eq!(some.transaction(), Err(MethodError::NonPayable));
    assert_eq!(some.call_request(), Err(MethodError::NonPayable));
    let view = instance
        .view_method("balanceOf(address)", vec![address_token(address(2))])
        .unwrap();
    let mut method = view.method;
    method = method.value(U256::from_u64(1));
    assert_eq!(method.view().call_request(), Err(MethodError::NonPayable));
}

#[test]
fn payable_function_takes_value_in_a_transaction() {
    let instance = instance();
    let builder = instance.method("deposit()", vec![]).unwrap().value(U256::from_u64(3));
    assert!(builder.is_payable());
    let transaction = builder.transaction().unwrap();
    assert_eq!(transaction.to, Some(address(1)));
    assert_eq!(transaction.value, Some(U256::from_u64(3)));
    assert_eq!(transaction.data, vec![0xd0, 0xe3, 0x0d, 0xb0]);
    assert_eq!(transaction.from, None);
}

#[test]
fn returned_bytes_decode_to_the_output_values() {
    let instance = instance();
    let view = instance
        .view_method("balanceOf(address)", vec![address_token(address(2))])
        .unwrap();
    assert_eq!(view.decode(&word(77)).unwrap(), vec![uint_token(77)]);
    assert!(matches!(view.decode(&vec![1, 2, 3]), Err(AbiError::Codec(_))));
    let builder = instance
        .method("transfer(address,uint256)", vec![address_token(address(2)), uint_token(1)])
        .unwrap();
    assert_eq!(builder.decode(&word(1)).unwrap(), vec![Value::Bool(true)]);
    assert!(matches!(builder.decode(&vec![]), Err(AbiError::Codec(_))));
}

#[test]
fn event_subscription_asks_for_the_topic_of_the_event() {
    let instance = instance();
    let builder = instance.event("Transfer").unwrap();
    let topic: [u8; 32] = [
        0xdd, 0xf2, 0x52, 0xad, 0x1b, 0xe2, 0xc8, 0x9b, 0x69, 0xc2, 0xb0, 0x68, 0xfc, 0x37, 0x8d,
        0xaa, 0x95, 0x2b, 0xa7, 0xf1, 0x63, 0xc4, 0xa1, 0x16, 0x28, 0xf5, 0x5a, 0x4d, 0xf5, 0x23,
        0xb3, 0xef,
    ];
    assert_eq!(builder.filter, LogFilter { address: address(1), topic: Some(topic) });
    assert_eq!(builder.event, transfer_event());
    assert_eq!(builder.poll_interval, DEFAULT_POLL_INTERVAL);
    assert_eq!(builder.from_block, None);
}

#[test]
fn anonymous_event_has_no_topic() {
    let instance = instance();
    let builder = instance.event("Ping").unwrap();
    assert_eq!(builder.filter, LogFilter { address: address(1), topic: None });
    assert_eq!(builder.event, anonymous_event());
}

#[test]
fn unknown_event_is_a_resolution_error() {
    let instance = instance();
    match instance.event("Approval") {
        Err(AbiError::InvalidName(name)) => assert_eq!(name, "Approval"),
        _ => panic!("expected an unknown event"),
    }
    assert!(matches!(instance.event("Never"), Err(AbiError::InvalidName(_))));
    assert!(matches!(instance.event("transfer"), Err(AbiError::InvalidName(_))));
}

#[test]
fn all_events_asks_for_every_log_of_the_contract() {
    let instance = instance();
    let mut stream = instance.all_events();
    assert_eq!(stream.filter, LogFilter { address: address(1), topic: None });
    assert_eq!(stream.cursor.interval, DEFAULT_POLL_INTERVAL);
    assert_eq!(stream.cursor.next_block, None);
    assert_eq!(stream.poll(0, 10), StreamAction::Wait(DEFAULT_POLL_INTERVAL));
    assert_eq!(stream.cursor.next_block, Some(11));
}

#[test]
fn empty_interface_resolves_nothing() {
    let instance = Instance::at((), Contract::default(), address(1));
    assert!(matches!(instance.method("f()", vec![]), Err(AbiError::InvalidName(_))));
    assert!(matches!(instance.event("E"), Err(AbiError::InvalidName(_))));
}

#[test]
fn u256_zero_is_told_from_other_values() {
    assert!(U256::zero().is_zero());
    assert!(U256::from_u64(0).is_zero());
    assert!(!U256::from_u64(1).is_zero());
    assert!(!U256 { limbs: [0, 0, 0, 1] }.is_zero());
    assert_eq!(U256::from_u64(9).limbs, [9, 0, 0, 0]);
}

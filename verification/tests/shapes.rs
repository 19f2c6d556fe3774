use evm_contract::bytecode::is_template_text;
use evm_contract::tokens::{
    are_decodable, is_decodable, token_fits, tokens_fit, weigh, weigh_all, WORD_LIMIT,
};
use evm_contract::{Address, Kind, Value, U256};

fn uint(value: u64) -> Value {
    Value::Uint(U256::from_u64(value))
}

#[test]
fn plain_values_fit_their_own_type_only() {
    let address = Value::Address(Address { bytes: [1; 20] });
    assert!(token_fits(&address, &Kind::Address));
    assert!(!token_fits(&address, &Kind::Uint(160)));
    assert!(token_fits(&uint(1), &Kind::Uint(8)));
    assert!(token_fits(&uint(1), &Kind::Uint(256)));
    assert!(!token_fits(&uint(1), &Kind::Int(256)));
    assert!(token_fits(&Value::Int(U256::zero()), &Kind::Int(8)));
    assert!(token_fits(&Value::Bool(true), &Kind::Bool));
    assert!(!token_fits(&Value::Bool(true), &Kind::String));
    assert!(token_fits(&Value::String(String::new()), &Kind::String));
    assert!(token_fits(&Value::Bytes(vec![]), &Kind::Bytes));
    assert!(!token_fits(&Value::Bytes(vec![]), &Kind::FixedBytes(0)));
}

#[test]
fn fixed_bytes_fit_up_to_the_declared_length() {
    assert!(token_fits(&Value::FixedBytes(vec![]), &Kind::FixedBytes(4)));
    assert!(token_fits(&Value::FixedBytes(vec![1; 4]), &Kind::FixedBytes(4)));
    assert!(!token_fits(&Value::FixedBytes(vec![1; 5]), &Kind::FixedBytes(4)));
    assert!(!token_fits(&Value::FixedBytes(vec![1; 4]), &Kind::Bytes));
}

#[test]
fn arrays_and_tuples_fit_by_length_and_items() {
    let items = || vec![uint(1), uint(2)];
    assert!(token_fits(&Value::Array(items()), &Kind::Array(Box::new(Kind::Uint(8)))));
    assert!(token_fits(&Value::Array(vec![]), &Kind::Array(Box::new(Kind::Bool))));
    assert!(!token_fits(&Value::Array(items()), &Kind::Array(Box::new(Kind::Bool))));
    assert!(!token_fits(&Value::Array(items()), &Kind::FixedArray(Box::new(Kind::Uint(8)), 2)));
    assert!(token_fits(&Value::FixedArray(items()), &Kind::FixedArray(Box::new(Kind::Uint(8)), 2)));
    assert!(!token_fits(
        &Value::FixedArray(items()),
        &Kind::FixedArray(Box::new(Kind::Uint(8)), 3)
    ));
    let pair = || Kind::Tuple(vec![Kind::Uint(8), Kind::Uint(8)]);
    assert!(token_fits(&Value::Tuple(items()), &pair()));
    assert!(!token_fits(&Value::Tuple(vec![uint(1)]), &pair()));
    assert!(!token_fits(&Value::Tuple(vec![uint(1), uint(2), uint(3)]), &pair()));
    assert!(!token_fits(&Value::Tuple(vec![uint(1), Value::Bool(true)]), &pair()));
    assert!(token_fits(&Value::Tuple(vec![]), &Kind::Tuple(vec![])));
    let nested = Value::Array(vec![Value::Tuple(items()), Value::Tuple(vec![uint(3)])]);
    assert!(!token_fits(&nested, &Kind::Array(Box::new(pair()))));
}

#[test]
fn lists_fit_one_for_one() {
    assert!(tokens_fit(&vec![], &vec![]));
    assert!(tokens_fit(&vec![uint(1), Value::Bool(true)], &vec![Kind::Uint(8), Kind::Bool]));
    assert!(!tokens_fit(&vec![uint(1)], &vec![Kind::Uint(8), Kind::Bool]));
    assert!(!tokens_fit(&vec![uint(1), Value::Bool(true)], &vec![Kind::Uint(8)]));
    assert!(!tokens_fit(&vec![Value::Bool(true), uint(1)], &vec![Kind::Uint(8), Kind::Bool]));
}

#[test]
fn weight_counts_the_words_of_an_encoding() {
    assert_eq!(weigh(&uint(7)), Some(1));
    assert_eq!(weigh(&Value::Bool(false)), Some(1));
    assert_eq!(weigh(&Value::Address(Address { bytes: [0; 20] })), Some(1));
    assert_eq!(weigh(&Value::FixedBytes(vec![])), Some(0));
    assert_eq!(weigh(&Value::FixedBytes(vec![0; 32])), Some(1));
    assert_eq!(weigh(&Value::FixedBytes(vec![0; 33])), Some(2));
    assert_eq!(weigh(&Value::Bytes(vec![])), Some(2));
    assert_eq!(weigh(&Value::Bytes(vec![0; 33])), Some(4));
    assert_eq!(weigh(&Value::String("h\u{e9}".to_string())), Some(3));
    assert_eq!(weigh(&Value::Array(vec![uint(1), uint(2)])), Some(4));
    assert_eq!(weigh(&Value::FixedArray(vec![uint(1), uint(2)])), Some(3));
    assert_eq!(weigh(&Value::Tuple(vec![Value::Bytes(vec![1]), uint(2)])), Some(5));
    assert_eq!(weigh_all(&vec![]), Some(0));
    assert_eq!(weigh_all(&vec![uint(1), Value::Bytes(vec![0; 64])]), Some(5));
    assert_eq!(WORD_LIMIT, 1 << 26);
}

#[test]
fn types_are_decodable_unless_they_stall_or_overrun() {
    assert!(is_decodable(&Kind::Address));
    assert!(is_decodable(&Kind::Uint(256)));
    assert!(is_decodable(&Kind::FixedBytes(32)));
    assert!(is_decodable(&Kind::FixedBytes(0)));
    assert!(!is_decodable(&Kind::FixedBytes(33)));
    assert!(!is_decodable(&Kind::FixedBytes(usize::MAX)));
    assert!(!is_decodable(&Kind::Tuple(vec![])));
    assert!(is_decodable(&Kind::Tuple(vec![Kind::Bool])));
    assert!(!is_decodable(&Kind::Tuple(vec![Kind::Bool, Kind::FixedBytes(40)])));
    assert!(is_decodable(&Kind::Array(Box::new(Kind::String))));
    assert!(!is_decodable(&Kind::Array(Box::new(Kind::Tuple(vec![])))));
    assert!(is_decodable(&Kind::FixedArray(Box::new(Kind::Bytes), usize::MAX)));
    assert!(!is_decodable(&Kind::FixedArray(Box::new(Kind::Tuple(vec![])), 2)));
    assert!(!is_decodable(&Kind::FixedArray(Box::new(Kind::Bool), 0)));
    assert!(is_decodable(&Kind::FixedArray(Box::new(Kind::Bool), 1)));
    assert!(are_decodable(&vec![]));
    assert!(are_decodable(&vec![Kind::Bool, Kind::Bytes]));
    assert!(!are_decodable(&vec![Kind::Bool, Kind::FixedBytes(64)]));
}

#[test]
fn template_text_is_told_from_other_text() {
    let placeholder = format!("__{:_<38}", "Lib");
    assert!(is_template_text(""));
    assert!(is_template_text("00ffAB"));
    assert!(is_template_text(&format!("61{}62", placeholder)));
    assert!(is_template_text(&"_".repeat(40)));
    assert!(!is_template_text("0"));
    assert!(!is_template_text("0x00"));
    assert!(!is_template_text("zz"));
    assert!(!is_template_text("6_"));
    assert!(!is_template_text("60__lib_"));
    assert!(!is_template_text(&format!("_{}0", placeholder)));
    assert!(!is_template_text("\u{e9}\u{e9}"));
}

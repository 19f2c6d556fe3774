//! Argument and result values, and the types they are checked against, as
//! plain data of the library.
//!
//! The codec is only ever handed values whose shape was checked here: every
//! tuple has as many fields as its type, every fixed array its declared
//! length, and the whole takes up no more words than the codec can count.
//! Types it is asked to decode against are checked too: declared byte lengths,
//! tuples and fixed arrays must be ones the decoder finishes on.

use crate::types::{Address, U256};
use vstd::prelude::*;

verus! {

/// The type of one parameter.
#[derive(Debug, PartialEq, Eq)]
pub enum Kind {
    /// An address.
    Address,
    /// Bytes of any length.
    Bytes,
    /// A signed integer of the given width in bits.
    Int(usize),
    /// An unsigned integer of the given width in bits.
    Uint(usize),
    /// A boolean.
    Bool,
    /// Text.
    String,
    /// An array of any length.
    Array(Box<Kind>),
    /// Bytes of the given length.
    FixedBytes(usize),
    /// An array of the given length.
    FixedArray(Box<Kind>, usize),
    /// A tuple.
    Tuple(Vec<Kind>),
}

/// One argument or result value.
#[derive(Debug, PartialEq, Eq)]
pub enum Value {
    /// An address.
    Address(Address),
    /// Bytes of a fixed length.
    FixedBytes(Vec<u8>),
    /// Bytes of any length.
    Bytes(Vec<u8>),
    /// A signed integer, in two's complement.
    Int(U256),
    /// An unsigned integer.
    Uint(U256),
    /// A boolean.
    Bool(bool),
    /// Text.
    String(String),
    /// An array of a fixed length.
    FixedArray(Vec<Value>),
    /// An array of any length.
    Array(Vec<Value>),
    /// A tuple.
    Tuple(Vec<Value>),
}

/// The most words one encoding may take up.
pub const WORD_LIMIT: u64 = 0x0400_0000;

/// The longest declared length of fixed bytes.
pub const FIXED_BYTES_LIMIT: usize = 32;

/// Whether a value has the shape of a type.
pub open spec fn fits(token: Value, kind: Kind) -> bool
    decreases token,
{
    match token {
        Value::Address(_) => kind is Address,
        Value::Bytes(_) => kind is Bytes,
        Value::Int(_) => kind is Int,
        Value::Uint(_) => kind is Uint,
        Value::Bool(_) => kind is Bool,
        Value::String(_) => kind is String,
        Value::FixedBytes(bytes) => {
            &&& kind matches Kind::FixedBytes(size)
            &&& bytes@.len() <= size
        },
        Value::Array(items) => {
            &&& kind matches Kind::Array(inner)
            &&& forall|i: int| 0 <= i < items@.len() ==> fits(#[trigger] items@[i], *inner)
        },
        Value::FixedArray(items) => {
            &&& kind matches Kind::FixedArray(inner, size)
            &&& items@.len() == size
            &&& forall|i: int| 0 <= i < items@.len() ==> fits(#[trigger] items@[i], *inner)
        },
        Value::Tuple(items) => {
            &&& kind matches Kind::Tuple(kinds)
            &&& items@.len() == kinds@.len()
            &&& forall|i: int| 0 <= i < items@.len() ==> fits(#[trigger] items@[i], kinds@[i])
        },
    }
}

/// Whether values have the shapes of types, one for one.
pub open spec fn fit(tokens: Seq<Value>, kinds: Seq<Kind>) -> bool {
    &&& tokens.len() == kinds.len()
    &&& forall|i: int| 0 <= i < tokens.len() ==> fits(#[trigger] tokens[i], kinds[i])
}

/// The sum of the first `count` of `sizes`.
pub open spec fn total(sizes: Seq<nat>, count: int) -> nat
    decreases count,
{
    if count <= 0 {
        0
    } else {
        total(sizes, count - 1) + sizes[count - 1]
    }
}

/// The words that bytes of the given length take up.
pub open spec fn byte_words(length: nat) -> nat {
    (length + 31) / 32
}

/// An upper bound on the words that the encoding of a value takes up.
pub open spec fn weight(token: Value) -> nat
    decreases token,
{
    match token {
        Value::FixedBytes(bytes) => byte_words(bytes@.len()),
        Value::Bytes(bytes) => 2 + byte_words(bytes@.len()),
        Value::String(text) => 2 + byte_words(vstd::utf8::encode_utf8(text@).len()),
        Value::Array(items) => 2 + total(weights(items@), items@.len() as int),
        Value::FixedArray(items) => 1 + total(weights(items@), items@.len() as int),
        Value::Tuple(items) => 1 + total(weights(items@), items@.len() as int),
        _ => 1,
    }
}

/// The weights of values, one for one.
pub open spec fn weights(tokens: Seq<Value>) -> Seq<nat>
    decreases tokens,
{
    Seq::new(
        tokens.len(),
        |i: int|
            if 0 <= i < tokens.len() {
                weight(tokens[i])
            } else {
                0
            },
    )
}

/// Whether the decoder can be asked to decode against a type: fixed bytes
/// are declared no longer than a word, and no tuple and no fixed array is
/// empty, so that decoding every item moves on through the data.
pub open spec fn decodable(kind: Kind) -> bool
    decreases kind,
{
    match kind {
        Kind::FixedBytes(size) => size <= 32,
        Kind::Array(inner) => decodable(*inner),
        Kind::FixedArray(inner, size) => size > 0 && decodable(*inner),
        Kind::Tuple(kinds) => {
            &&& kinds@.len() > 0
            &&& forall|i: int| 0 <= i < kinds@.len() ==> decodable(#[trigger] kinds@[i])
        },
        _ => true,
    }
}

/// Whether every one of the types is decodable.
pub open spec fn all_decodable(kinds: Seq<Kind>) -> bool {
    forall|i: int| 0 <= i < kinds.len() ==> decodable(#[trigger] kinds[i])
}

/// Sums grow with the count.
pub proof fn lemma_total_grows(sizes: Seq<nat>, fewer: int, more: int)
    requires
        fewer <= more,
    ensures
        total(sizes, fewer) <= total(sizes, more),
    decreases more - fewer,
{
    if fewer < more {
        lemma_total_grows(sizes, fewer, more - 1);
    }
}

/// Whether a value has the shape of a type.
pub fn token_fits(token: &Value, kind: &Kind) -> (ok: bool)
    ensures
        ok == fits(*token, *kind),
    decreases token,
{
    match token {
        Value::Address(_) => matches!(kind, Kind::Address),
        Value::Bytes(_) => matches!(kind, Kind::Bytes),
        Value::Int(_) => matches!(kind, Kind::Int(_)),
        Value::Uint(_) => matches!(kind, Kind::Uint(_)),
        Value::Bool(_) => matches!(kind, Kind::Bool),
        Value::String(_) => matches!(kind, Kind::String),
        Value::FixedBytes(bytes) => match kind {
            Kind::FixedBytes(size) => bytes.len() <= *size,
            _ => false,
        },
        Value::Array(items) => match kind {
            Kind::Array(inner) => items_fit(items, inner),
            _ => false,
        },
        Value::FixedArray(items) => match kind {
            Kind::FixedArray(inner, size) => items.len() == *size && items_fit(items, inner),
            _ => false,
        },
        Value::Tuple(items) => match kind {
            Kind::Tuple(kinds) => tokens_fit(items, kinds),
            _ => false,
        },
    }
}

/// Whether every one of the values has the shape of the one type.
fn items_fit(items: &Vec<Value>, kind: &Kind) -> (ok: bool)
    ensures
        ok == (forall|i: int| 0 <= i < items@.len() ==> fits(#[trigger] items@[i], *kind)),
    decreases items,
{
    let mut at: usize = 0;
    while at < items.len()
        invariant
            at <= items.len(),
            forall|i: int| 0 <= i < at ==> fits(#[trigger] items@[i], *kind),
        decreases items.len() - at,
    {
        if !token_fits(&items[at], kind) {
            return false;
        }
        at += 1;
    }
    true
}

/// Whether values have the shapes of types, one for one.
pub fn tokens_fit(tokens: &Vec<Value>, kinds: &Vec<Kind>) -> (ok: bool)
    ensures
        ok == fit(tokens@, kinds@),
    decreases tokens,
{
    if tokens.len() != kinds.len() {
        return false;
    }
    let mut at: usize = 0;
    while at < tokens.len()
        invariant
            at <= tokens.len(),
            tokens.len() == kinds.len(),
            forall|i: int| 0 <= i < at ==> fits(#[trigger] tokens@[i], kinds@[i]),
        decreases tokens.len() - at,
    {
        if !token_fits(&tokens[at], &kinds[at]) {
            return false;
        }
        at += 1;
    }
    true
}

/// The words that bytes of the given length take up, while within the limit.
fn words_of(length: usize) -> (words: Option<u64>)
    ensures
        match words {
            Some(count) => count == byte_words(length as nat) && count <= WORD_LIMIT,
            None => byte_words(length as nat) > WORD_LIMIT,
        },
{
    if length > 0x8000_0000 {
        return None;
    }
    let count: u64 = (length as u64 + 31) / 32;
    Some(count)
}

/// The weight of a value, while within the limit.
pub fn weigh(token: &Value) -> (words: Option<u64>)
    ensures
        match words {
            Some(count) => count == weight(*token) && count <= WORD_LIMIT,
            None => weight(*token) > WORD_LIMIT,
        },
    decreases token,
{
    let (base, inner): (u64, Option<u64>) = match token {
        Value::FixedBytes(bytes) => (0, words_of(bytes.len())),
        Value::Bytes(bytes) => (2, words_of(bytes.len())),
        Value::String(text) => (2, words_of(text.as_str().as_bytes().len())),
        Value::Array(items) => (2, weigh_all(items)),
        Value::FixedArray(items) => (1, weigh_all(items)),
        Value::Tuple(items) => (1, weigh_all(items)),
        _ => (1, Some(0)),
    };
    match inner {
        Some(count) => if base + count <= WORD_LIMIT {
            Some(base + count)
        } else {
            None
        },
        None => None,
    }
}

/// The weight of values taken together, while within the limit.
pub fn weigh_all(tokens: &Vec<Value>) -> (words: Option<u64>)
    ensures
        match words {
            Some(count) => count == total(weights(tokens@), tokens@.len() as int) && count
                <= WORD_LIMIT,
            None => total(weights(tokens@), tokens@.len() as int) > WORD_LIMIT,
        },
    decreases tokens,
{
    let mut sum: u64 = 0;
    let mut at: usize = 0;
    while at < tokens.len()
        invariant
            at <= tokens.len(),
            sum <= WORD_LIMIT,
            sum == total(weights(tokens@), at as int),
        decreases tokens.len() - at,
    {
        proof {
            lemma_total_grows(weights(tokens@), at + 1, tokens@.len() as int);
        }
        let next = match weigh(&tokens[at]) {
            Some(count) => count,
            None => {
                return None;
            },
        };
        if sum + next > WORD_LIMIT {
            return None;
        }
        sum = sum + next;
        at += 1;
    }
    Some(sum)
}

/// Whether the decoder can be asked to decode against a type.
pub fn is_decodable(kind: &Kind) -> (ok: bool)
    ensures
        ok == decodable(*kind),
    decreases kind,
{
    match kind {
        Kind::FixedBytes(size) => *size <= FIXED_BYTES_LIMIT,
        Kind::Array(inner) => is_decodable(&**inner),
        Kind::FixedArray(inner, size) => *size > 0 && is_decodable(&**inner),
        Kind::Tuple(kinds) => kinds.len() > 0 && are_decodable(kinds),
        _ => true,
    }
}

/// Whether every one of the types is decodable.
pub fn are_decodable(kinds: &Vec<Kind>) -> (ok: bool)
    ensures
        ok == all_decodable(kinds@),
    decreases kinds,
{
    let mut at: usize = 0;
    while at < kinds.len()
        invariant
            at <= kinds.len(),
            forall|i: int| 0 <= i < at ==> decodable(#[trigger] kinds@[i]),
        decreases kinds.len() - at,
    {
        if !is_decodable(&kinds[at]) {
            return false;
        }
        at += 1;
    }
    true
}

} // verus!

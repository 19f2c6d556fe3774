//! Deployment bytecode as a template: hexadecimal code interleaved with
//! placeholders for libraries that are linked in later.
//!
//! The template is a value of the common crate, and linking and decoding are
//! its work. This module names the text it holds, states what its functions
//! do to that text, and decides in verified code what they are called on: a
//! library name is checked before it is linked, and the text is checked to be
//! a template before it is decoded.
//!
//! Read from the left, a template is a run of units, each either one
//! hexadecimal digit or a placeholder: forty characters that begin with two
//! underscores and name a library in the thirty-eight that follow, padded
//! with underscores.

use crate::types::Address;
use ethcontract_common::Bytecode;
use vstd::prelude::*;
use vstd::string::{StrSliceExecFns, StringSliceAdditionalSpecFns};
use vstd::utf8::is_ascii_chars;

verus! {

/// A bytecode template.
#[verifier::external_type_specification]
#[verifier::external_body]
pub struct ExBytecode(ethcontract_common::Bytecode);

/// The text that a template holds.
pub uninterp spec fn bytecode_text(bytecode: Bytecode) -> Seq<char>;

/// The number of characters a placeholder takes up.
pub const PLACEHOLDER_LENGTH: usize = 40;

/// The longest library name a placeholder can hold.
pub const NAME_LENGTH: usize = 38;

/// Whether `c` is a hexadecimal digit, of either case.
pub open spec fn is_hex_digit(c: char) -> bool {
    ('0' <= c && c <= '9') || ('a' <= c && c <= 'f') || ('A' <= c && c <= 'F')
}

/// The value of the hexadecimal digit `c`.
pub open spec fn hex_value(c: char) -> int
    recommends
        is_hex_digit(c),
{
    if c <= '9' {
        c as int - '0' as int
    } else if c >= 'a' {
        c as int - 'a' as int + 10
    } else {
        c as int - 'A' as int + 10
    }
}

/// Whether `text` begins with the two underscores that open a placeholder.
pub open spec fn opens_placeholder(text: Seq<char>) -> bool {
    text.len() >= 2 && text[0] == '_' && text[1] == '_'
}

/// Whether `text` can be read unit by unit to its end: no placeholder is cut
/// short by the end of the text, and every other character is a hexadecimal
/// digit.
pub open spec fn scan(text: Seq<char>) -> bool
    decreases text.len(),
{
    if text.len() == 0 {
        true
    } else if opens_placeholder(text) {
        text.len() >= 40 && scan(text.skip(40))
    } else {
        is_hex_digit(text[0]) && scan(text.skip(1))
    }
}

/// Whether `text` is a template: ASCII, of even length, and read unit by unit
/// to its end.
pub open spec fn is_template(text: Seq<char>) -> bool {
    is_ascii_chars(text) && text.len() % 2 == 0 && scan(text)
}

/// The first placeholder of a template, all forty characters of it.
pub open spec fn first_placeholder(text: Seq<char>) -> Option<Seq<char>>
    decreases text.len(),
{
    if text.len() == 0 {
        None
    } else if opens_placeholder(text) {
        Some(text.take(40))
    } else {
        first_placeholder(text.skip(1))
    }
}

/// `text` without its leading underscores.
pub open spec fn trim_start(text: Seq<char>) -> Seq<char>
    decreases text.len(),
{
    if text.len() > 0 && text[0] == '_' {
        trim_start(text.skip(1))
    } else {
        text
    }
}

/// `text` without its trailing underscores.
pub open spec fn trim_end(text: Seq<char>) -> Seq<char>
    decreases text.len(),
{
    if text.len() > 0 && text.last() == '_' {
        trim_end(text.drop_last())
    } else {
        text
    }
}

/// The library that a placeholder names: the placeholder without the
/// underscores at either end.
pub open spec fn library_of(placeholder: Seq<char>) -> Seq<char> {
    trim_end(trim_start(placeholder))
}

/// The bytes that a template without placeholders stands for: each pair of
/// digits is one byte, high digit first.
pub open spec fn decoded(text: Seq<char>) -> Seq<u8> {
    Seq::new(
        (text.len() / 2) as nat,
        |i: int| (16 * hex_value(text[2 * i]) + hex_value(text[2 * i + 1])) as u8,
    )
}

/// Whether `c` may stand in a library name: an ASCII letter or digit, an
/// underscore or a dollar sign.
pub open spec fn is_name_char(c: char) -> bool {
    ('0' <= c && c <= '9') || ('a' <= c && c <= 'z') || ('A' <= c && c <= 'Z') || c == '_' || c
        == '$'
}

/// Whether `name` can be linked: it fits a placeholder and holds only
/// characters that may stand in a library name.
pub open spec fn valid_library_name(name: Seq<char>) -> bool {
    name.len() <= 38 && forall|i: int| 0 <= i < name.len() ==> is_name_char(#[trigger] name[i])
}

/// The placeholder of the library `name`: two underscores, the name, and
/// underscores up to forty characters.
pub open spec fn placeholder(name: Seq<char>) -> Seq<char>
    recommends
        name.len() <= 38,
{
    seq!['_', '_'] + name + Seq::new((38 - name.len()) as nat, |i: int| '_')
}

/// The lower-case hexadecimal digit of a value below 16.
pub open spec fn hex_digit(value: int) -> char
    recommends
        0 <= value < 16,
{
    if value < 10 {
        ('0' as int + value) as char
    } else {
        ('a' as int + value - 10) as char
    }
}

/// An address as text: forty lower-case hexadecimal digits, high digit first.
pub open spec fn address_hex(address: Address) -> Seq<char> {
    Seq::new(
        40,
        |i: int|
            if i % 2 == 0 {
                hex_digit(address.bytes[i / 2] as int / 16)
            } else {
                hex_digit(address.bytes[i / 2] as int % 16)
            },
    )
}

/// Whether `pattern` stands in `text` at `at`.
pub open spec fn occurs_at(text: Seq<char>, pattern: Seq<char>, at: int) -> bool {
    0 <= at && at + pattern.len() <= text.len() && text.subrange(at, at + pattern.len()) == pattern
}

/// Whether `pattern` stands anywhere in `text`.
pub open spec fn occurs(text: Seq<char>, pattern: Seq<char>) -> bool {
    exists|at: int| occurs_at(text, pattern, at)
}

/// `text` with every match of `pattern` replaced by `replacement`. Matches
/// are looked for from the left and do not overlap.
pub open spec fn replaced(text: Seq<char>, pattern: Seq<char>, replacement: Seq<char>) -> Seq<
    char,
>
    recommends
        pattern.len() > 0,
    decreases text.len(),
{
    if text.len() < pattern.len() || pattern.len() == 0 {
        text
    } else if text.take(pattern.len() as int) == pattern {
        replacement + replaced(text.skip(pattern.len() as int), pattern, replacement)
    } else {
        seq![text[0]] + replaced(text.skip(1), pattern, replacement)
    }
}

/// Whether `c` is none of the characters of `text`.
pub open spec fn absent(text: Seq<char>, c: char) -> bool {
    forall|i: int| 0 <= i < text.len() ==> #[trigger] text[i] != c
}

/// Whether every character of `text` is a hexadecimal digit.
pub open spec fn all_hex(text: Seq<char>) -> bool {
    forall|i: int| 0 <= i < text.len() ==> is_hex_digit(#[trigger] text[i])
}

/// Reads the text of a template.
///
/// Calls `web3::helpers::serialize`, which gives the JSON value of what it is
/// handed. A `Bytecode` serialises as the text it holds.
#[verifier::external_body]
pub(crate) fn text_of(bytecode: &Bytecode) -> (text: String)
    ensures
        text@ == bytecode_text(*bytecode),
{
    web3::helpers::serialize(bytecode).as_str().unwrap_or_default().to_owned()
}

/// Whether the template holds no code at all.
///
/// Calls `Bytecode::is_empty`.
#[verifier::external_body]
pub(crate) fn is_empty_code(bytecode: &Bytecode) -> (empty: bool)
    ensures
        empty == (bytecode_text(*bytecode).len() == 0),
{
    bytecode.is_empty()
}

/// Links the library `name` at `address` and answers whether anything was
/// linked.
///
/// Calls `Bytecode::link`. It fails, and changes nothing, where the
/// placeholder of the library stands nowhere in the text; else it replaces
/// every match of the placeholder by the address as forty hexadecimal digits.
/// It panics on a name longer than a placeholder holds: such names are left
/// out.
#[verifier::external_body]
pub(crate) fn link_library(bytecode: &mut Bytecode, name: &str, address: Address) -> (linked: bool)
    requires
        valid_library_name(name@),
    ensures
        linked == occurs(bytecode_text(*old(bytecode)), placeholder(name@)),
        linked ==> bytecode_text(*final(bytecode)) == replaced(
            bytecode_text(*old(bytecode)),
            placeholder(name@),
            address_hex(address),
        ),
        !linked ==> bytecode_text(*final(bytecode)) == bytecode_text(*old(bytecode)),
{
    bytecode.link(name, ethcontract_common::Address::from(address.bytes)).is_ok()
}

/// Decodes the code of a template, or names the library of its first
/// placeholder.
///
/// Calls `Bytecode::to_bytes`. It answers with the library while a
/// placeholder is left, else with the text decoded two digits to a byte. It
/// panics on a placeholder cut short and on text that is no hexadecimal:
/// text that is no template is left out.
#[verifier::external_body]
pub(crate) fn code_of(bytecode: &Bytecode) -> (code: Result<Vec<u8>, String>)
    requires
        is_template(bytecode_text(*bytecode)),
    ensures
        match code {
            Ok(bytes) => first_placeholder(bytecode_text(*bytecode)) is None && bytes@ == decoded(
                bytecode_text(*bytecode),
            ),
            Err(library) => first_placeholder(bytecode_text(*bytecode)) matches Some(block)
                && library@ == library_of(block),
        },
{
    match bytecode.to_bytes() {
        Ok(bytes) => Ok(bytes.0),
        Err(ethcontract_common::errors::LinkError::UndefinedLibrary(library)) => Err(library),
        Err(ethcontract_common::errors::LinkError::NotFound(library)) => Err(library),
    }
}

/// The number of characters of an ASCII text.
fn ascii_len(text: &str) -> (length: usize)
    requires
        text.is_ascii(),
    ensures
        length == text@.len(),
{
    proof {
        vstd::string::is_ascii_spec_bytes(text);
        assert(text.spec_bytes().len() == text@.len());
    }
    text.as_bytes().len()
}

/// Whether the byte is the code of a hexadecimal digit.
fn is_hex_code(code: u8) -> (hex: bool)
    ensures
        code < 128 ==> hex == is_hex_digit(code as char),
{
    (0x30 <= code && code <= 0x39) || (0x61 <= code && code <= 0x66) || (0x41 <= code && code
        <= 0x46)
}

/// Whether a placeholder opens at `at`.
fn opens_at(text: &str, at: usize) -> (opens: bool)
    requires
        text.is_ascii(),
        at < text@.len(),
    ensures
        opens == opens_placeholder(text@.skip(at as int)),
{
    let length = ascii_len(text);
    text.get_ascii(at) == 0x5f && at < length - 1 && text.get_ascii(at + 1) == 0x5f
}

/// Whether `text` can be read unit by unit to its end.
fn scans(text: &str) -> (clean: bool)
    requires
        text.is_ascii(),
    ensures
        clean == scan(text@),
{
    let length = ascii_len(text);
    let mut at: usize = 0;
    assert(text@.skip(0) == text@);
    while at < length
        invariant
            text.is_ascii(),
            length == text@.len(),
            at <= length,
            scan(text@) == scan(text@.skip(at as int)),
        decreases length - at,
    {
        let ghost rest = text@.skip(at as int);
        if opens_at(text, at) {
            if length - at < PLACEHOLDER_LENGTH {
                return false;
            }
            assert(rest.skip(40) == text@.skip(at + 40));
            at += PLACEHOLDER_LENGTH;
        } else {
            let code = text.get_ascii(at);
            assert(rest[0] == text@[at as int]);
            if !is_hex_code(code) {
                return false;
            }
            assert(rest.skip(1) == text@.skip(at + 1));
            at += 1;
        }
    }
    true
}

/// Whether `text` is a template.
pub fn is_template_text(text: &str) -> (template: bool)
    ensures
        template == is_template(text@),
{
    if !text.is_ascii() {
        return false;
    }
    if ascii_len(text) % 2 != 0 {
        return false;
    }
    scans(text)
}

/// Whether the byte is the code of a character that may stand in a library
/// name.
fn is_name_code(code: u8) -> (allowed: bool)
    ensures
        code < 128 ==> allowed == is_name_char(code as char),
{
    (0x30 <= code && code <= 0x39) || (0x61 <= code && code <= 0x7a) || (0x41 <= code && code
        <= 0x5a) || code == 0x5f || code == 0x24
}

/// Whether `name` can be linked.
pub(crate) fn is_valid_name(name: &str) -> (valid: bool)
    ensures
        valid == valid_library_name(name@),
        valid ==> name.is_ascii(),
{
    if !name.is_ascii() {
        proof {
            let i = choose|i: int| 0 <= i < name@.len() && !('\0' <= #[trigger] name@[i] <= '\u{7f}');
            assert(!is_name_char(name@[i]));
        }
        return false;
    }
    let length = ascii_len(name);
    if length > NAME_LENGTH {
        return false;
    }
    let mut at: usize = 0;
    while at < length
        invariant
            name.is_ascii(),
            length == name@.len(),
            at <= length,
            forall|i: int| 0 <= i < at ==> is_name_char(#[trigger] name@[i]),
        decreases length - at,
    {
        if !is_name_code(name.get_ascii(at)) {
            return false;
        }
        at += 1;
    }
    true
}

/// An address written as text is forty hexadecimal digits.
pub proof fn lemma_address_hex_is_hex(address: Address)
    ensures
        address_hex(address).len() == 40,
        all_hex(address_hex(address)),
        is_ascii_chars(address_hex(address)),
{
    assert forall|i: int| 0 <= i < 40 implies is_hex_digit(#[trigger] address_hex(address)[i])
        && '\0' <= address_hex(address)[i] <= '\u{7f}' by {
        let byte = address.bytes[i / 2] as int;
        assert(0 <= byte / 16 < 16 && 0 <= byte % 16 < 16);
    }
}

/// Where the replaced text holds a character that the replacement lacks,
/// within the length of the replacement from the start, nothing was replaced
/// up to there: the text is as it was.
proof fn lemma_start_kept(text: Seq<char>, pattern: Seq<char>, replacement: Seq<char>, upto: int)
    requires
        pattern.len() > 0,
        replacement.len() == pattern.len(),
        0 <= upto < pattern.len(),
        upto < replaced(text, pattern, replacement).len(),
        absent(replacement, replaced(text, pattern, replacement)[upto]),
    ensures
        upto < text.len(),
        forall|i: int| 0 <= i <= upto ==> replaced(text, pattern, replacement)[i] == text[i],
    decreases text.len(),
{
    let length = pattern.len() as int;
    if text.len() < length {
    } else if text.take(length) == pattern {
        assert(replaced(text, pattern, replacement)[upto] == replacement[upto]);
    } else {
        let rest = replaced(text.skip(1), pattern, replacement);
        assert(replaced(text, pattern, replacement) == seq![text[0]] + rest);
        if upto > 0 {
            assert(rest[upto - 1] == replaced(text, pattern, replacement)[upto]);
            lemma_start_kept(text.skip(1), pattern, replacement, upto - 1);
            assert forall|i: int| 0 <= i <= upto implies replaced(text, pattern, replacement)[i]
                == text[i] by {
                if i > 0 {
                    assert(rest[i - 1] == text.skip(1)[i - 1]);
                }
            }
        }
    }
}

/// Replacing leaves no match behind, where the replacement holds neither the
/// first nor the last character of the pattern.
pub proof fn lemma_replaced_everywhere(
    text: Seq<char>,
    pattern: Seq<char>,
    replacement: Seq<char>,
    at: int,
)
    requires
        pattern.len() > 0,
        replacement.len() == pattern.len(),
        absent(replacement, pattern[0]),
        absent(replacement, pattern.last()),
    ensures
        !occurs_at(replaced(text, pattern, replacement), pattern, at),
    decreases text.len(),
{
    let length = pattern.len() as int;
    let whole = replaced(text, pattern, replacement);
    if occurs_at(whole, pattern, at) {
        assert(whole.subrange(at, at + length)[0] == pattern[0]);
        assert(whole.subrange(at, at + length)[length - 1] == pattern.last());
        if text.len() < length {
        } else if text.take(length) == pattern {
            let rest = replaced(text.skip(length), pattern, replacement);
            if at < length {
                assert(whole[at] == replacement[at]);
            } else {
                assert(rest.subrange(at - length, at) =~= whole.subrange(at, at + length));
                lemma_replaced_everywhere(text.skip(length), pattern, replacement, at - length);
            }
        } else {
            let rest = replaced(text.skip(1), pattern, replacement);
            assert(whole == seq![text[0]] + rest);
            if at > 0 {
                assert(rest.subrange(at - 1, at - 1 + length) =~= whole.subrange(at, at + length));
                lemma_replaced_everywhere(text.skip(1), pattern, replacement, at - 1);
            } else {
                assert(forall|i: int|
                    0 <= i < length ==> whole[i] == #[trigger] whole.subrange(0, length)[i]);
                if length > 1 {
                    assert(rest[length - 2] == whole[length - 1]);
                    lemma_start_kept(text.skip(1), pattern, replacement, length - 2);
                    assert forall|i: int| 0 <= i < length implies text[i] == pattern[i] by {
                        if i > 0 {
                            assert(rest[i - 1] == text.skip(1)[i - 1]);
                            assert(whole[i] == rest[i - 1]);
                        }
                    }
                }
                assert(text.take(length) =~= pattern);
            }
        }
    }
}

/// Linking a library twice: once a library is linked at an address, its
/// placeholder stands nowhere in the text. This holds where the text of the
/// address lacks the last character of the placeholder, as for every library
/// whose name leaves room for padding.
pub proof fn lemma_linked_leaves_none(text: Seq<char>, name: Seq<char>, address: Address)
    requires
        name.len() <= 38,
        absent(address_hex(address), placeholder(name).last()),
    ensures
        !occurs(replaced(text, placeholder(name), address_hex(address)), placeholder(name)),
{
    lemma_address_hex_is_hex(address);
    assert(placeholder(name)[0] == '_');
    assert forall|at: int|
        !occurs_at(
            replaced(text, placeholder(name), address_hex(address)),
            placeholder(name),
            at,
        ) by {
        lemma_replaced_everywhere(text, placeholder(name), address_hex(address), at);
    }
}

} // verus!

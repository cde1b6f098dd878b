//! The origin of a record: the first IPv4 address in its message.

use crate::models::LogEntry;
use crate::text::{chars_of, decimal, decimal_text, split, split_text, views};
use vstd::prelude::*;
use vstd::string::StringExecFns;

verus! {

/// What an IPv4 address looks like in running text: four numbers from 0 to 255 with dots
/// between them, the first of which starts a word.
pub const IPV4_PATTERN: &'static str =
    r"(\b25[0-5]|\b2[0-4][0-9]|\b[01]?[0-9][0-9]?)(\.(25[0-5]|2[0-4][0-9]|[01]?[0-9][0-9]?)){3}";

#[verifier::external_type_specification]
#[verifier::external_body]
pub struct ExRegex(regex::Regex);

#[verifier::external_type_specification]
#[verifier::external_body]
pub struct ExRegexError(regex::Error);

/// Whether the regex crate accepts the pattern.
pub uninterp spec fn pattern_compiles(pattern: Seq<char>) -> bool;

/// The pattern that a compiled expression was made from.
pub uninterp spec fn pattern_of(expression: regex::Regex) -> Seq<char>;

/// The text of the leftmost match of the pattern in the haystack, if there is a match.
pub uninterp spec fn first_match(pattern: Seq<char>, haystack: Seq<char>) -> Option<Seq<char>>;

/// `Regex::new` of the regex crate: an expression for the pattern, or an error where the
/// crate turns the pattern down.
#[verifier::external_body]
fn compile(pattern: &str) -> (outcome: Result<regex::Regex, regex::Error>)
    ensures
        outcome is Ok <==> pattern_compiles(pattern@),
        outcome matches Ok(expression) ==> pattern_of(expression) == pattern@,
{
    regex::Regex::new(pattern)
}

/// The text stands somewhere in the haystack, in one piece.
pub open spec fn occurs_in(text: Seq<char>, haystack: Seq<char>) -> bool {
    exists|from: int, to: int|
        0 <= from <= to <= haystack.len() && #[trigger] haystack.subrange(from, to) == text
}

/// `Regex::find` of the regex crate, and `Match::as_str` on what it found: the text of the
/// leftmost match in the haystack, which is a piece of the haystack.
#[verifier::external_body]
fn find_first(expression: &regex::Regex, haystack: &str) -> (found: Option<String>)
    ensures
        match found {
            Some(text) => first_match(pattern_of(*expression), haystack@) == Some(text@),
            None => first_match(pattern_of(*expression), haystack@) is None,
        },
        found matches Some(text) ==> occurs_in(text@, haystack@),
{
    expression.find(haystack).map(|found| found.as_str().to_owned())
}

/// The character is one of the ten decimal digits.
pub open spec fn is_digit(c: char) -> bool {
    0x30 <= c as u32 <= 0x39
}

/// The number that a run of decimal digits stands for.
pub open spec fn decimal_value(digits: Seq<char>) -> nat
    decreases digits.len(),
{
    if digits.len() == 0 {
        0
    } else {
        decimal_value(digits.drop_last()) * 10 + (digits.last() as u32 - 0x30) as nat
    }
}

/// The number from 0 to 255 that a text of one to three decimal digits stands for.
pub open spec fn octet_of(text: Seq<char>) -> Option<u8> {
    if 1 <= text.len() <= 3 && (forall|i: int| 0 <= i < text.len() ==> is_digit(#[trigger] text[i]))
        && decimal_value(text) <= 255 {
        Some(decimal_value(text) as u8)
    } else {
        None
    }
}

/// The address with the four octets, the first in the highest place.
pub open spec fn address(a: u8, b: u8, c: u8, d: u8) -> u32 {
    (a as u32 * 0x100_0000 + b as u32 * 0x1_0000 + c as u32 * 0x100 + d as u32) as u32
}

/// The address that a text in dotted notation stands for: four octets with dots between.
pub open spec fn dotted_quad(text: Seq<char>) -> Option<u32> {
    let parts = split(text, '.');
    if parts.len() == 4 && octet_of(parts[0]) is Some && octet_of(parts[1]) is Some && octet_of(
        parts[2],
    ) is Some && octet_of(parts[3]) is Some {
        Some(
            address(
                octet_of(parts[0])->Some_0,
                octet_of(parts[1])->Some_0,
                octet_of(parts[2])->Some_0,
                octet_of(parts[3])->Some_0,
            ),
        )
    } else {
        None
    }
}

/// The number from 0 to 255 that the text stands for.
pub fn parse_octet(text: &str) -> (octet: Option<u8>)
    ensures
        octet == octet_of(text@),
{
    let chars = chars_of(text);
    if chars.len() < 1 || chars.len() > 3 {
        return None;
    }
    let mut value: u32 = 0;
    let mut i: usize = 0;
    while i < chars.len()
        invariant
            i <= chars.len() <= 3,
            chars@ == text@,
            forall|k: int| 0 <= k < i ==> is_digit(#[trigger] chars@[k]),
            value == decimal_value(chars@.take(i as int)),
            value < 1000,
            i <= 2 ==> value < 100,
            i <= 1 ==> value < 10,
            i == 0 ==> value == 0,
        decreases chars.len() - i,
    {
        let c = chars[i];
        let code: u32 = c as u32;
        if code < 0x30 || code > 0x39 {
            assert(!is_digit(text@[i as int]));
            return None;
        }
        proof {
            assert(chars@.take(i + 1).drop_last() =~= chars@.take(i as int));
        }
        value = value * 10 + (code - 0x30);
        i += 1;
    }
    proof {
        assert(chars@.take(chars.len() as int) =~= chars@);
    }
    if value > 255 {
        return None;
    }
    Some(value as u8)
}

/// The address that a text in dotted notation stands for.
pub fn parse_dotted_quad(text: &str) -> (ip: Option<u32>)
    ensures
        ip == dotted_quad(text@),
{
    let parts = split_text(text, '.');
    if parts.len() != 4 {
        return None;
    }
    assert(views(parts@)[0] == parts@[0]@);
    assert(views(parts@)[1] == parts@[1]@);
    assert(views(parts@)[2] == parts@[2]@);
    assert(views(parts@)[3] == parts@[3]@);
    let a = match parse_octet(parts[0].as_str()) {
        Some(octet) => octet,
        None => {
            return None;
        },
    };
    let b = match parse_octet(parts[1].as_str()) {
        Some(octet) => octet,
        None => {
            return None;
        },
    };
    let c = match parse_octet(parts[2].as_str()) {
        Some(octet) => octet,
        None => {
            return None;
        },
    };
    let d = match parse_octet(parts[3].as_str()) {
        Some(octet) => octet,
        None => {
            return None;
        },
    };
    Some(a as u32 * 0x100_0000 + b as u32 * 0x1_0000 + c as u32 * 0x100 + d as u32)
}

/// The address in dotted notation, each octet without leading zeros.
pub open spec fn dotted(ip: u32) -> Seq<char> {
    decimal((ip / 0x100_0000) as nat) + seq!['.'] + decimal((ip / 0x1_0000 % 0x100) as nat)
        + seq!['.'] + decimal((ip / 0x100 % 0x100) as nat) + seq!['.'] + decimal(
        (ip % 0x100) as nat,
    )
}

/// The address in dotted notation.
pub fn origin_text(ip: u32) -> (text: String)
    ensures
        text@ == dotted(ip),
{
    proof {
        reveal_strlit(".");
        assert("."@ =~= seq!['.']);
    }
    let mut text = decimal_text((ip / 0x100_0000) as usize);
    text.append(".");
    text.append(decimal_text((ip / 0x1_0000 % 0x100) as usize).as_str());
    text.append(".");
    text.append(decimal_text((ip / 0x100 % 0x100) as usize).as_str());
    text.append(".");
    text.append(decimal_text((ip % 0x100) as usize).as_str());
    text
}

/// The origin of a message: the address that the leftmost match of [`IPV4_PATTERN`] in the
/// message stands for. A message without a match has no origin.
pub open spec fn origin_of(message: Seq<char>) -> Option<u32> {
    match first_match(IPV4_PATTERN@, message) {
        Some(text) => dotted_quad(text),
        None => None,
    }
}

/// The address is written somewhere in the message, in dotted notation.
pub open spec fn names_address(message: Seq<char>, address: u32) -> bool {
    exists|from: int, to: int|
        0 <= from <= to <= message.len() && dotted_quad(
            #[trigger] message.subrange(from, to),
        ) == Some(address)
}

/// Some address is written somewhere in the message, in dotted notation.
pub open spec fn names_any_address(message: Seq<char>) -> bool {
    exists|from: int, to: int|
        0 <= from <= to <= message.len() && dotted_quad(
            #[trigger] message.subrange(from, to),
        ) is Some
}

/// Finds the origin of records.
pub struct OriginMatcher {
    expression: regex::Regex,
}

impl OriginMatcher {
    #[verifier::type_invariant]
    closed spec fn made_from_the_pattern(&self) -> bool {
        pattern_of(self.expression) == IPV4_PATTERN@
    }

    /// A matcher for [`IPV4_PATTERN`], unless the regex crate turns the pattern down.
    pub fn new() -> (matcher: Option<OriginMatcher>)
        ensures
            matcher is Some <==> pattern_compiles(IPV4_PATTERN@),
    {
        match compile(IPV4_PATTERN) {
            Ok(expression) => Some(OriginMatcher { expression }),
            Err(_) => None,
        }
    }

    /// The origin of a message. It is an address that is written in the message: a message
    /// in which no address is written has no origin.
    pub fn origin(&self, message: &str) -> (ip: Option<u32>)
        ensures
            ip == origin_of(message@),
            ip matches Some(address) ==> names_address(message@, address),
            !names_any_address(message@) ==> ip is None,
    {
        proof {
            use_type_invariant(self);
        }
        match find_first(&self.expression, message) {
            Some(text) => parse_dotted_quad(text.as_str()),
            None => None,
        }
    }

    /// The origin of a record: that of its message.
    pub fn extract(&self, record: &LogEntry) -> (ip: Option<u32>)
        ensures
            ip == origin_of(record.message@),
            ip matches Some(address) ==> names_address(record.message@, address),
            !names_any_address(record.message@) ==> ip is None,
    {
        self.origin(record.message.as_str())
    }
}

} // verus!

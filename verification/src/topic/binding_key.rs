//! The key with which a queue is bound to the exchange: a location and a
//! level, either of which may be left open.

use crate::text::{bytes_eq, is_word, lemma_ascii_concat, lemma_word_bytes};
use crate::topic::location::Location;
use crate::topic::loglevel::LogLevel;
use crate::topic::routing_key::RoutingKey;
use crate::topic::split::{has_dot, head, lemma_no_dot, lemma_split_joined, split_at_dot, tail};
use std::str::FromStr;
use vstd::prelude::*;
use vstd::string::{StringExecFns, StringSliceAdditionalSpecFns};
use vstd::utf8::{encode_utf8, is_ascii_chars, is_ascii_chars_encode_utf8};

verus! {

/// Why a text is no key.
#[derive(Debug, Clone, Copy, PartialEq, Eq, Structural)]
pub enum KeyError {
    /// The text does not have the number of parts that the key has.
    MalformedInput,
    /// The first part names no location.
    MalformedLocation,
    /// The second part names no level.
    MalformedLevel,
    /// The key leaves a part open, where a full key is asked for.
    NotSpecific,
}

/// A binding key, written `<location>.<level>`. Either part may be `*`, for
/// any; `#` alone stands for any location and any level.
#[derive(Debug, Clone, Copy, PartialEq, Eq, PartialOrd, Ord, Structural)]
pub enum BindingKey {
    /// A location and a level.
    Pair { location: Location, level: LogLevel },
    /// A location, at any level.
    AnyLevel(Location),
    /// A level, at any location.
    AnyLoc(LogLevel),
    /// Any location and any level.
    Any,
}

/// The level that the second part of a key names.
pub open spec fn parse_level_part(part: Seq<u8>) -> Result<LogLevel, KeyError> {
    match LogLevel::parse(part) {
        Ok(level) => Ok(level),
        Err(_) => Err(KeyError::MalformedLevel),
    }
}

/// The location that the first part of a key names.
pub open spec fn parse_location_part(part: Seq<u8>) -> Result<Location, KeyError> {
    match Location::parse(part) {
        Ok(location) => Ok(location),
        Err(_) => Err(KeyError::MalformedLocation),
    }
}

/// The level that the second part of a key names.
pub fn level_part(part: &[u8]) -> (r: Result<LogLevel, KeyError>)
    ensures
        r == parse_level_part(part@),
{
    match LogLevel::from_bytes(part) {
        Ok(level) => Ok(level),
        Err(_) => Err(KeyError::MalformedLevel),
    }
}

/// The location that the first part of a key names.
pub fn location_part(part: &[u8]) -> (r: Result<Location, KeyError>)
    ensures
        r == parse_location_part(part@),
{
    match Location::from_bytes(part) {
        Ok(location) => Ok(location),
        Err(_) => Err(KeyError::MalformedLocation),
    }
}

/// The bytes of the marks that a key is written with: `.`, `*` and `#`, and
/// the two marks that open or close a key with an open part.
pub proof fn lemma_mark_bytes()
    ensures
        is_ascii_chars("."@) && encode_utf8("."@) == seq![46u8],
        is_ascii_chars("*"@) && encode_utf8("*"@) == seq![42u8],
        is_ascii_chars("#"@) && encode_utf8("#"@) == seq![35u8],
        is_ascii_chars(".*"@) && encode_utf8(".*"@) == seq![46u8, 42u8],
        is_ascii_chars("*."@) && encode_utf8("*."@) == seq![42u8, 46u8],
{
    reveal_strlit(".");
    reveal_strlit("*");
    reveal_strlit("#");
    reveal_strlit(".*");
    reveal_strlit("*.");
    is_ascii_chars_encode_utf8("."@);
    is_ascii_chars_encode_utf8("*"@);
    is_ascii_chars_encode_utf8("#"@);
    is_ascii_chars_encode_utf8(".*"@);
    is_ascii_chars_encode_utf8("*."@);
    assert(encode_utf8("."@) =~= seq![46u8]);
    assert(encode_utf8("*"@) =~= seq![42u8]);
    assert(encode_utf8("#"@) =~= seq![35u8]);
    assert(encode_utf8(".*"@) =~= seq![46u8, 42u8]);
    assert(encode_utf8("*."@) =~= seq![42u8, 46u8]);
}

/// The bytes of two words joined by a dot split into the bytes of the two
/// words, neither of which is a mark.
pub proof fn lemma_two_words(a: Seq<char>, b: Seq<char>)
    requires
        is_word(a),
        is_word(b),
    ensures
        ({
            let t = encode_utf8(a + "."@ + b);
            &&& has_dot(t)
            &&& !has_dot(tail(t))
            &&& head(t) == encode_utf8(a)
            &&& tail(t) == encode_utf8(b)
            &&& encode_utf8(a) != "*".spec_bytes()
            &&& encode_utf8(b) != "*".spec_bytes()
        }),
{
    lemma_mark_bytes();
    lemma_word_bytes(a);
    lemma_word_bytes(b);
    lemma_ascii_concat(a, "."@);
    lemma_ascii_concat(a + "."@, b);
    lemma_split_joined(encode_utf8(a), encode_utf8(b));
    assert(encode_utf8(a)[0] != 42);
    assert(encode_utf8(b)[0] != 42);
}

impl BindingKey {
    /// The key that a text holds, given by its bytes in UTF-8. The text is
    /// split at its dots. One part: it must be `#`. Two parts: each is `*`
    /// or a name; the location is looked at first. More parts: no key.
    pub open spec fn parse(text: Seq<u8>) -> Result<BindingKey, KeyError> {
        if !has_dot(text) {
            if text == "#".spec_bytes() {
                Ok(BindingKey::Any)
            } else {
                Err(KeyError::MalformedInput)
            }
        } else if has_dot(tail(text)) {
            Err(KeyError::MalformedInput)
        } else if head(text) == "*".spec_bytes() {
            if tail(text) == "*".spec_bytes() {
                Ok(BindingKey::Any)
            } else {
                match parse_level_part(tail(text)) {
                    Ok(level) => Ok(BindingKey::AnyLoc(level)),
                    Err(e) => Err(e),
                }
            }
        } else {
            match parse_location_part(head(text)) {
                Err(e) => Err(e),
                Ok(location) => if tail(text) == "*".spec_bytes() {
                    Ok(BindingKey::AnyLevel(location))
                } else {
                    match parse_level_part(tail(text)) {
                        Ok(level) => Ok(BindingKey::Pair { location, level }),
                        Err(e) => Err(e),
                    }
                },
            }
        }
    }

    /// The text of the key.
    pub open spec fn text(self) -> Seq<char> {
        match self {
            BindingKey::Pair { location, level } => location.name() + "."@ + level.name(),
            BindingKey::AnyLevel(location) => location.name() + ".*"@,
            BindingKey::AnyLoc(level) => "*."@ + level.name(),
            BindingKey::Any => "#"@,
        }
    }

    /// The key that a full key is, as a binding.
    pub open spec fn of_routing_key(k: RoutingKey) -> BindingKey {
        BindingKey::Pair { location: k.location, level: k.level }
    }

    /// Writing a key and reading it back gives the key.
    pub proof fn lemma_text_round_trip(self)
        ensures
            Self::parse(encode_utf8(self.text())) == Ok::<BindingKey, KeyError>(self),
    {
        lemma_mark_bytes();
        match self {
            BindingKey::Pair { location, level } => {
                location.lemma_name_round_trip();
                level.lemma_name_round_trip();
                lemma_two_words(location.name(), level.name());
            },
            BindingKey::AnyLevel(location) => {
                location.lemma_name_round_trip();
                let a = location.name();
                lemma_word_bytes(a);
                lemma_ascii_concat(a, ".*"@);
                let star = seq![42u8];
                assert(encode_utf8(a + ".*"@) =~= encode_utf8(a) + seq![46u8] + star);
                lemma_split_joined(encode_utf8(a), star);
                assert(encode_utf8(a)[0] != 42);
            },
            BindingKey::AnyLoc(level) => {
                level.lemma_name_round_trip();
                let b = level.name();
                lemma_word_bytes(b);
                lemma_ascii_concat("*."@, b);
                let star = seq![42u8];
                assert(encode_utf8("*."@ + b) =~= star + seq![46u8] + encode_utf8(b));
                lemma_split_joined(star, encode_utf8(b));
                assert(encode_utf8(b)[0] != 42);
            },
            BindingKey::Any => {
                lemma_no_dot(encode_utf8("#"@));
            },
        }
    }

    /// Whether the key names both a location and a level.
    pub fn is_specific(&self) -> (b: bool)
        ensures
            b == (*self is Pair),
    {
        match self {
            BindingKey::Pair { .. } => true,
            _ => false,
        }
    }

    /// The key that a text holds, given by its bytes in UTF-8.
    pub fn from_bytes(text: &[u8]) -> (r: Result<BindingKey, KeyError>)
        ensures
            r == Self::parse(text@),
    {
        let (first, rest) = split_at_dot(text);
        let second = match rest {
            None => {
                if bytes_eq(first, "#".as_bytes()) {
                    return Ok(BindingKey::Any);
                }
                return Err(KeyError::MalformedInput);
            },
            Some(second) => second,
        };
        let (_, more) = split_at_dot(second);
        if more.is_some() {
            return Err(KeyError::MalformedInput);
        }
        if bytes_eq(first, "*".as_bytes()) {
            if bytes_eq(second, "*".as_bytes()) {
                return Ok(BindingKey::Any);
            }
            return match level_part(second) {
                Ok(level) => Ok(BindingKey::AnyLoc(level)),
                Err(e) => Err(e),
            };
        }
        let location = match location_part(first) {
            Ok(location) => location,
            Err(e) => {
                return Err(e);
            },
        };
        if bytes_eq(second, "*".as_bytes()) {
            return Ok(BindingKey::AnyLevel(location));
        }
        match level_part(second) {
            Ok(level) => Ok(BindingKey::Pair { location, level }),
            Err(e) => Err(e),
        }
    }

    /// The key that a text holds.
    pub fn from_str(s: &str) -> (r: Result<BindingKey, KeyError>)
        ensures
            r == Self::parse(s.spec_bytes()),
    {
        Self::from_bytes(s.as_bytes())
    }

    /// The text of the key.
    pub fn to_string(&self) -> (r: String)
        ensures
            r@ == self.text(),
    {
        match self {
            BindingKey::Pair { location, level } => {
                let mut s = location.as_ref().to_owned();
                s.append(".");
                s.append(level.as_ref());
                s
            },
            BindingKey::AnyLevel(location) => {
                let mut s = location.as_ref().to_owned();
                s.append(".*");
                s
            },
            BindingKey::AnyLoc(level) => {
                let mut s = "*.".to_owned();
                s.append(level.as_ref());
                s
            },
            BindingKey::Any => "#".to_owned(),
        }
    }

    /// A full key as a binding key.
    pub fn from(k: RoutingKey) -> (r: BindingKey)
        ensures
            r == Self::of_routing_key(k),
    {
        BindingKey::Pair { location: k.location, level: k.level }
    }
}

impl FromStr for BindingKey {
    type Err = KeyError;

    /// The same as the function of this name on the type itself.
    fn from_str(s: &str) -> (r: Result<BindingKey, KeyError>)
        ensures
            r == BindingKey::parse(s.spec_bytes()),
    {
        BindingKey::from_str(s)
    }
}

} // verus!

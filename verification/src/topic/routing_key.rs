//! The key under which a log message is published: a location and a level.

use crate::topic::binding_key::{
    lemma_two_words, level_part, location_part, parse_level_part, parse_location_part,
    BindingKey, KeyError,
};
use crate::topic::location::Location;
use crate::topic::loglevel::LogLevel;
use crate::topic::split::{has_dot, head, split_at_dot, tail};
use std::str::FromStr;
use vstd::prelude::*;
use vstd::string::{StringExecFns, StringSliceAdditionalSpecFns};
use vstd::utf8::encode_utf8;

verus! {

/// A routing key, written `<location>.<level>`.
#[derive(Debug, Clone, Copy, PartialEq, Eq, Structural)]
pub struct RoutingKey {
    pub location: Location,
    pub level: LogLevel,
}

impl RoutingKey {
    /// The key that a text holds, given by its bytes in UTF-8: two parts
    /// with one dot between them, the name of a location and the name of a
    /// level. The location is looked at first.
    pub open spec fn parse(text: Seq<u8>) -> Result<RoutingKey, KeyError> {
        if !has_dot(text) || has_dot(tail(text)) {
            Err(KeyError::MalformedInput)
        } else {
            match parse_location_part(head(text)) {
                Err(e) => Err(e),
                Ok(location) => match parse_level_part(tail(text)) {
                    Err(e) => Err(e),
                    Ok(level) => Ok(RoutingKey { location, level }),
                },
            }
        }
    }

    /// The text of the key.
    pub open spec fn text(self) -> Seq<char> {
        self.location.name() + "."@ + self.level.name()
    }

    /// The full key that a binding key is, if it leaves nothing open.
    pub open spec fn of_binding_key(key: BindingKey) -> Result<RoutingKey, KeyError> {
        match key {
            BindingKey::Pair { location, level } => Ok(RoutingKey { location, level }),
            _ => Err(KeyError::NotSpecific),
        }
    }

    /// Writing a key and reading it back gives the key.
    pub proof fn lemma_text_round_trip(self)
        ensures
            Self::parse(encode_utf8(self.text())) == Ok::<RoutingKey, KeyError>(self),
    {
        self.location.lemma_name_round_trip();
        self.level.lemma_name_round_trip();
        lemma_two_words(self.location.name(), self.level.name());
    }

    /// A full key is the same key as a binding and back, and is written
    /// the same way.
    pub proof fn lemma_binding_round_trip(self)
        ensures
            Self::of_binding_key(BindingKey::of_routing_key(self)) == Ok::<RoutingKey, KeyError>(
                self,
            ),
            BindingKey::of_routing_key(self).text() == self.text(),
    {
    }

    /// The full key that a binding key is, if it leaves nothing open.
    pub fn try_from(key: BindingKey) -> (r: Result<RoutingKey, KeyError>)
        ensures
            r == Self::of_binding_key(key),
    {
        match key {
            BindingKey::Pair { location, level } => Ok(RoutingKey { location, level }),
            _ => Err(KeyError::NotSpecific),
        }
    }

    /// The key that a text holds, given by its bytes in UTF-8.
    pub fn from_bytes(text: &[u8]) -> (r: Result<RoutingKey, KeyError>)
        ensures
            r == Self::parse(text@),
    {
        let (first, rest) = split_at_dot(text);
        let second = match rest {
            None => {
                return Err(KeyError::MalformedInput);
            },
            Some(second) => second,
        };
        let (_, more) = split_at_dot(second);
        if more.is_some() {
            return Err(KeyError::MalformedInput);
        }
        let location = match location_part(first) {
            Ok(location) => location,
            Err(e) => {
                return Err(e);
            },
        };
        match level_part(second) {
            Ok(level) => Ok(RoutingKey { location, level }),
            Err(e) => Err(e),
        }
    }

    /// The key that a text holds.
    pub fn from_str(s: &str) -> (r: Result<RoutingKey, KeyError>)
        ensures
            r == Self::parse(s.spec_bytes()),
    {
        Self::from_bytes(s.as_bytes())
    }

    /// The text of the key.
    pub fn to_string(&self) -> (r: String)
        ensures
            r@ == self.text(),
    {
        let mut s = self.location.as_ref().to_owned();
        s.append(".");
        s.append(self.level.as_ref());
        s
    }
}

impl FromStr for RoutingKey {
    type Err = KeyError;

    /// The same as the function of this name on the type itself.
    fn from_str(s: &str) -> (r: Result<RoutingKey, KeyError>)
        ensures
            r == RoutingKey::parse(s.spec_bytes()),
    {
        RoutingKey::from_str(s)
    }
}

} // verus!

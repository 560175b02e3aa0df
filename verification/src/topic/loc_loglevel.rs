//! A log level that knows its location.

use crate::topic::binding_key::{BindingKey, KeyError};
use crate::topic::location::Location;
use crate::topic::loglevel::LogLevel;
use std::str::FromStr;
use vstd::prelude::*;
use vstd::string::StringSliceAdditionalSpecFns;
use vstd::utf8::encode_utf8;

verus! {

/// A location and a level, written `<location>.<level>`. Either part may be
/// `*`, for any; `#` alone stands for any location and any level.
#[derive(Debug, Clone, Copy, PartialEq, Eq, PartialOrd, Ord, Structural)]
pub enum LocLogLevel {
    /// A location and a level.
    Pair { location: Location, level: LogLevel },
    /// A location, at any level.
    AnyLevel(Location),
    /// A level, at any location.
    AnyLoc(LogLevel),
    /// Any location and any level.
    Any,
}

impl LocLogLevel {
    /// The same location and level as a binding key.
    pub open spec fn to_key(self) -> BindingKey {
        match self {
            LocLogLevel::Pair { location, level } => BindingKey::Pair { location, level },
            LocLogLevel::AnyLevel(location) => BindingKey::AnyLevel(location),
            LocLogLevel::AnyLoc(level) => BindingKey::AnyLoc(level),
            LocLogLevel::Any => BindingKey::Any,
        }
    }

    /// The location and level of a binding key.
    pub open spec fn of_key(key: BindingKey) -> LocLogLevel {
        match key {
            BindingKey::Pair { location, level } => LocLogLevel::Pair { location, level },
            BindingKey::AnyLevel(location) => LocLogLevel::AnyLevel(location),
            BindingKey::AnyLoc(level) => LocLogLevel::AnyLoc(level),
            BindingKey::Any => LocLogLevel::Any,
        }
    }

    /// What a text holds, given by its bytes in UTF-8: it is read as a
    /// binding key is.
    pub open spec fn parse(text: Seq<u8>) -> Result<LocLogLevel, KeyError> {
        match BindingKey::parse(text) {
            Ok(key) => Ok(Self::of_key(key)),
            Err(e) => Err(e),
        }
    }

    /// The text of the value: that of the binding key.
    pub open spec fn text(self) -> Seq<char> {
        self.to_key().text()
    }

    /// Writing a value and reading it back gives the value.
    pub proof fn lemma_text_round_trip(self)
        ensures
            Self::parse(encode_utf8(self.text())) == Ok::<LocLogLevel, KeyError>(self),
    {
        self.to_key().lemma_text_round_trip();
    }

    /// Whether the value names both a location and a level.
    pub fn is_specific(&self) -> (b: bool)
        ensures
            b == (*self is Pair),
    {
        match self {
            LocLogLevel::Pair { .. } => true,
            _ => false,
        }
    }

    /// The same location and level as a binding key.
    pub fn binding_key(&self) -> (key: BindingKey)
        ensures
            key == self.to_key(),
    {
        match self {
            LocLogLevel::Pair { location, level } => BindingKey::Pair {
                location: *location,
                level: *level,
            },
            LocLogLevel::AnyLevel(location) => BindingKey::AnyLevel(*location),
            LocLogLevel::AnyLoc(level) => BindingKey::AnyLoc(*level),
            LocLogLevel::Any => BindingKey::Any,
        }
    }

    /// What a text holds, given by its bytes in UTF-8.
    pub fn from_bytes(text: &[u8]) -> (r: Result<LocLogLevel, KeyError>)
        ensures
            r == Self::parse(text@),
    {
        match BindingKey::from_bytes(text) {
            Ok(BindingKey::Pair { location, level }) => Ok(LocLogLevel::Pair { location, level }),
            Ok(BindingKey::AnyLevel(location)) => Ok(LocLogLevel::AnyLevel(location)),
            Ok(BindingKey::AnyLoc(level)) => Ok(LocLogLevel::AnyLoc(level)),
            Ok(BindingKey::Any) => Ok(LocLogLevel::Any),
            Err(e) => Err(e),
        }
    }

    /// What a text holds.
    pub fn from_str(s: &str) -> (r: Result<LocLogLevel, KeyError>)
        ensures
            r == Self::parse(s.spec_bytes()),
    {
        Self::from_bytes(s.as_bytes())
    }

    /// The text of the value.
    pub fn to_string(&self) -> (r: String)
        ensures
            r@ == self.text(),
    {
        self.binding_key().to_string()
    }
}

impl FromStr for LocLogLevel {
    type Err = KeyError;

    /// The same as the function of this name on the type itself.
    fn from_str(s: &str) -> (r: Result<LocLogLevel, KeyError>)
        ensures
            r == LocLogLevel::parse(s.spec_bytes()),
    {
        LocLogLevel::from_str(s)
    }
}

} // verus!

//! The level of a log message.

use crate::log_level::ParseError;
use crate::text::{bytes_eq, is_word, lemma_word_bytes};
use std::str::FromStr;
use vstd::prelude::*;
use vstd::string::StringSliceAdditionalSpecFns;
use vstd::utf8::encode_utf8;

verus! {

/// A standard log level.
#[derive(Debug, Clone, Copy, PartialEq, Eq, PartialOrd, Ord, Structural)]
pub enum LogLevel {
    Debug,
    Info,
    Warn,
    Error,
}

impl LogLevel {
    /// The name of the level in a key.
    pub open spec fn name(self) -> Seq<char> {
        match self {
            LogLevel::Debug => "debug"@,
            LogLevel::Info => "info"@,
            LogLevel::Warn => "warning"@,
            LogLevel::Error => "error"@,
        }
    }

    /// The level that a text names, given by its bytes in UTF-8. A warning
    /// and an error each have a second, shorter name.
    pub open spec fn parse(text: Seq<u8>) -> Result<LogLevel, ParseError> {
        if text == "debug".spec_bytes() {
            Ok(LogLevel::Debug)
        } else if text == "info".spec_bytes() {
            Ok(LogLevel::Info)
        } else if text == "warn".spec_bytes() || text == "warning".spec_bytes() {
            Ok(LogLevel::Warn)
        } else if text == "error".spec_bytes() || text == "err".spec_bytes() {
            Ok(LogLevel::Error)
        } else {
            Err(ParseError::VariantNotFound)
        }
    }

    /// The name is a word, and names this value.
    pub proof fn lemma_name_round_trip(self)
        ensures
            is_word(self.name()),
            Self::parse(encode_utf8(self.name())) == Ok::<LogLevel, ParseError>(self),
    {
        reveal_strlit("debug");
        reveal_strlit("info");
        reveal_strlit("warn");
        reveal_strlit("warning");
        reveal_strlit("error");
        reveal_strlit("err");
        lemma_word_bytes("debug"@);
        assert(encode_utf8("debug"@)[0] == "debug"@[0] as u8);
        lemma_word_bytes("info"@);
        assert(encode_utf8("info"@)[0] == "info"@[0] as u8);
        lemma_word_bytes("warn"@);
        assert(encode_utf8("warn"@)[0] == "warn"@[0] as u8);
        lemma_word_bytes("warning"@);
        assert(encode_utf8("warning"@)[0] == "warning"@[0] as u8);
        lemma_word_bytes("error"@);
        assert(encode_utf8("error"@)[0] == "error"@[0] as u8);
        lemma_word_bytes("err"@);
        assert(encode_utf8("err"@)[0] == "err"@[0] as u8);
    }

    /// The name of the level in a key.
    pub fn as_ref(&self) -> (r: &'static str)
        ensures
            r@ == self.name(),
    {
        match self {
            LogLevel::Debug => "debug",
            LogLevel::Info => "info",
            LogLevel::Warn => "warning",
            LogLevel::Error => "error",
        }
    }

    /// The level that a text names, given by its bytes in UTF-8.
    pub fn from_bytes(text: &[u8]) -> (r: Result<LogLevel, ParseError>)
        ensures
            r == Self::parse(text@),
    {
        if bytes_eq(text, "debug".as_bytes()) {
            Ok(LogLevel::Debug)
        } else if bytes_eq(text, "info".as_bytes()) {
            Ok(LogLevel::Info)
        } else if bytes_eq(text, "warn".as_bytes()) || bytes_eq(text, "warning".as_bytes()) {
            Ok(LogLevel::Warn)
        } else if bytes_eq(text, "error".as_bytes()) || bytes_eq(text, "err".as_bytes()) {
            Ok(LogLevel::Error)
        } else {
            Err(ParseError::VariantNotFound)
        }
    }

    /// The level that a text names.
    pub fn from_str(s: &str) -> (r: Result<LogLevel, ParseError>)
        ensures
            r == Self::parse(s.spec_bytes()),
    {
        Self::from_bytes(s.as_bytes())
    }
}

impl FromStr for LogLevel {
    type Err = ParseError;

    /// The same as the function of this name on the type itself.
    fn from_str(s: &str) -> (r: Result<LogLevel, ParseError>)
        ensures
            r == LogLevel::parse(s.spec_bytes()),
    {
        LogLevel::from_str(s)
    }
}

} // verus!

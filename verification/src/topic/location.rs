//! Where a log message comes from.

use crate::log_level::ParseError;
use crate::text::{bytes_eq, is_word, lemma_word_bytes};
use std::str::FromStr;
use vstd::prelude::*;
use vstd::string::StringSliceAdditionalSpecFns;
use vstd::utf8::encode_utf8;

verus! {

/// A studio location.
#[derive(Debug, Clone, Copy, PartialEq, Eq, PartialOrd, Ord, Structural)]
pub enum Location {
    Playa,
    Vancouver,
    Portland,
    Montreal,
}

impl Location {
    /// The name of the location in a key.
    pub open spec fn name(self) -> Seq<char> {
        match self {
            Location::Playa => "playa"@,
            Location::Vancouver => "vancouver"@,
            Location::Portland => "portland"@,
            Location::Montreal => "montreal"@,
        }
    }

    /// The location that a text names, given by its bytes in UTF-8. Each
    /// location has a second name of two letters.
    pub open spec fn parse(text: Seq<u8>) -> Result<Location, ParseError> {
        if text == "playa".spec_bytes() || text == "dd".spec_bytes() {
            Ok(Location::Playa)
        } else if text == "vancouver".spec_bytes() || text == "bc".spec_bytes() {
            Ok(Location::Vancouver)
        } else if text == "portland".spec_bytes() || text == "pd".spec_bytes() {
            Ok(Location::Portland)
        } else if text == "montreal".spec_bytes() || text == "mt".spec_bytes() {
            Ok(Location::Montreal)
        } else {
            Err(ParseError::VariantNotFound)
        }
    }

    /// The name is a word, and names this value.
    pub proof fn lemma_name_round_trip(self)
        ensures
            is_word(self.name()),
            Self::parse(encode_utf8(self.name())) == Ok::<Location, ParseError>(self),
    {
        reveal_strlit("playa");
        reveal_strlit("dd");
        reveal_strlit("vancouver");
        reveal_strlit("bc");
        reveal_strlit("portland");
        reveal_strlit("pd");
        reveal_strlit("montreal");
        reveal_strlit("mt");
        lemma_word_bytes("playa"@);
        assert(encode_utf8("playa"@)[0] == "playa"@[0] as u8);
        lemma_word_bytes("dd"@);
        assert(encode_utf8("dd"@)[0] == "dd"@[0] as u8);
        lemma_word_bytes("vancouver"@);
        assert(encode_utf8("vancouver"@)[0] == "vancouver"@[0] as u8);
        lemma_word_bytes("bc"@);
        assert(encode_utf8("bc"@)[0] == "bc"@[0] as u8);
        lemma_word_bytes("portland"@);
        assert(encode_utf8("portland"@)[0] == "portland"@[0] as u8);
        lemma_word_bytes("pd"@);
        assert(encode_utf8("pd"@)[0] == "pd"@[0] as u8);
        lemma_word_bytes("montreal"@);
        assert(encode_utf8("montreal"@)[0] == "montreal"@[0] as u8);
        lemma_word_bytes("mt"@);
        assert(encode_utf8("mt"@)[0] == "mt"@[0] as u8);
    }

    /// The name of the location in a key.
    pub fn as_ref(&self) -> (r: &'static str)
        ensures
            r@ == self.name(),
    {
        match self {
            Location::Playa => "playa",
            Location::Vancouver => "vancouver",
            Location::Portland => "portland",
            Location::Montreal => "montreal",
        }
    }

    /// The location that a text names, given by its bytes in UTF-8.
    pub fn from_bytes(text: &[u8]) -> (r: Result<Location, ParseError>)
        ensures
            r == Self::parse(text@),
    {
        if bytes_eq(text, "playa".as_bytes()) || bytes_eq(text, "dd".as_bytes()) {
            Ok(Location::Playa)
        } else if bytes_eq(text, "vancouver".as_bytes()) || bytes_eq(text, "bc".as_bytes()) {
            Ok(Location::Vancouver)
        } else if bytes_eq(text, "portland".as_bytes()) || bytes_eq(text, "pd".as_bytes()) {
            Ok(Location::Portland)
        } else if bytes_eq(text, "montreal".as_bytes()) || bytes_eq(text, "mt".as_bytes()) {
            Ok(Location::Montreal)
        } else {
            Err(ParseError::VariantNotFound)
        }
    }

    /// The location that a text names.
    pub fn from_str(s: &str) -> (r: Result<Location, ParseError>)
        ensures
            r == Self::parse(s.spec_bytes()),
    {
        Self::from_bytes(s.as_bytes())
    }
}

impl FromStr for Location {
    type Err = ParseError;

    /// The same as the function of this name on the type itself.
    fn from_str(s: &str) -> (r: Result<Location, ParseError>)
        ensures
            r == Location::parse(s.spec_bytes()),
    {
        Location::from_str(s)
    }
}

} // verus!

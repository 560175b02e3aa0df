//! What the arguments of the command line ask of a program that emits a
//! message.

use crate::routing::Route;
use crate::topic::binding_key::KeyError;
use crate::topic::routing_key::RoutingKey;
use vstd::prelude::*;
use vstd::string::{StringExecFns, StringSliceAdditionalSpecFns};
use vstd::utf8::encode_utf8;

verus! {

/// Why the arguments cannot be used.
#[derive(Debug, Clone, Copy, PartialEq, Eq, Structural)]
pub enum ArgsError {
    /// Fewer arguments than the program needs.
    TooFewArguments,
    /// The first argument is no routing key.
    InvalidRoutingKey,
}

/// The texts of the arguments.
pub open spec fn texts(args: Seq<String>) -> Seq<Seq<char>> {
    args.map_values(|s: String| s@)
}

/// The words joined by single spaces.
pub open spec fn join_words(words: Seq<Seq<char>>) -> Seq<char>
    decreases words.len(),
{
    if words.len() == 0 {
        Seq::empty()
    } else if words.len() == 1 {
        words[0]
    } else {
        join_words(words.drop_last()) + " "@ + words.last()
    }
}

/// The message that the arguments behind the program's name spell, if there
/// is one argument at least.
pub open spec fn message_spec(args: Seq<Seq<char>>) -> Option<Seq<char>> {
    if args.len() < 2 {
        None
    } else {
        Some(join_words(args.subrange(1, args.len() as int)))
    }
}

/// The arguments from the one at `from` on, joined by single spaces.
pub fn join_from(args: &Vec<String>, from: usize) -> (r: String)
    requires
        from <= args@.len(),
    ensures
        r@ == join_words(texts(args@).subrange(from as int, args@.len() as int)),
{
    let n: usize = args.len();
    let mut out = String::new();
    let mut i: usize = from;
    let ghost words = texts(args@);
    while i < n
        invariant
            from <= i <= n,
            n == args@.len(),
            words == texts(args@),
            out@ == join_words(words.subrange(from as int, i as int)),
        decreases n - i,
    {
        proof {
            let next = words.subrange(from as int, i + 1);
            assert(next.drop_last() =~= words.subrange(from as int, i as int));
            assert(next.last() == args@[i as int]@);
            if i > from {
                assert(next.len() >= 2);
            } else {
                assert(next.len() == 1);
                assert(out@ =~= Seq::<char>::empty());
            }
        }
        if i > from {
            out.append(" ");
        }
        out.append(args[i].as_str());
        proof {
            let next = words.subrange(from as int, i + 1);
            if i == from {
                assert(out@ =~= next[0]);
            }
        }
        i = i + 1;
    }
    out
}

/// The message that the arguments behind the program's name spell.
pub fn message(args: &Vec<String>) -> (r: Option<String>)
    ensures
        r is Some <==> message_spec(texts(args@)) is Some,
        r is Some ==> r->0@ == message_spec(texts(args@))->0,
{
    if args.len() < 2 {
        None
    } else {
        Some(join_from(args, 1))
    }
}

/// What the arguments ask to emit on the exchange that routes by severity:
/// the route that the first argument names, and the message that all the
/// arguments spell, the first included.
pub open spec fn routed_spec(args: Seq<String>) -> Result<(Route, Seq<char>), ArgsError> {
    if args.len() < 3 {
        Err(ArgsError::TooFewArguments)
    } else {
        match Route::parse(encode_utf8(args[1]@)) {
            Ok(route) => Ok((route, join_words(texts(args).subrange(1, args.len() as int)))),
            Err(_) => Err(ArgsError::InvalidRoutingKey),
        }
    }
}

/// What the arguments ask to emit on the exchange that routes by topic: the
/// key that the first argument holds, and the message that all the
/// arguments spell, the first included.
pub open spec fn keyed_spec(args: Seq<String>) -> Result<(RoutingKey, Seq<char>), ArgsError> {
    if args.len() < 3 {
        Err(ArgsError::TooFewArguments)
    } else {
        match RoutingKey::parse(encode_utf8(args[1]@)) {
            Ok(key) => Ok((key, join_words(texts(args).subrange(1, args.len() as int)))),
            Err(_) => Err(ArgsError::InvalidRoutingKey),
        }
    }
}

/// The mathematical value of a parsed command line.
pub open spec fn parsed_view<K>(r: Result<(K, String), ArgsError>) -> Result<
    (K, Seq<char>),
    ArgsError,
> {
    match r {
        Ok(p) => Ok((p.0, p.1@)),
        Err(e) => Err(e),
    }
}

/// What the arguments ask to emit on the exchange that routes by severity.
pub fn routed_args(args: &Vec<String>) -> (r: Result<(Route, String), ArgsError>)
    ensures
        parsed_view(r) == routed_spec(args@),
{
    if args.len() < 3 {
        return Err(ArgsError::TooFewArguments);
    }
    match Route::from_str(args[1].as_str()) {
        Ok(route) => Ok((route, join_from(args, 1))),
        Err(_) => Err(ArgsError::InvalidRoutingKey),
    }
}

/// What the arguments ask to emit on the exchange that routes by topic.
pub fn keyed_args(args: &Vec<String>) -> (r: Result<(RoutingKey, String), ArgsError>)
    ensures
        parsed_view(r) == keyed_spec(args@),
{
    if args.len() < 3 {
        return Err(ArgsError::TooFewArguments);
    }
    match RoutingKey::from_str(args[1].as_str()) {
        Ok(key) => Ok((key, join_from(args, 1))),
        Err(_) => Err(ArgsError::InvalidRoutingKey),
    }
}

} // verus!

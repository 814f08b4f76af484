//! Identifier/reference layer and request-serialization pipeline of a typed
//! client for a remote messaging-platform HTTP API.
//!
//! Callers refer to chats, users, messages and files through whatever domain
//! value they already hold; the conversion traits in [`refs`] resolve that
//! into the canonical wire identifier, the request types embed it, and the
//! encoding strategy in [`http`] turns a typed request into a transport-ready
//! HTTP envelope whose exact JSON body is pinned down by the specification
//! functions in [`codec`].

pub mod answer_inline_query;
pub mod codec;
pub mod get_chat;
pub mod http;
pub mod refs;
pub mod types;

use vstd::prelude::*;

verus! {

/// The primitive wire form of every integer-kind identifier.
pub type Integer = i64;

/// Everything that can go wrong in this layer.
///
/// A conversion capability never fails by contract; errors arise only when a
/// request payload cannot be encoded, or when an incoming wire value does
/// not have the shape of the identifier it is decoded into.
#[derive(Debug, Clone, Copy, PartialEq, Eq, Structural)]
pub enum Error {
    /// The request payload could not be turned into the wire format.
    Encode,
    /// An incoming wire value for an integer-kind id was not an integer.
    MalformedIdentifier,
}

} // verus!

//! The errors of this crate.
use vstd::prelude::*;

verus! {

/// Alias for a `Result` with the error type [`Error`].
pub type Result<T> = std::result::Result<T, Error>;

/// Errors raised while registering or resolving services.
#[derive(Clone, Debug, PartialEq)]
#[non_exhaustive]
pub enum Error {
    /// Error while registering a component/provider
    Registration(String),
    /// Error while resolving a component
    ResolveError(String),
}

/// The text that `description` gives back: the message of either variant.
pub open spec fn error_message(e: Error) -> Seq<char> {
    match e {
        Error::Registration(msg) => msg@,
        Error::ResolveError(msg) => msg@,
    }
}

/// The text that `to_string` gives back: a prefix naming the variant, then
/// the message.
pub open spec fn error_text(e: Error) -> Seq<char> {
    match e {
        Error::Registration(msg) => "Registration Error: "@ + msg@,
        Error::ResolveError(msg) => "Resolve Error: "@ + msg@,
    }
}

impl Error {
    /// The message held by the error.
    pub fn description(&self) -> (r: &str)
        ensures
            r@ == error_message(*self),
    {
        match self {
            Error::Registration(msg) => msg.as_str(),
            Error::ResolveError(msg) => msg.as_str(),
        }
    }

    /// The error rendered for display, e.g. `Resolve Error: <message>`.
    pub fn to_string(&self) -> (r: String)
        ensures
            r@ == error_text(*self),
    {
        match self {
            Error::Registration(msg) => {
                let mut s = String::from_str("Registration Error: ");
                s.append(msg.as_str());
                s
            },
            Error::ResolveError(msg) => {
                let mut s = String::from_str("Resolve Error: ");
                s.append(msg.as_str());
                s
            },
        }
    }
}

} // verus!

//! How a resolution can fail.

use vstd::prelude::*;
use vstd::string::StringExecFns;
use crate::environment::{ConfigSource, Layer};
use crate::interface::Interface;

verus! {

/// The failure that ends a resolution.
///
/// Only `UnknownInterface` is raised by resolution itself.  The other two
/// carry, untouched, the error `cause` that a collaborator reported, together
/// with the call that it answered.
#[derive(Clone, Debug, PartialEq, Eq)]
pub enum Error<E> {
    /// The requested interface name matches no backend.
    UnknownInterface(String),
    /// Applying a configuration source failed.
    ConfigApplicationFailed { source: ConfigSource, cause: E },
    /// The backend constructor of an interface failed.
    ConstructionFailed { interface: Interface, cause: E },
}

/// What an `Error` stands for.
pub enum Failure<E> {
    UnknownInterface(Seq<char>),
    ConfigApplicationFailed { source: Layer, cause: E },
    ConstructionFailed { interface: Interface, cause: E },
}

impl<E> View for Error<E> {
    type V = Failure<E>;

    open spec fn view(&self) -> Failure<E> {
        match *self {
            Error::UnknownInterface(name) => Failure::UnknownInterface(name@),
            Error::ConfigApplicationFailed { source, cause } => Failure::ConfigApplicationFailed {
                source: source@,
                cause,
            },
            Error::ConstructionFailed { interface, cause } => Failure::ConstructionFailed {
                interface,
                cause,
            },
        }
    }
}

impl<E> Error<E> {
    /// The text of a failure that resolution itself raised.
    pub open spec fn text(&self) -> Option<Seq<char>> {
        match *self {
            Error::UnknownInterface(name) => Some("Unknown interface "@ + name@),
            _ => None,
        }
    }

    /// Describes a failure that resolution itself raised; a failure passed on
    /// from a collaborator is described by its `cause` and yields `None`.
    pub fn message(&self) -> (text: Option<String>)
        ensures
            match text {
                Some(t) => self.text() == Some(t@),
                None => self.text() is None,
            },
    {
        match self {
            Error::UnknownInterface(name) => {
                Some(String::from_str("Unknown interface ").concat(name.as_str()))
            },
            _ => None,
        }
    }
}

} // verus!

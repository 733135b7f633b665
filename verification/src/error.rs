use vstd::prelude::*;

verus! {

/// The result of an operation that may fail with an [`Error`].
pub type Result<T> = core::result::Result<T, Error>;

/// Why a retrieval produced no value. Each variant carries the description of
/// the failure as the layer that met it worded it.
#[derive(Debug, Clone)]
pub enum Error {
    /// The request failed on the network or at the HTTP level, so that no
    /// document arrived.
    TransportError(String),
    /// A document arrived, but its shape is not one that was expected.
    DecodeError(String),
}

impl Error {
    /// The description that the error carries.
    pub open spec fn text(&self) -> Seq<char> {
        match self {
            Error::TransportError(s) => s@,
            Error::DecodeError(s) => s@,
        }
    }

    /// The description that the error carries.
    pub fn message(&self) -> (s: &String)
        ensures
            s@ == self.text(),
            self matches Error::TransportError(t) ==> *s == t,
            self matches Error::DecodeError(t) ==> *s == t,
    {
        match self {
            Error::TransportError(s) => s,
            Error::DecodeError(s) => s,
        }
    }

    /// True for a failure of the network or HTTP layer, false for a document
    /// of the wrong shape.
    pub fn is_transport(&self) -> (b: bool)
        ensures
            b == (self is TransportError),
    {
        match self {
            Error::TransportError(_) => true,
            Error::DecodeError(_) => false,
        }
    }
}

} // verus!

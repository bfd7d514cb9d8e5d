//! The errors of a WebTransport connection.

use vstd::prelude::*;

verus! {

/// Errors that may happen on a connection.
pub enum Error {
    /// The noise handshake failed.
    Noise(libp2p_noise::Error),
    /// An operation of the session failed, with this message.
    JsError(String),
    /// A value of the session was not of the expected type.
    JsCastFailed,
    /// The remote proved to be another peer than the expected one.
    UnknownRemotePeerId,
}

impl From<libp2p_noise::Error> for Error {
    fn from(error: libp2p_noise::Error) -> (converted: Self) {
        Error::Noise(error)
    }
}

impl vstd::std_specs::convert::FromSpecImpl<libp2p_noise::Error> for Error {
    open spec fn obeys_from_spec() -> bool {
        true
    }

    open spec fn from_spec(error: libp2p_noise::Error) -> Self {
        Error::Noise(error)
    }
}

} // verus!

//! Error taxonomy: transport failures, protocol-level section failures,
//! and caller usage errors are kept apart.

use vstd::prelude::*;

verus! {

/// A failure of the byte transport underneath the protocol.
#[derive(Clone, Copy, Debug, PartialEq, Eq, Structural)]
pub enum TransportError {
    /// The TCP connection could not be opened.
    ConnectFailed,
    /// No progress was made within the timeout window.
    Timeout,
    /// The peer closed the connection before the declared length arrived.
    Incomplete,
    /// Any other I/O failure while reading or writing.
    IOFailure,
}

/// An embedded per-section failure: the feature exists on the device but
/// this call failed, with a device-supplied code and message.
#[derive(Clone, Debug)]
pub struct SectionError {
    pub err_code: i16,
    pub err_msg: String,
}

/// A protocol-level failure found while reading a reply document.
#[derive(Clone, Debug)]
pub enum ProtocolError {
    /// The top-level service key is absent: the feature is not
    /// implemented by this model.
    MissingSection,
    /// The section is present but carries an embedded error payload.
    SectionError(SectionError),
    /// The payload's shape does not match what was expected.
    DecodeError,
}

/// Any failure surfaced to a caller of the library.
#[derive(Clone, Debug)]
pub enum Error {
    /// The transport failed before a reply was available.
    Transport(TransportError),
    /// The reply arrived but was protocol-level wrong for the request.
    Protocol(ProtocolError),
    /// A caller-supplied argument was out of range; checked before any
    /// network call, never transmitted.
    Usage(String),
    /// Any other failure, described in text.
    Other(String),
}

impl SectionError {
    /// A human-readable rendering of the code and message.
    pub fn message(&self) -> (r: String)
        ensures
            r@.len() >= self.err_msg@.len(),
    {
        let mut out = crate::text::i64_text(self.err_code as i64);
        out.append(": ");
        out.append(self.err_msg.as_str());
        out
    }
}

impl Error {
    /// A short human-readable description of the error.
    pub fn message(&self) -> String {
        match self {
            Error::Transport(TransportError::ConnectFailed) => {
                "error connecting to the device".to_owned()
            },
            Error::Transport(TransportError::Timeout) => {
                "timed out waiting for the device".to_owned()
            },
            Error::Transport(TransportError::Incomplete) => {
                "the device closed the connection early".to_owned()
            },
            Error::Transport(TransportError::IOFailure) => {
                "error talking to the device".to_owned()
            },
            Error::Protocol(ProtocolError::MissingSection) => {
                "the device does not implement this feature".to_owned()
            },
            Error::Protocol(ProtocolError::SectionError(s)) => {
                let mut out = "response data error: ".to_owned();
                let m = s.message();
                out.append(m.as_str());
                out
            },
            Error::Protocol(ProtocolError::DecodeError) => {
                "could not parse the response received from the device".to_owned()
            },
            Error::Usage(s) => s.clone(),
            Error::Other(s) => s.clone(),
        }
    }
}

/// The usual result type of this library.
pub type Result<T> = core::result::Result<T, Error>;

} // verus!

//! Error taxonomy of the transport layer.
//!
//! Construction errors (bad address, missing or invalid TLS material) are
//! fatal and never retried; transport errors are network-level failures;
//! API errors carry the daemon's non-2xx status and body; decode errors end
//! the affected stream.

use vstd::prelude::*;

verus! {

/// Which of the three fixed TLS material files an error refers to.
#[derive(Clone, Copy, Debug, PartialEq, Eq, Structural)]
pub enum TlsFileKind {
    /// `ca.pem`, the optional CA bundle.
    CaPem,
    /// `cert.pem`, the client certificate chain.
    CertPem,
    /// `key.pem`, the client private key.
    KeyPem,
}

impl TlsFileKind {
    /// The on-disk file name this kind stands for.
    pub fn file_name(&self) -> (r: &'static str)
        ensures
            *self == TlsFileKind::CaPem ==> r@ == "ca.pem"@,
            *self == TlsFileKind::CertPem ==> r@ == "cert.pem"@,
            *self == TlsFileKind::KeyPem ==> r@ == "key.pem"@,
    {
        match self {
            TlsFileKind::CaPem => "ca.pem",
            TlsFileKind::CertPem => "cert.pem",
            TlsFileKind::KeyPem => "key.pem",
        }
    }
}

/// One error of the transport layer.
#[derive(Clone, Debug)]
pub enum Error {
    /// The target address is not `scheme://host[:port][/path]`.
    InvalidAddress,
    /// A required TLS material file was missing or unreadable.
    MissingTlsFile(TlsFileKind),
    /// A TLS material file did not decode as PEM.
    InvalidPem(TlsFileKind),
    /// `key.pem` held no private key.
    NoPrivateKey,
    /// `key.pem` held more than one private key.
    MultiplePrivateKeys,
    /// `key.pem` held a private key that is neither RSA nor PKCS8.
    UnsupportedPrivateKey,
    /// A network-level failure: connection refused, handshake failure,
    /// or an I/O error mid-response.
    Transport(String),
    /// The daemon answered with a non-2xx status; carries that status and
    /// the response body.
    Api { code: u16, message: String },
    /// A response body or stream item was not valid JSON.
    Decode,
    /// The daemon declined to upgrade the connection.
    ConnectionNotUpgraded,
}

impl Error {
    /// True for construction errors, which are fatal and must not be retried.
    pub fn is_construction(&self) -> (r: bool)
        ensures
            r == (self is InvalidAddress || self is MissingTlsFile || self is InvalidPem
                || self is NoPrivateKey || self is MultiplePrivateKeys
                || self is UnsupportedPrivateKey),
    {
        match self {
            Error::InvalidAddress => true,
            Error::MissingTlsFile(_) => true,
            Error::InvalidPem(_) => true,
            Error::NoPrivateKey => true,
            Error::MultiplePrivateKeys => true,
            Error::UnsupportedPrivateKey => true,
            _ => false,
        }
    }
}

} // verus!

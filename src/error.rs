use vstd::prelude::*;

verus! {

/// Why a file could not be read, as reported by the operating system.
#[derive(Clone, Copy, Debug, PartialEq, Eq, Structural)]
pub enum IoErrorKind {
    NotFound,
    PermissionDenied,
    InvalidInput,
    InvalidData,
    Other,
}

/// The four families of failure a connection attempt can end in.
#[derive(Clone, Copy, Debug, PartialEq, Eq, Structural)]
pub enum ErrorCategory {
    Io,
    InvalidInput,
    TlsConfiguration,
    TlsProtocol,
}

/// Every failure of this library, surfaced to the caller as one value.
#[derive(Clone, Debug)]
pub enum TlsError {
    /// The certificate file could not be read.
    Io { kind: IoErrorKind, message: String },
    /// The certificate file's extension is none of `pem`, `crt`, `der`.
    UnsupportedExtension,
    /// A single-certificate file held `found` certificates instead of one.
    CertificateCount { found: usize },
    /// A PEM section could not be decoded.
    MalformedPem { message: String },
    /// A certificate could not be turned into a trust anchor.
    InvalidCertificate { message: String },
    /// The host is neither a DNS name nor an IP address.
    InvalidServerName { host: String },
    /// The platform's trust store yielded no usable anchor.
    EmptyNativeStore,
    /// The handshake was rejected by the TLS engine.
    Handshake { message: String },
}

impl TlsError {
    pub open spec fn category_spec(&self) -> ErrorCategory {
        match self {
            TlsError::Io { .. } => ErrorCategory::Io,
            TlsError::UnsupportedExtension => ErrorCategory::InvalidInput,
            TlsError::CertificateCount { .. } => ErrorCategory::InvalidInput,
            TlsError::MalformedPem { .. } => ErrorCategory::InvalidInput,
            TlsError::InvalidCertificate { .. } => ErrorCategory::InvalidInput,
            TlsError::InvalidServerName { .. } => ErrorCategory::TlsConfiguration,
            TlsError::EmptyNativeStore => ErrorCategory::TlsConfiguration,
            TlsError::Handshake { .. } => ErrorCategory::TlsProtocol,
        }
    }

    /// The family this error belongs to.
    pub fn category(&self) -> (r: ErrorCategory)
        ensures
            r == self.category_spec(),
    {
        match self {
            TlsError::Io { .. } => ErrorCategory::Io,
            TlsError::UnsupportedExtension => ErrorCategory::InvalidInput,
            TlsError::CertificateCount { .. } => ErrorCategory::InvalidInput,
            TlsError::MalformedPem { .. } => ErrorCategory::InvalidInput,
            TlsError::InvalidCertificate { .. } => ErrorCategory::InvalidInput,
            TlsError::InvalidServerName { .. } => ErrorCategory::TlsConfiguration,
            TlsError::EmptyNativeStore => ErrorCategory::TlsConfiguration,
            TlsError::Handshake { .. } => ErrorCategory::TlsProtocol,
        }
    }
}

} // verus!

//! Trust-policy resolution for TLS client connections: certificate loading,
//! root-store construction, server-name selection and per-engine settings.

pub mod certificate;
pub mod error;
pub mod policy;
pub mod roots;
pub mod server_name;

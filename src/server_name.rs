use vstd::prelude::*;

use tokio_rustls::rustls::pki_types::{InvalidDnsNameError, ServerName};

use crate::error::TlsError;
use crate::policy::{Config, TrustPolicy};

verus! {

#[verifier::external_type_specification]
#[verifier::external_body]
pub struct ExServerName<'a>(ServerName<'a>);

#[verifier::external_type_specification]
#[verifier::external_body]
pub struct ExInvalidDnsNameError(InvalidDnsNameError);

/// Whether a host can be presented in a handshake: a DNS name or an IP address.
pub uninterp spec fn is_server_name(host: Seq<char>) -> bool;

/// A plain DNS name: dot-separated labels of lower-case ASCII letters, at
/// most 63 characters in all.
pub open spec fn plain_dns_name(s: Seq<char>) -> bool {
    &&& 1 <= s.len() <= 63
    &&& forall|i: int| 0 <= i < s.len() ==> ('a' <= #[trigger] s[i] <= 'z' || s[i] == '.')
    &&& s[0] != '.'
    &&& s.last() != '.'
    &&& forall|i: int| 0 <= i < s.len() - 1 ==> !(#[trigger] s[i] == '.' && s[i + 1] == '.')
}

/// Relies on `ServerName::try_from(String)` of rustls-pki-types: it succeeds
/// on a DNS name or an IP address, and so on every plain DNS name.
#[verifier::external_body]
fn parse_server_name(host: String) -> (r: Result<ServerName<'static>, InvalidDnsNameError>)
    ensures
        r is Ok <==> is_server_name(host@),
        plain_dns_name(host@) ==> r is Ok,
{
    ServerName::try_from(host)
}

/// Where the name presented in a handshake comes from.
#[derive(Clone, Copy, Debug, PartialEq, Eq, Structural)]
pub enum SniSource {
    /// The configured host.
    Host,
    /// A fixed placeholder, since nothing about the name is verified.
    Placeholder,
}

/// Picks the source of the server name: the host when it is a valid name,
/// else the placeholder under `TrustAll`, else an error naming the host.
pub fn server_name_source(host: &str, host_is_valid: bool, trust: &TrustPolicy) -> (r: Result<SniSource, TlsError>)
    ensures
        host_is_valid ==> r == Ok::<SniSource, TlsError>(SniSource::Host),
        !host_is_valid && trust is TrustAll ==> r == Ok::<SniSource, TlsError>(SniSource::Placeholder),
        !host_is_valid && !(trust is TrustAll) ==> (r matches Err(TlsError::InvalidServerName { host: h }) && h@ == host@),
{
    if host_is_valid {
        Ok(SniSource::Host)
    } else {
        match trust {
            TrustPolicy::TrustAll => Ok(SniSource::Placeholder),
            _ => Err(TlsError::InvalidServerName { host: host.to_owned() }),
        }
    }
}

/// The text presented under `TrustAll` when the host is not a valid name.
pub open spec fn placeholder_server_name() -> Seq<char> {
    seq!['p', 'l', 'a', 'c', 'e', 'h', 'o', 'l', 'd', 'e', 'r', '.', 'd', 'o', 'm', 'a', 'i', 'n', '.', 'c', 'o', 'm']
}

/// The server name chosen for a connection: the text it was parsed from, and
/// the name itself.
pub struct ResolvedServerName {
    pub text: String,
    pub name: ServerName<'static>,
}

/// The name presented in the handshake for `config`: its host where that is a
/// DNS name or IP address, under every policy; otherwise the placeholder under
/// `TrustAll`, and an error naming the host under every other policy.
pub fn resolve_server_name(config: &Config) -> (r: Result<ResolvedServerName, TlsError>)
    ensures
        is_server_name(config.host@) ==> (r is Ok && r->Ok_0.text@ == config.host@),
        !is_server_name(config.host@) && config.trust is TrustAll ==> (r is Ok
            && r->Ok_0.text@ == placeholder_server_name()),
        !is_server_name(config.host@) && !(config.trust is TrustAll) ==> (r matches Err(
            TlsError::InvalidServerName { host: h },
        ) && h@ == config.host@),
        r is Ok ==> is_server_name(r->Ok_0.text@),
{
    let host = config.get_host();
    let parsed = parse_server_name(host.to_owned());
    let valid = parsed.is_ok();
    match server_name_source(host, valid, &config.trust) {
        Err(e) => Err(e),
        Ok(SniSource::Host) => match parsed {
            Ok(name) => Ok(ResolvedServerName { text: host.to_owned(), name }),
            Err(_) => Err(TlsError::InvalidServerName { host: host.to_owned() }),
        },
        Ok(SniSource::Placeholder) => {
            let placeholder = "placeholder.domain.com";
            proof {
                reveal_strlit("placeholder.domain.com");
                assert(placeholder@ =~= placeholder_server_name());
                assert(plain_dns_name(placeholder@));
            }
            match parse_server_name(placeholder.to_owned()) {
                Ok(name) => Ok(ResolvedServerName { text: placeholder.to_owned(), name }),
                Err(_) => Err(TlsError::InvalidServerName { host: host.to_owned() }),
            }
        },
    }
}

} // verus!

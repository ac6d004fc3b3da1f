use tls_stream::error::TlsError;
use tls_stream::policy::{
    native_tls_settings, permissive_signature_schemes, sends_sni, uses_permissive_verifier, Config,
    NativeTlsSettings, TrustPolicy,
};
use tls_stream::server_name::{resolve_server_name, server_name_source, SniSource};

fn config(host: &str, trust: TrustPolicy) -> Config {
    Config::new(String::from(host), trust)
}

#[test]
fn config_keeps_its_host() {
    let c = config("example.com", TrustPolicy::Default);
    assert_eq!(c.get_host(), "example.com");
}

#[test]
fn valid_host_is_used_under_every_policy() {
    assert!(resolve_server_name(&config("example.com", TrustPolicy::Default)).is_ok());
    assert!(resolve_server_name(&config("10.0.0.1", TrustPolicy::TrustAll)).is_ok());
    assert!(resolve_server_name(&config("::1", TrustPolicy::CaCertificateBundle(Vec::new()))).is_ok());
}

#[test]
fn valid_host_is_presented_unchanged() {
    for trust in [
        TrustPolicy::TrustAll,
        TrustPolicy::Default,
        TrustPolicy::CaCertificateLocation(String::from("ca.pem")),
        TrustPolicy::CaCertificateBundle(Vec::new()),
    ] {
        assert_eq!(resolve_server_name(&config("example.com", trust)).unwrap().text, "example.com");
    }
    assert_eq!(resolve_server_name(&config("10.0.0.1", TrustPolicy::Default)).unwrap().text, "10.0.0.1");
}

#[test]
fn invalid_host_under_trust_all_uses_placeholder() {
    let resolved = resolve_server_name(&config("not a host!!", TrustPolicy::TrustAll)).unwrap();
    assert_eq!(resolved.text, "placeholder.domain.com");
    assert_eq!(
        server_name_source("not a host!!", false, &TrustPolicy::TrustAll).unwrap(),
        SniSource::Placeholder
    );
}

#[test]
fn invalid_host_under_other_policies_is_refused() {
    for trust in [
        TrustPolicy::Default,
        TrustPolicy::CaCertificateLocation(String::from("ca.pem")),
        TrustPolicy::CaCertificateBundle(Vec::new()),
    ] {
        match resolve_server_name(&config("not a host!!", trust)) {
            Err(TlsError::InvalidServerName { host }) => assert_eq!(host, "not a host!!"),
            _ => panic!("expected an invalid server name"),
        }
    }
}

#[test]
fn server_name_source_prefers_the_host() {
    assert_eq!(server_name_source("a.b", true, &TrustPolicy::TrustAll).unwrap(), SniSource::Host);
    assert_eq!(server_name_source("a.b", true, &TrustPolicy::Default).unwrap(), SniSource::Host);
    assert!(matches!(
        server_name_source("a b", false, &TrustPolicy::Default),
        Err(TlsError::InvalidServerName { .. })
    ));
}

#[test]
fn only_trust_all_bypasses_verification() {
    let insecure = NativeTlsSettings { accept_invalid_certs: true, accept_invalid_hostnames: true, use_sni: false };
    let secure = NativeTlsSettings { accept_invalid_certs: false, accept_invalid_hostnames: false, use_sni: true };
    assert_eq!(native_tls_settings(&TrustPolicy::TrustAll), insecure);
    assert!(uses_permissive_verifier(&TrustPolicy::TrustAll));
    assert!(!sends_sni(&TrustPolicy::TrustAll));
    for trust in [
        TrustPolicy::Default,
        TrustPolicy::CaCertificateLocation(String::from("ca.der")),
        TrustPolicy::CaCertificateBundle(vec![1, 2]),
    ] {
        assert_eq!(native_tls_settings(&trust), secure);
        assert!(!uses_permissive_verifier(&trust));
        assert!(sends_sni(&trust));
    }
}

#[test]
fn permissive_verifier_declares_standard_schemes() {
    assert_eq!(
        permissive_signature_schemes(),
        vec![0x0201, 0x0203, 0x0401, 0x0403, 0x0501, 0x0503, 0x0601, 0x0603, 0x0804, 0x0805, 0x0806, 0x0807, 0x0808]
    );
}

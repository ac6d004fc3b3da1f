use vstd::prelude::*;

verus! {

/// Which server certificates a connection accepts.
#[derive(Clone, Debug)]
pub enum TrustPolicy {
    /// The platform's trust anchors.
    Default,
    /// Any certificate, for any host name: verification is switched off.
    TrustAll,
    /// The one certificate of the CA file at this path.
    CaCertificateLocation(String),
    /// Every certificate of this PEM bundle.
    CaCertificateBundle(Vec<u8>),
}

/// What a connection attempt is made with: the host to reach and the policy
/// its certificate is judged by.
#[derive(Clone, Debug)]
pub struct Config {
    pub host: String,
    pub trust: TrustPolicy,
}

impl Config {
    pub fn new(host: String, trust: TrustPolicy) -> (r: Config)
        ensures
            r.host@ == host@,
            r.trust == trust,
    {
        Config { host, trust }
    }

    pub fn get_host(&self) -> (r: &str)
        ensures
            r@ == self.host@,
    {
        self.host.as_str()
    }
}

/// Whether the rustls engine replaces certificate verification by one that
/// accepts everything.
pub open spec fn uses_permissive_verifier_spec(trust: TrustPolicy) -> bool {
    trust is TrustAll
}

/// Whether the rustls engine must be given a verifier that accepts every
/// chain and signature in place of its own: under `TrustAll` only.
pub fn uses_permissive_verifier(trust: &TrustPolicy) -> (r: bool)
    ensures
        r == uses_permissive_verifier_spec(*trust),
{
    match trust {
        TrustPolicy::TrustAll => true,
        _ => false,
    }
}

/// What the native-tls engine's connector is told beside its root
/// certificates.
#[derive(Clone, Copy, Debug, PartialEq, Eq, Structural)]
pub struct NativeTlsSettings {
    pub accept_invalid_certs: bool,
    pub accept_invalid_hostnames: bool,
    pub use_sni: bool,
}

/// Whether the handshake carries the server name indication: not under
/// `TrustAll`, where the name means nothing.
pub open spec fn sends_sni_spec(trust: TrustPolicy) -> bool {
    !(trust is TrustAll)
}

/// Whether either engine sends the server name indication under a policy.
pub fn sends_sni(trust: &TrustPolicy) -> (r: bool)
    ensures
        r == sends_sni_spec(*trust),
{
    !uses_permissive_verifier(trust)
}

pub open spec fn native_tls_settings_spec(trust: TrustPolicy) -> NativeTlsSettings {
    let insecure = trust is TrustAll;
    NativeTlsSettings {
        accept_invalid_certs: insecure,
        accept_invalid_hostnames: insecure,
        use_sni: sends_sni_spec(trust),
    }
}

/// The native-tls connector settings for a policy: `TrustAll` switches off
/// chain and host-name verification and SNI; every other policy keeps them.
pub fn native_tls_settings(trust: &TrustPolicy) -> (r: NativeTlsSettings)
    ensures
        r == native_tls_settings_spec(*trust),
{
    let insecure = uses_permissive_verifier(trust);
    NativeTlsSettings {
        accept_invalid_certs: insecure,
        accept_invalid_hostnames: insecure,
        use_sni: sends_sni(trust),
    }
}

/// Both engines bypass certificate verification under exactly the same
/// policies, verify host names under exactly those where they verify chains,
/// and send the server name indication under exactly the others.
pub proof fn engines_agree_on_verification(trust: TrustPolicy)
    ensures
        native_tls_settings_spec(trust).accept_invalid_certs == uses_permissive_verifier_spec(trust),
        native_tls_settings_spec(trust).accept_invalid_hostnames == uses_permissive_verifier_spec(trust),
        native_tls_settings_spec(trust).use_sni == sends_sni_spec(trust),
        sends_sni_spec(trust) == !uses_permissive_verifier_spec(trust),
        uses_permissive_verifier_spec(trust) <==> trust is TrustAll,
{
}

/// The wire codes of the signature schemes the permissive verifier declares:
/// RSA PKCS#1 with SHA-1, SHA-256, SHA-384, SHA-512; ECDSA with SHA-1 and on
/// P-256, P-384, P-521; RSA-PSS with SHA-256, SHA-384, SHA-512; Ed25519 and
/// Ed448.
pub open spec fn permissive_schemes_spec() -> Seq<u16> {
    seq![
        0x0201u16, 0x0203, 0x0401, 0x0403, 0x0501, 0x0503, 0x0601, 0x0603,
        0x0804, 0x0805, 0x0806, 0x0807, 0x0808,
    ]
}

/// The signature schemes the permissive verifier declares, as wire codes, so
/// that negotiation succeeds against servers that insist on any of them.
pub fn permissive_signature_schemes() -> (r: Vec<u16>)
    ensures
        r@ == permissive_schemes_spec(),
{
    let r: Vec<u16> = vec![
        0x0201u16, 0x0203, 0x0401, 0x0403, 0x0501, 0x0503, 0x0601, 0x0603,
        0x0804, 0x0805, 0x0806, 0x0807, 0x0808,
    ];
    assert(r@ =~= permissive_schemes_spec());
    r
}

} // verus!

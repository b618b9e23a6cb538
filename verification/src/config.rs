//! Client configuration: the optional settings that callers supply and the
//! complete settings that result once defaults are filled in.

use crate::text::{
    clone_bytes, clone_opt_string, clone_strings, contains_string, opt_str_view, strings_view,
};
use vstd::prelude::*;

verus! {

/// Concurrent uploads allowed during a push when none is configured.
pub const DEFAULT_MAX_CONCURRENT_UPLOAD: usize = 16;

/// Concurrent downloads allowed during a pull when none is configured.
pub const DEFAULT_MAX_CONCURRENT_DOWNLOAD: usize = 16;

/// Lifetime in seconds assumed for a token that states none.
pub const DEFAULT_TOKEN_EXPIRATION_SECS: usize = 60;

/// Protocol selector of a [`ClientConfig`].
#[derive(Clone, Copy, Debug, PartialEq, Eq, Structural)]
pub enum ClientProtocol {
    /// Use HTTP for every registry.
    Http,
    /// Use HTTPS for every registry.
    Https,
    /// Use HTTPS except for the registries listed beside the selector.
    HttpsExcept,
}

/// Encoding of a certificate.
#[derive(Clone, Copy, Debug, PartialEq, Eq, Structural)]
pub enum CertificateEncoding {
    /// DER encoded certificate.
    Der,
    /// PEM encoded certificate.
    Pem,
}

/// An x509 certificate to trust.
#[derive(Debug)]
pub struct Certificate {
    /// Which encoding the data uses.
    pub encoding: CertificateEncoding,
    /// The certificate data.
    pub data: Vec<u8>,
}

/// Mathematical value of a [`Certificate`].
pub struct CertificateView {
    pub encoding: CertificateEncoding,
    pub data: Seq<u8>,
}

impl View for Certificate {
    type V = CertificateView;

    open spec fn view(&self) -> CertificateView {
        CertificateView { encoding: self.encoding, data: self.data@ }
    }
}

impl Certificate {
    /// A copy of this certificate for the transport's trust set.
    pub fn to_native(&self) -> (r: Certificate)
        ensures
            r@ == self@,
    {
        Certificate { encoding: self.encoding, data: clone_bytes(&self.data) }
    }
}

impl Clone for Certificate {
    fn clone(&self) -> (r: Self)
        ensures
            r@ == self@,
    {
        self.to_native()
    }
}

/// View of a list of certificates.
pub open spec fn certificates_view(v: Seq<Certificate>) -> Seq<CertificateView> {
    Seq::new(v.len(), |i: int| v[i]@)
}

/// Client settings as callers supply them. Every field is optional.
#[derive(Debug)]
pub struct ClientConfig {
    /// Which protocol the client should use.
    pub protocol: Option<ClientProtocol>,
    /// Registries excluded from HTTPS; read only with `HttpsExcept`.
    pub https_except_registries: Option<Vec<String>>,
    /// Accept invalid certificates.
    pub accept_invalid_certificates: Option<bool>,
    /// Push each blob in a single request.
    pub use_monolithic_push: Option<bool>,
    /// Extra root certificates to trust.
    pub extra_root_certificates: Option<Vec<Certificate>>,
    /// Maximum number of concurrent uploads during a push.
    pub max_concurrent_upload: Option<u32>,
    /// Maximum number of concurrent downloads during a pull.
    pub max_concurrent_download: Option<u32>,
    /// Lifetime in seconds assumed for a token that states none.
    pub default_token_expiration_secs: Option<u32>,
    /// Read timeout in milliseconds.
    pub read_timeout_ms: Option<u32>,
    /// Connect timeout in milliseconds.
    pub connect_timeout_ms: Option<u32>,
    /// HTTPS proxy URL.
    pub https_proxy: Option<String>,
    /// HTTP proxy URL.
    pub http_proxy: Option<String>,
    /// Comma-separated list of hosts that bypass the proxies.
    pub no_proxy: Option<String>,
}

/// Protocol policy of a client.
#[derive(Debug)]
pub enum ProtocolPolicy {
    /// HTTP for every registry.
    Http,
    /// HTTPS for every registry.
    Https,
    /// HTTPS for every registry but the listed ones, which use HTTP.
    HttpsExcept(Vec<String>),
}

/// Mathematical value of a [`ProtocolPolicy`].
pub enum ProtocolPolicyView {
    Http,
    Https,
    HttpsExcept(Seq<Seq<char>>),
}

impl View for ProtocolPolicy {
    type V = ProtocolPolicyView;

    open spec fn view(&self) -> ProtocolPolicyView {
        match self {
            ProtocolPolicy::Http => ProtocolPolicyView::Http,
            ProtocolPolicy::Https => ProtocolPolicyView::Https,
            ProtocolPolicy::HttpsExcept(l) => ProtocolPolicyView::HttpsExcept(strings_view(l@)),
        }
    }
}

impl ProtocolPolicyView {
    /// Whether requests to `registry` go over HTTPS.
    pub open spec fn uses_https(self, registry: Seq<char>) -> bool {
        match self {
            ProtocolPolicyView::Http => false,
            ProtocolPolicyView::Https => true,
            ProtocolPolicyView::HttpsExcept(l) => !l.contains(registry),
        }
    }
}

impl ProtocolPolicy {
    /// Whether requests to `registry` go over HTTPS: never under `Http`,
    /// always under `Https`, and under `HttpsExcept` unless the registry is
    /// on the exception list.
    pub fn uses_https(&self, registry: &String) -> (r: bool)
        ensures
            r == self@.uses_https(registry@),
    {
        match self {
            ProtocolPolicy::Http => false,
            ProtocolPolicy::Https => true,
            ProtocolPolicy::HttpsExcept(l) => !contains_string(l, registry),
        }
    }

    /// The URL scheme for requests to `registry`.
    pub fn scheme_for(&self, registry: &String) -> (r: &'static str)
        ensures
            r@ == (if self@.uses_https(registry@) {
                "https"@
            } else {
                "http"@
            }),
    {
        if self.uses_https(registry) {
            "https"
        } else {
            "http"
        }
    }
}

/// Complete settings of a client: every default is filled in.
#[derive(Debug)]
pub struct ResolvedConfig {
    /// Protocol policy.
    pub protocol: ProtocolPolicy,
    /// Accept invalid certificates.
    pub accept_invalid_certificates: bool,
    /// Push each blob in a single request.
    pub use_monolithic_push: bool,
    /// Extra root certificates to trust.
    pub extra_root_certificates: Vec<Certificate>,
    /// Maximum number of concurrent uploads during a push.
    pub max_concurrent_upload: usize,
    /// Maximum number of concurrent downloads during a pull.
    pub max_concurrent_download: usize,
    /// Lifetime in seconds assumed for a token that states none.
    pub default_token_expiration_secs: usize,
    /// Read timeout in milliseconds.
    pub read_timeout_ms: Option<u64>,
    /// Connect timeout in milliseconds.
    pub connect_timeout_ms: Option<u64>,
    /// HTTPS proxy URL.
    pub https_proxy: Option<String>,
    /// HTTP proxy URL.
    pub http_proxy: Option<String>,
    /// Comma-separated list of hosts that bypass the proxies.
    pub no_proxy: Option<String>,
}

/// Mathematical value of a [`ResolvedConfig`].
pub struct ResolvedConfigView {
    pub protocol: ProtocolPolicyView,
    pub accept_invalid_certificates: bool,
    pub use_monolithic_push: bool,
    pub extra_root_certificates: Seq<CertificateView>,
    pub max_concurrent_upload: nat,
    pub max_concurrent_download: nat,
    pub default_token_expiration_secs: nat,
    pub read_timeout_ms: Option<nat>,
    pub connect_timeout_ms: Option<nat>,
    pub https_proxy: Option<Seq<char>>,
    pub http_proxy: Option<Seq<char>>,
    pub no_proxy: Option<Seq<char>>,
}

/// Mathematical value of a [`ClientConfig`].
pub struct ClientConfigView {
    pub protocol: Option<ClientProtocol>,
    pub https_except_registries: Option<Seq<Seq<char>>>,
    pub accept_invalid_certificates: Option<bool>,
    pub use_monolithic_push: Option<bool>,
    pub extra_root_certificates: Option<Seq<CertificateView>>,
    pub max_concurrent_upload: Option<nat>,
    pub max_concurrent_download: Option<nat>,
    pub default_token_expiration_secs: Option<nat>,
    pub read_timeout_ms: Option<nat>,
    pub connect_timeout_ms: Option<nat>,
    pub https_proxy: Option<Seq<char>>,
    pub http_proxy: Option<Seq<char>>,
    pub no_proxy: Option<Seq<char>>,
}

/// View of an optional 32-bit count.
pub open spec fn opt_u32_view(v: Option<u32>) -> Option<nat> {
    match v {
        Some(n) => Some(n as nat),
        None => None,
    }
}

/// View of an optional 64-bit count.
pub open spec fn opt_u64_view(v: Option<u64>) -> Option<nat> {
    match v {
        Some(n) => Some(n as nat),
        None => None,
    }
}

impl View for ResolvedConfig {
    type V = ResolvedConfigView;

    open spec fn view(&self) -> ResolvedConfigView {
        ResolvedConfigView {
            protocol: self.protocol@,
            accept_invalid_certificates: self.accept_invalid_certificates,
            use_monolithic_push: self.use_monolithic_push,
            extra_root_certificates: certificates_view(self.extra_root_certificates@),
            max_concurrent_upload: self.max_concurrent_upload as nat,
            max_concurrent_download: self.max_concurrent_download as nat,
            default_token_expiration_secs: self.default_token_expiration_secs as nat,
            read_timeout_ms: opt_u64_view(self.read_timeout_ms),
            connect_timeout_ms: opt_u64_view(self.connect_timeout_ms),
            https_proxy: opt_str_view(self.https_proxy),
            http_proxy: opt_str_view(self.http_proxy),
            no_proxy: opt_str_view(self.no_proxy),
        }
    }
}

impl View for ClientConfig {
    type V = ClientConfigView;

    open spec fn view(&self) -> ClientConfigView {
        ClientConfigView {
            protocol: self.protocol,
            https_except_registries: match self.https_except_registries {
                Some(l) => Some(strings_view(l@)),
                None => None,
            },
            accept_invalid_certificates: self.accept_invalid_certificates,
            use_monolithic_push: self.use_monolithic_push,
            extra_root_certificates: match self.extra_root_certificates {
                Some(l) => Some(certificates_view(l@)),
                None => None,
            },
            max_concurrent_upload: opt_u32_view(self.max_concurrent_upload),
            max_concurrent_download: opt_u32_view(self.max_concurrent_download),
            default_token_expiration_secs: opt_u32_view(self.default_token_expiration_secs),
            read_timeout_ms: opt_u32_view(self.read_timeout_ms),
            connect_timeout_ms: opt_u32_view(self.connect_timeout_ms),
            https_proxy: opt_str_view(self.https_proxy),
            http_proxy: opt_str_view(self.http_proxy),
            no_proxy: opt_str_view(self.no_proxy),
        }
    }
}

/// The protocol policy that a selector and an optional exception list give:
/// HTTPS when no selector is set, and an empty exception list when
/// `HttpsExcept` is selected without one. The list is ignored otherwise.
pub open spec fn resolve_protocol(
    protocol: Option<ClientProtocol>,
    except: Option<Seq<Seq<char>>>,
) -> ProtocolPolicyView {
    match protocol {
        None => ProtocolPolicyView::Https,
        Some(ClientProtocol::Http) => ProtocolPolicyView::Http,
        Some(ClientProtocol::Https) => ProtocolPolicyView::Https,
        Some(ClientProtocol::HttpsExcept) => ProtocolPolicyView::HttpsExcept(
            match except {
                Some(l) => l,
                None => Seq::empty(),
            },
        ),
    }
}

/// The settings of a client for which nothing was configured.
pub open spec fn default_config() -> ResolvedConfigView {
    ResolvedConfigView {
        protocol: ProtocolPolicyView::Https,
        accept_invalid_certificates: false,
        use_monolithic_push: false,
        extra_root_certificates: Seq::empty(),
        max_concurrent_upload: 16,
        max_concurrent_download: 16,
        default_token_expiration_secs: 60,
        read_timeout_ms: None,
        connect_timeout_ms: None,
        https_proxy: None,
        http_proxy: None,
        no_proxy: None,
    }
}

/// The complete settings that supplied settings denote: each field that is
/// set replaces the default, each field that is not keeps it.
pub open spec fn resolve_config(c: ClientConfigView) -> ResolvedConfigView {
    let d = default_config();
    ResolvedConfigView {
        protocol: resolve_protocol(c.protocol, c.https_except_registries),
        accept_invalid_certificates: match c.accept_invalid_certificates {
            Some(b) => b,
            None => d.accept_invalid_certificates,
        },
        use_monolithic_push: match c.use_monolithic_push {
            Some(b) => b,
            None => d.use_monolithic_push,
        },
        extra_root_certificates: match c.extra_root_certificates {
            Some(l) => l,
            None => d.extra_root_certificates,
        },
        max_concurrent_upload: match c.max_concurrent_upload {
            Some(n) => n,
            None => d.max_concurrent_upload,
        },
        max_concurrent_download: match c.max_concurrent_download {
            Some(n) => n,
            None => d.max_concurrent_download,
        },
        default_token_expiration_secs: match c.default_token_expiration_secs {
            Some(n) => n,
            None => d.default_token_expiration_secs,
        },
        read_timeout_ms: c.read_timeout_ms,
        connect_timeout_ms: c.connect_timeout_ms,
        https_proxy: c.https_proxy,
        http_proxy: c.http_proxy,
        no_proxy: c.no_proxy,
    }
}

/// Settings in which nothing is set denote the default settings.
pub proof fn lemma_unset_config_is_default(c: ClientConfigView)
    requires
        c.protocol.is_none(),
        c.accept_invalid_certificates.is_none(),
        c.use_monolithic_push.is_none(),
        c.extra_root_certificates.is_none(),
        c.max_concurrent_upload.is_none(),
        c.max_concurrent_download.is_none(),
        c.default_token_expiration_secs.is_none(),
        c.read_timeout_ms.is_none(),
        c.connect_timeout_ms.is_none(),
        c.https_proxy.is_none(),
        c.http_proxy.is_none(),
        c.no_proxy.is_none(),
    ensures
        resolve_config(c) == default_config(),
{
}

/// Copies a list of certificates, element by element.
pub fn clone_certificates(v: &Vec<Certificate>) -> (r: Vec<Certificate>)
    ensures
        certificates_view(r@) == certificates_view(v@),
{
    let mut out: Vec<Certificate> = Vec::new();
    let mut i: usize = 0;
    while i < v.len()
        invariant
            i <= v.len(),
            out.len() == i,
            forall|k: int| 0 <= k < i ==> out[k]@ == v[k]@,
        decreases v.len() - i,
    {
        out.push(v[i].to_native());
        i = i + 1;
    }
    assert(certificates_view(out@) =~= certificates_view(v@));
    out
}

/// Widens an optional millisecond count.
fn widen_ms(v: Option<u32>) -> (r: Option<u64>)
    ensures
        opt_u64_view(r) == opt_u32_view(v),
{
    match v {
        Some(n) => Some(n as u64),
        None => None,
    }
}

impl ResolvedConfig {
    /// The settings of a client for which nothing was configured: HTTPS,
    /// certificates checked, chunked push, 16 concurrent transfers each way,
    /// tokens assumed to live 60 seconds, no timeouts and no proxies.
    pub fn new() -> (r: ResolvedConfig)
        ensures
            r@ == default_config(),
    {
        let r = ResolvedConfig {
            protocol: ProtocolPolicy::Https,
            accept_invalid_certificates: false,
            use_monolithic_push: false,
            extra_root_certificates: Vec::new(),
            max_concurrent_upload: DEFAULT_MAX_CONCURRENT_UPLOAD,
            max_concurrent_download: DEFAULT_MAX_CONCURRENT_DOWNLOAD,
            default_token_expiration_secs: DEFAULT_TOKEN_EXPIRATION_SECS,
            read_timeout_ms: None,
            connect_timeout_ms: None,
            https_proxy: None,
            http_proxy: None,
            no_proxy: None,
        };
        assert(r@.extra_root_certificates =~= Seq::empty());
        r
    }
}

impl ClientConfig {
    /// Fills in the defaults: the result holds each supplied setting and the
    /// default of each setting that was not supplied.
    pub fn to_native(&self) -> (r: ResolvedConfig)
        ensures
            r@ == resolve_config(self@),
    {
        let mut config = ResolvedConfig::new();

        if let Some(protocol) = &self.protocol {
            config.protocol = match protocol {
                ClientProtocol::Http => ProtocolPolicy::Http,
                ClientProtocol::Https => ProtocolPolicy::Https,
                ClientProtocol::HttpsExcept => {
                    let registries = match &self.https_except_registries {
                        Some(l) => clone_strings(l),
                        None => Vec::new(),
                    };
                    assert(self.https_except_registries.is_none() ==> strings_view(registries@)
                        =~= Seq::empty());
                    ProtocolPolicy::HttpsExcept(registries)
                },
            };
        }
        if let Some(accept) = self.accept_invalid_certificates {
            config.accept_invalid_certificates = accept;
        }
        if let Some(monolithic) = self.use_monolithic_push {
            config.use_monolithic_push = monolithic;
        }
        if let Some(certs) = &self.extra_root_certificates {
            config.extra_root_certificates = clone_certificates(certs);
        }
        if let Some(max) = self.max_concurrent_upload {
            config.max_concurrent_upload = max as usize;
        }
        if let Some(max) = self.max_concurrent_download {
            config.max_concurrent_download = max as usize;
        }
        if let Some(secs) = self.default_token_expiration_secs {
            config.default_token_expiration_secs = secs as usize;
        }
        config.read_timeout_ms = widen_ms(self.read_timeout_ms);
        config.connect_timeout_ms = widen_ms(self.connect_timeout_ms);
        config.https_proxy = clone_opt_string(&self.https_proxy);
        config.http_proxy = clone_opt_string(&self.http_proxy);
        config.no_proxy = clone_opt_string(&self.no_proxy);
        config
    }
}

} // verus!

use oci_bindings::config::{
    Certificate, CertificateEncoding, ClientConfig, ClientProtocol, ProtocolPolicy, ResolvedConfig,
    DEFAULT_MAX_CONCURRENT_DOWNLOAD, DEFAULT_MAX_CONCURRENT_UPLOAD, DEFAULT_TOKEN_EXPIRATION_SECS,
};

fn empty_config() -> ClientConfig {
    ClientConfig {
        protocol: None,
        https_except_registries: None,
        accept_invalid_certificates: None,
        use_monolithic_push: None,
        extra_root_certificates: None,
        max_concurrent_upload: None,
        max_concurrent_download: None,
        default_token_expiration_secs: None,
        read_timeout_ms: None,
        connect_timeout_ms: None,
        https_proxy: None,
        http_proxy: None,
        no_proxy: None,
    }
}

fn assert_defaults(c: &ResolvedConfig) {
    assert!(matches!(c.protocol, ProtocolPolicy::Https));
    assert!(!c.accept_invalid_certificates);
    assert!(!c.use_monolithic_push);
    assert!(c.extra_root_certificates.is_empty());
    assert_eq!(c.max_concurrent_upload, 16);
    assert_eq!(c.max_concurrent_download, 16);
    assert_eq!(c.default_token_expiration_secs, 60);
    assert_eq!(c.read_timeout_ms, None);
    assert_eq!(c.connect_timeout_ms, None);
    assert_eq!(c.https_proxy, None);
    assert_eq!(c.http_proxy, None);
    assert_eq!(c.no_proxy, None);
}

#[test]
fn default_constants() {
    assert_eq!(DEFAULT_MAX_CONCURRENT_UPLOAD, 16);
    assert_eq!(DEFAULT_MAX_CONCURRENT_DOWNLOAD, 16);
    assert_eq!(DEFAULT_TOKEN_EXPIRATION_SECS, 60);
}

#[test]
fn new_resolved_config_holds_defaults() {
    assert_defaults(&ResolvedConfig::new());
}

#[test]
fn empty_config_resolves_to_defaults() {
    assert_defaults(&empty_config().to_native());
}

#[test]
fn every_supplied_setting_is_kept() {
    let mut c = empty_config();
    c.protocol = Some(ClientProtocol::Http);
    c.https_except_registries = Some(vec!["ignored.example".to_string()]);
    c.accept_invalid_certificates = Some(true);
    c.use_monolithic_push = Some(true);
    c.extra_root_certificates = Some(vec![
        Certificate { encoding: CertificateEncoding::Pem, data: vec![1, 2, 3] },
        Certificate { encoding: CertificateEncoding::Der, data: vec![] },
    ]);
    c.max_concurrent_upload = Some(4);
    c.max_concurrent_download = Some(u32::MAX);
    c.default_token_expiration_secs = Some(0);
    c.read_timeout_ms = Some(1500);
    c.connect_timeout_ms = Some(u32::MAX);
    c.https_proxy = Some("https://proxy:8443".to_string());
    c.http_proxy = Some("http://proxy:8080".to_string());
    c.no_proxy = Some("localhost,127.0.0.1".to_string());
    let r = c.to_native();
    assert!(matches!(r.protocol, ProtocolPolicy::Http));
    assert!(r.accept_invalid_certificates);
    assert!(r.use_monolithic_push);
    assert_eq!(r.extra_root_certificates.len(), 2);
    assert_eq!(r.extra_root_certificates[0].encoding, CertificateEncoding::Pem);
    assert_eq!(r.extra_root_certificates[0].data, vec![1, 2, 3]);
    assert_eq!(r.extra_root_certificates[1].encoding, CertificateEncoding::Der);
    assert!(r.extra_root_certificates[1].data.is_empty());
    assert_eq!(r.max_concurrent_upload, 4);
    assert_eq!(r.max_concurrent_download, u32::MAX as usize);
    assert_eq!(r.default_token_expiration_secs, 0);
    assert_eq!(r.read_timeout_ms, Some(1500));
    assert_eq!(r.connect_timeout_ms, Some(u32::MAX as u64));
    assert_eq!(r.https_proxy.as_deref(), Some("https://proxy:8443"));
    assert_eq!(r.http_proxy.as_deref(), Some("http://proxy:8080"));
    assert_eq!(r.no_proxy.as_deref(), Some("localhost,127.0.0.1"));
}

#[test]
fn https_selector_resolves_to_https() {
    let mut c = empty_config();
    c.protocol = Some(ClientProtocol::Https);
    c.https_except_registries = Some(vec!["a".to_string()]);
    assert!(matches!(c.to_native().protocol, ProtocolPolicy::Https));
}

#[test]
fn exception_list_without_selector_is_ignored() {
    let mut c = empty_config();
    c.https_except_registries = Some(vec!["a".to_string()]);
    assert!(matches!(c.to_native().protocol, ProtocolPolicy::Https));
}

#[test]
fn https_except_keeps_its_list_in_order() {
    let mut c = empty_config();
    c.protocol = Some(ClientProtocol::HttpsExcept);
    c.https_except_registries = Some(vec!["localhost:5000".to_string(), "reg.local".to_string()]);
    match c.to_native().protocol {
        ProtocolPolicy::HttpsExcept(l) => {
            assert_eq!(l, vec!["localhost:5000".to_string(), "reg.local".to_string()])
        }
        other => panic!("unexpected {:?}", other),
    }
}

#[test]
fn https_except_without_list_has_no_exception() {
    let mut c = empty_config();
    c.protocol = Some(ClientProtocol::HttpsExcept);
    match c.to_native().protocol {
        ProtocolPolicy::HttpsExcept(l) => assert!(l.is_empty()),
        other => panic!("unexpected {:?}", other),
    }
}

#[test]
fn scheme_follows_the_policy() {
    let reg = "localhost:5000".to_string();
    let other = "ghcr.io".to_string();
    assert_eq!(ProtocolPolicy::Http.scheme_for(&reg), "http");
    assert_eq!(ProtocolPolicy::Https.scheme_for(&reg), "https");
    let p = ProtocolPolicy::HttpsExcept(vec!["reg.local".to_string(), reg.clone()]);
    assert_eq!(p.scheme_for(&reg), "http");
    assert_eq!(p.scheme_for(&other), "https");
    assert!(!p.uses_https(&reg));
    assert!(p.uses_https(&other));
    assert!(ProtocolPolicy::HttpsExcept(vec![]).uses_https(&reg));
}

#[test]
fn certificate_copy_keeps_encoding_and_data() {
    let c = Certificate { encoding: CertificateEncoding::Der, data: vec![0x30, 0x82, 0xff] };
    let n = c.to_native();
    assert_eq!(n.encoding, CertificateEncoding::Der);
    assert_eq!(n.data, vec![0x30, 0x82, 0xff]);
    let k = c.clone();
    assert_eq!(k.data, c.data);
}

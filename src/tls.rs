use crate::errors::NotaryServerError;
use crate::identity::{
    identity_loads, load_identity, pem_certificates, pem_private_key, read_view, KeyFormat,
    ServerIdentity,
};
use rustls::pki_types::PrivateKeyDer;
use rustls::ServerConfig;
use rustls_acme::ResolvesServerCertAcme;
use std::sync::Arc;
use vstd::prelude::*;

verus! {

#[verifier::external_type_specification]
#[verifier::external_body]
pub struct ExServerConfig(rustls::ServerConfig);

#[verifier::external_type_specification]
#[verifier::external_body]
pub struct ExResolvesServerCertAcme(rustls_acme::ResolvesServerCertAcme);

/// The ALPN identifier of HTTP/1.1, the one protocol this service speaks.
pub open spec fn http11() -> Seq<u8> {
    seq![104u8, 116u8, 116u8, 112u8, 47u8, 49u8, 46u8, 49u8]
}

/// The protocol list of every application configuration.
pub open spec fn application_protocols() -> Seq<Seq<u8>> {
    seq![http11()]
}

/// The bytes `http/1.1`.
pub fn http11_protocol() -> (r: Vec<u8>)
    ensures
        r@ == http11(),
{
    let r: Vec<u8> = vec![104u8, 116u8, 116u8, 112u8, 47u8, 49u8, 46u8, 49u8];
    assert(r@ =~= http11());
    r
}

/// Whether a certificate chain and private key are material that rustls,
/// with the ring provider, can serve: the key is of a kind the provider loads
/// and it matches the leaf certificate. A configuration is only ever built from
/// such material; a refusal may also come from the machine (the provider draws
/// on the system's random source when it loads an ECDSA key).
pub uninterp spec fn single_cert_accepted(chain: Seq<Seq<u8>>, key: (KeyFormat, Seq<u8>)) -> bool;

/// A rustls configuration before its protocol list is set, with the
/// certificate source and client-authentication choice it was built with.
pub struct BaseConfig {
    config: ServerConfig,
    identity: Option<ServerIdentity>,
    client_auth: bool,
}

impl BaseConfig {
    /// The chain and key the configuration presents; `None` where a resolver
    /// supplies them at each handshake.
    pub closed spec fn presents(&self) -> Option<(Seq<Seq<u8>>, (KeyFormat, Seq<u8>))> {
        identity_view(self.identity)
    }

    /// Whether the configuration asks clients for a certificate.
    pub closed spec fn asks_client_certificate(&self) -> bool {
        self.client_auth
    }
}

pub open spec fn identity_view(identity: Option<ServerIdentity>) -> Option<
    (Seq<Seq<u8>>, (KeyFormat, Seq<u8>)),
> {
    match identity {
        Some(id) => Some((id.chain.deep_view(), id.key@)),
        None => None,
    }
}

/// Relies on `ServerConfig::builder_with_provider` (ring's default provider,
/// the safe default protocol versions), `with_no_client_auth` and
/// `with_single_cert`: a configuration that asks no client certificate and
/// presents the given chain and key, or rustls's error where it refuses them.
#[verifier::external_body]
fn single_cert_config(identity: &ServerIdentity) -> (r: Result<BaseConfig, String>)
    ensures
        r is Ok ==> single_cert_accepted(identity.chain.deep_view(), identity.key@),
        r is Ok ==> r->Ok_0.presents() == Some((identity.chain.deep_view(), identity.key@)),
        r is Ok ==> !r->Ok_0.asks_client_certificate(),
{
    let certs = identity.chain.iter().map(|c| c.clone().into()).collect();
    let der = identity.key.der.clone();
    let key = match identity.key.format {
        KeyFormat::Pkcs1 => PrivateKeyDer::Pkcs1(der.into()),
        KeyFormat::Sec1 => PrivateKeyDer::Sec1(der.into()),
        KeyFormat::Pkcs8 => PrivateKeyDer::Pkcs8(der.into()),
    };
    let provider = Arc::new(rustls::crypto::ring::default_provider());
    ServerConfig::builder_with_provider(provider).with_safe_default_protocol_versions()
        .and_then(|b| b.with_no_client_auth().with_single_cert(certs, key))
        .map(|config| BaseConfig { config, identity: Some(identity.clone()), client_auth: false })
        .map_err(|e| e.to_string())
}

/// Relies on `ServerConfig::builder_with_provider` (ring's default provider,
/// the safe default protocol versions), `with_no_client_auth` and
/// `with_cert_resolver`: a configuration that asks no client certificate and
/// takes its certificate from the resolver at each handshake.
#[verifier::external_body]
fn resolver_config(resolver: Arc<ResolvesServerCertAcme>) -> (r: Result<BaseConfig, String>)
    ensures
        r is Ok ==> r->Ok_0.presents() is None,
        r is Ok ==> !r->Ok_0.asks_client_certificate(),
{
    let provider = Arc::new(rustls::crypto::ring::default_provider());
    let builder = ServerConfig::builder_with_provider(provider).with_safe_default_protocol_versions();
    builder.map(|b| b.with_no_client_auth().with_cert_resolver(resolver))
        .map(|config| BaseConfig { config, identity: None, client_auth: false })
        .map_err(|e| e.to_string())
}

/// Relies on the field `ServerConfig::alpn_protocols`: the protocols that the
/// server negotiates through ALPN. The configuration is given that list and
/// records it.
#[verifier::external_body]
fn with_alpn(base: BaseConfig, protocols: Vec<Vec<u8>>) -> (r: TlsServerConfiguration)
    ensures
        r.alpn() == protocols.deep_view(),
        r.presents() == base.presents(),
        r.asks_client_certificate() == base.asks_client_certificate(),
{
    let BaseConfig { mut config, identity, client_auth } = base;
    config.alpn_protocols = protocols.clone();
    TlsServerConfiguration { config: Arc::new(config), protocols, identity, client_auth }
}

/// A TLS server configuration for application traffic, shared read-only by
/// every connection, with the ALPN protocol list, the certificate source and
/// the client-authentication choice it was built with.
pub struct TlsServerConfiguration {
    config: Arc<ServerConfig>,
    protocols: Vec<Vec<u8>>,
    identity: Option<ServerIdentity>,
    client_auth: bool,
}

impl TlsServerConfiguration {
    /// The ALPN protocols that the rustls configuration was given.
    pub closed spec fn alpn(&self) -> Seq<Seq<u8>> {
        self.protocols.deep_view()
    }

    /// The chain and key the configuration presents; `None` where a resolver
    /// supplies them at each handshake.
    pub closed spec fn presents(&self) -> Option<(Seq<Seq<u8>>, (KeyFormat, Seq<u8>))> {
        identity_view(self.identity)
    }

    /// Whether the configuration asks clients for a certificate.
    pub closed spec fn asks_client_certificate(&self) -> bool {
        self.client_auth
    }

    /// The shared rustls configuration.
    pub closed spec fn rustls(&self) -> Arc<ServerConfig> {
        self.config
    }

    fn application(base: BaseConfig) -> (r: TlsServerConfiguration)
        ensures
            r.alpn() == application_protocols(),
            r.presents() == base.presents(),
            r.asks_client_certificate() == base.asks_client_certificate(),
    {
        let protocol = http11_protocol();
        let protocols: Vec<Vec<u8>> = vec![protocol];
        assert(protocols@[0].deep_view() =~= http11());
        assert(protocols.deep_view() =~= application_protocols());
        with_alpn(base, protocols)
    }

    /// The application configuration of issuance mode: no client
    /// authentication, the certificate from the issuance collaborator's
    /// resolver at each handshake, the application protocol.
    pub fn issuance_application(resolver: Arc<ResolvesServerCertAcme>) -> (r: Result<
        TlsServerConfiguration,
        NotaryServerError,
    >)
        ensures
            r is Ok ==> r->Ok_0.alpn() == application_protocols(),
            r is Ok ==> r->Ok_0.presents() is None,
            r is Ok ==> !r->Ok_0.asks_client_certificate(),
            r is Err ==> r->Err_0 is ServerConfigError,
    {
        match resolver_config(resolver) {
            Ok(base) => Ok(TlsServerConfiguration::application(base)),
            Err(reason) => Err(NotaryServerError::ServerConfigError(reason)),
        }
    }

    /// The static configuration: no client authentication, the identity's
    /// chain and key, the application protocol. Fails with `ServerConfigError`
    /// where rustls refuses the identity.
    pub fn from_identity(identity: &ServerIdentity) -> (r: Result<
        TlsServerConfiguration,
        NotaryServerError,
    >)
        ensures
            r is Ok ==> single_cert_accepted(identity.chain.deep_view(), identity.key@),
            r is Ok ==> r->Ok_0.alpn() == application_protocols(),
            r is Ok ==> r->Ok_0.presents() == Some((identity.chain.deep_view(), identity.key@)),
            r is Ok ==> !r->Ok_0.asks_client_certificate(),
            r is Err ==> r->Err_0 is ServerConfigError,
    {
        match single_cert_config(identity) {
            Ok(base) => Ok(TlsServerConfiguration::application(base)),
            Err(reason) => Err(NotaryServerError::ServerConfigError(reason)),
        }
    }

    /// The protocol list, as handed to rustls.
    pub fn protocols(&self) -> (r: Vec<Vec<u8>>)
        ensures
            r.deep_view() == self.alpn(),
    {
        self.protocols.clone()
    }

    /// The shared rustls configuration.
    pub fn rustls_config(&self) -> (r: Arc<ServerConfig>)
        ensures
            r == self.rustls(),
    {
        self.config.clone()
    }
}

/// The chain and key that `identity_loads` finds in the two files.
pub open spec fn loaded_material(chain_file: Option<Seq<u8>>, key_file: Option<Seq<u8>>) -> (
    Seq<Seq<u8>>,
    (KeyFormat, Seq<u8>),
) {
    (
        pem_certificates(chain_file->Some_0)->Some_0,
        pem_private_key(key_file->Some_0)->Some_0->Some_0,
    )
}

/// Loads the identity from the contents of the two files (each `Err` with a
/// reason where it could not be read) and builds the static configuration
/// from it. Material that cannot be loaded gives a `CertificateError`, with
/// the read failure's reason where a file could not be read; material that
/// loads but that rustls cannot serve gives a `ServerConfigError`.
pub fn static_configuration(
    chain_file: Result<Vec<u8>, String>,
    key_file: Result<Vec<u8>, String>,
) -> (r: Result<TlsServerConfiguration, NotaryServerError>)
    ensures
        (r is Err && r->Err_0 is CertificateError) <==> !identity_loads(
            read_view(chain_file),
            read_view(key_file),
        ),
        r is Ok ==> identity_loads(read_view(chain_file), read_view(key_file))
            && single_cert_accepted(
            loaded_material(read_view(chain_file), read_view(key_file)).0,
            loaded_material(read_view(chain_file), read_view(key_file)).1,
        ),
        identity_loads(read_view(chain_file), read_view(key_file)) && !single_cert_accepted(
            loaded_material(read_view(chain_file), read_view(key_file)).0,
            loaded_material(read_view(chain_file), read_view(key_file)).1,
        ) ==> r is Err && r->Err_0 is ServerConfigError,
        r is Ok ==> r->Ok_0.alpn() == application_protocols(),
        r is Ok ==> r->Ok_0.presents() == Some(
            loaded_material(read_view(chain_file), read_view(key_file)),
        ),
        r is Ok ==> !r->Ok_0.asks_client_certificate(),
        chain_file is Err ==> r == Err::<TlsServerConfiguration, NotaryServerError>(
            NotaryServerError::CertificateError(chain_file->Err_0),
        ),
        chain_file is Ok && key_file is Err ==> r == Err::<
            TlsServerConfiguration,
            NotaryServerError,
        >(NotaryServerError::CertificateError(key_file->Err_0)),
{
    let identity = match load_identity(chain_file, key_file) {
        Ok(identity) => identity,
        Err(e) => return Err(e),
    };
    TlsServerConfiguration::from_identity(&identity)
}

} // verus!

use crate::errors::NotaryServerError;
use rustls::pki_types::PrivateKeyDer;
use vstd::prelude::*;

verus! {

/// The encoding of a DER private key.
#[derive(Debug, Clone, Copy, PartialEq, Eq, Structural)]
pub enum KeyFormat {
    Pkcs1,
    Sec1,
    Pkcs8,
}

/// A DER private key and its encoding.
#[derive(Debug, Clone)]
pub struct PrivateKey {
    pub format: KeyFormat,
    pub der: Vec<u8>,
}

impl View for PrivateKey {
    type V = (KeyFormat, Seq<u8>);

    open spec fn view(&self) -> (KeyFormat, Seq<u8>) {
        (self.format, self.der@)
    }
}

/// A certificate chain (leaf first, each certificate in DER) and its private key.
#[derive(Debug, Clone)]
pub struct ServerIdentity {
    pub chain: Vec<Vec<u8>>,
    pub key: PrivateKey,
}

impl ServerIdentity {
    /// The chain holds at least the leaf certificate.
    pub open spec fn wf(&self) -> bool {
        self.chain@.len() > 0
    }
}

/// The DER certificates of the `CERTIFICATE` sections of a PEM text, in order;
/// `None` where a section cannot be read.
pub uninterp spec fn pem_certificates(pem: Seq<u8>) -> Option<Seq<Seq<u8>>>;

/// The first private key section of a PEM text (`Some(None)` where there is
/// none); `None` where a section cannot be read.
pub uninterp spec fn pem_private_key(pem: Seq<u8>) -> Option<Option<(KeyFormat, Seq<u8>)>>;

/// Relies on `rustls_pemfile::certs`: the certificates of a PEM text in order,
/// sections of other kinds skipped, or the first read error.
#[verifier::external_body]
fn parse_certificates(pem: &[u8]) -> (r: Result<Vec<Vec<u8>>, String>)
    ensures
        r is Ok <==> pem_certificates(pem@) is Some,
        r is Ok ==> r->Ok_0.deep_view() == pem_certificates(pem@)->Some_0,
{
    let mut reader: &[u8] = pem;
    rustls_pemfile::certs(&mut reader).map(|c| c.map(|c| c.to_vec())).collect::<Result<
        Vec<Vec<u8>>,
        _,
    >>().map_err(|e| e.to_string())
}

pub open spec fn key_view(k: Option<PrivateKey>) -> Option<(KeyFormat, Seq<u8>)> {
    match k {
        Some(k) => Some(k@),
        None => None,
    }
}

/// Relies on `rustls_pemfile::private_key`: the first private key of a PEM
/// text, `None` where it holds none, or the first read error.
#[verifier::external_body]
fn parse_private_key(pem: &[u8]) -> (r: Result<Option<PrivateKey>, String>)
    ensures
        r is Ok <==> pem_private_key(pem@) is Some,
        r is Ok ==> key_view(r->Ok_0) == pem_private_key(pem@)->Some_0,
{
    let mut reader: &[u8] = pem;
    let (format, der) = match rustls_pemfile::private_key(&mut reader) {
        Ok(Some(PrivateKeyDer::Pkcs1(k))) => (KeyFormat::Pkcs1, k.secret_pkcs1_der().to_vec()),
        Ok(Some(PrivateKeyDer::Sec1(k))) => (KeyFormat::Sec1, k.secret_sec1_der().to_vec()),
        Ok(Some(PrivateKeyDer::Pkcs8(k))) => (KeyFormat::Pkcs8, k.secret_pkcs8_der().to_vec()),
        Ok(_) => return Ok(None),
        Err(e) => return Err(e.to_string()),
    };
    Ok(Some(PrivateKey { format, der }))
}

pub open spec fn read_view(file: Result<Vec<u8>, String>) -> Option<Seq<u8>> {
    match file {
        Ok(bytes) => Some(bytes@),
        Err(_) => None,
    }
}

/// Both files were read, the chain file holds at least one certificate and
/// no unreadable section, and the key file holds a private key.
pub open spec fn identity_loads(chain_file: Option<Seq<u8>>, key_file: Option<Seq<u8>>) -> bool {
    &&& chain_file is Some
    &&& key_file is Some
    &&& pem_certificates(chain_file->Some_0) is Some
    &&& pem_certificates(chain_file->Some_0)->Some_0.len() > 0
    &&& pem_private_key(key_file->Some_0) matches Some(Some(_))
}

/// The identity that `identity_loads` speaks of.
pub open spec fn loaded_identity_matches(
    id: ServerIdentity,
    chain_file: Option<Seq<u8>>,
    key_file: Option<Seq<u8>>,
) -> bool {
    &&& id.wf()
    &&& id.chain.deep_view() == pem_certificates(chain_file->Some_0)->Some_0
    &&& id.key@ == pem_private_key(key_file->Some_0)->Some_0->Some_0
}

fn certificate_error(m: &str) -> (r: NotaryServerError)
    ensures
        r is CertificateError,
{
    NotaryServerError::CertificateError(m.to_string())
}

/// Builds the server identity from the contents of the certificate chain file
/// and of the key file, each `Err` with a reason where the file could not be
/// read. Every failure is a `CertificateError`.
pub fn load_identity(chain_file: Result<Vec<u8>, String>, key_file: Result<Vec<u8>, String>) -> (r:
    Result<ServerIdentity, NotaryServerError>)
    ensures
        r is Ok <==> identity_loads(read_view(chain_file), read_view(key_file)),
        r is Ok ==> loaded_identity_matches(r->Ok_0, read_view(chain_file), read_view(key_file)),
        r is Err ==> r->Err_0 is CertificateError,
        chain_file is Err ==> r == Err::<ServerIdentity, NotaryServerError>(
            NotaryServerError::CertificateError(chain_file->Err_0),
        ),
        chain_file is Ok && key_file is Err ==> r == Err::<ServerIdentity, NotaryServerError>(
            NotaryServerError::CertificateError(key_file->Err_0),
        ),
{
    let chain_pem = match chain_file {
        Ok(bytes) => bytes,
        Err(reason) => return Err(NotaryServerError::CertificateError(reason)),
    };
    let key_pem = match key_file {
        Ok(bytes) => bytes,
        Err(reason) => return Err(NotaryServerError::CertificateError(reason)),
    };
    let chain = match parse_certificates(chain_pem.as_slice()) {
        Ok(chain) => chain,
        Err(reason) => return Err(NotaryServerError::CertificateError(reason)),
    };
    if chain.len() == 0 {
        return Err(certificate_error("no certificate found in the chain file"));
    }
    let key = match parse_private_key(key_pem.as_slice()) {
        Ok(Some(key)) => key,
        Ok(None) => return Err(certificate_error("no private key found in the key file")),
        Err(reason) => return Err(NotaryServerError::CertificateError(reason)),
    };
    Ok(ServerIdentity { chain, key })
}

} // verus!

use vstd::prelude::*;
use vstd::string::StringExecFns;

verus! {

/// The errors that stop the server before it starts listening.
#[derive(Debug, Clone)]
pub enum NotaryServerError {
    /// Certificate or private key material could not be read or parsed.
    CertificateError(String),
    /// The TLS server configuration could not be built from the material.
    ServerConfigError(String),
}

pub open spec fn certificate_error_prefix() -> Seq<char> {
    "Error occurred from reading certificates: "@
}

pub open spec fn server_config_error_prefix() -> Seq<char> {
    "Error occurred from reasing server config: "@
}

impl NotaryServerError {
    /// The human-readable text of the error.
    pub open spec fn text(&self) -> Seq<char> {
        match self {
            NotaryServerError::CertificateError(m) => certificate_error_prefix() + m@,
            NotaryServerError::ServerConfigError(m) => server_config_error_prefix() + m@,
        }
    }

    pub fn message(&self) -> (r: String)
        ensures
            r@ == self.text(),
    {
        match self {
            NotaryServerError::CertificateError(m) => {
                let mut s = "Error occurred from reading certificates: ".to_string();
                s.append(m.as_str());
                s
            },
            NotaryServerError::ServerConfigError(m) => {
                let mut s = "Error occurred from reasing server config: ".to_string();
                s.append(m.as_str());
                s
            },
        }
    }
}

#[verifier::external_type_specification]
#[verifier::external_body]
pub struct ExIoError(std::io::Error);

/// Relies on `std::io::Error::other`: an error of kind `Other` whose message
/// is the given text.
#[verifier::external_body]
fn other_io_error(message: String) -> std::io::Error {
    std::io::Error::other(message)
}

/// An I/O error of kind `Other` carrying `err` as its message, for failures
/// to open the certificate material.
pub fn error(err: String) -> std::io::Error {
    other_io_error(err)
}

} // verus!

use vstd::prelude::*;
use vstd::string::*;
use crate::backend::{ca_pem_accepted, key_pem_accepted, ca_params_from_pem, certificate_pem, key_pair_from_pem, key_pair_pem, self_signed};
use crate::model::CertificateView;

verus! {

/// A certificate together with the key pair it was issued for.
///
/// On disk a pair is two files under one prefix `P`: `P.pem` holds the
/// certificate and `P.key` the PKCS#8 private key, both PEM-encoded.
pub struct CertificateKeyPair {
    certificate: rcgen::Certificate,
    key_pair: rcgen::KeyPair,
    issued_from: Ghost<Option<CertificateView>>,
}

/// How a process that failed should exit.
#[derive(Clone, Copy, Debug, PartialEq, Eq, Structural)]
pub enum ExitStatus {
    /// A file could not be read or written.
    IoError,
    /// Input data, such as a stored certificate or key, was malformed.
    DataError,
    /// Issuing the certificate failed.
    SoftwareError,
}

/// A failure to load a stored pair, with the file it concerns.
#[derive(Debug)]
pub struct LoadError {
    pub file: String,
    pub kind: ErrorKind,
}

#[derive(Debug)]
pub enum ErrorKind {
    /// The file could not be read.
    IO(std::io::Error),
    /// The file's content is not a usable key or CA certificate.
    Certificate(rcgen::Error),
}

impl LoadError {
    pub fn new(file: String, kind: ErrorKind) -> (r: Self)
        ensures
            r.file == file,
            r.kind == kind,
    {
        Self { file, kind }
    }

    /// The exit status for this failure: an I/O error for an unreadable
    /// file, a data error for malformed content.
    pub fn exit_status(&self) -> (r: ExitStatus)
        ensures
            r == (if self.kind is IO { ExitStatus::IoError } else { ExitStatus::DataError }),
    {
        match self.kind {
            ErrorKind::IO(_) => ExitStatus::IoError,
            ErrorKind::Certificate(_) => ExitStatus::DataError,
        }
    }
}

impl CertificateKeyPair {
    /// What the issuer stated in this certificate, when it was issued by this
    /// library in this process; `None` for a pair built or loaded otherwise.
    pub closed spec fn issued_from(&self) -> Option<CertificateView> {
        self.issued_from@
    }

    /// The certificate this pair holds.
    pub closed spec fn spec_certificate(&self) -> rcgen::Certificate {
        self.certificate
    }

    /// The key pair this pair holds.
    pub closed spec fn spec_key_pair(&self) -> rcgen::KeyPair {
        self.key_pair
    }

    pub fn new(certificate: rcgen::Certificate, key_pair: rcgen::KeyPair) -> (r: CertificateKeyPair)
        ensures
            r.spec_certificate() == certificate,
            r.spec_key_pair() == key_pair,
            r.issued_from() is None,
    {
        Self { certificate, key_pair, issued_from: Ghost(None) }
    }

    pub(crate) fn issued(
        certificate: rcgen::Certificate,
        key_pair: rcgen::KeyPair,
        Ghost(description): Ghost<CertificateView>,
    ) -> (r: CertificateKeyPair)
        ensures
            r.spec_certificate() == certificate,
            r.spec_key_pair() == key_pair,
            r.issued_from() == Some(description),
    {
        Self { certificate, key_pair, issued_from: Ghost(Some(description)) }
    }

    pub fn certificate(&self) -> (r: &rcgen::Certificate)
        ensures
            *r == self.spec_certificate(),
    {
        &self.certificate
    }

    pub fn key_pair(&self) -> (r: &rcgen::KeyPair)
        ensures
            *r == self.spec_key_pair(),
    {
        &self.key_pair
    }

    /// The content of the `.pem` file: the certificate in PEM form.
    pub fn certificate_pem(&self) -> String {
        certificate_pem(&self.certificate)
    }

    /// The content of the `.key` file: the private key in PEM form; `None`
    /// when the key is held remotely and cannot be serialized.
    pub fn key_pem(&self) -> Option<String> {
        key_pair_pem(&self.key_pair)
    }
}

/// The certificate file of the pair stored under `prefix`.
pub fn certificate_path(prefix: &str) -> (r: String)
    ensures
        r@ == prefix@ + ".pem"@,
{
    String::from_str(prefix).concat(".pem")
}

/// The private-key file of the pair stored under `prefix`.
pub fn key_path(prefix: &str) -> (r: String)
    ensures
        r@ == prefix@ + ".key"@,
{
    String::from_str(prefix).concat(".key")
}

/// First step of loading a stored CA: given what reading the key file at
/// `key_path` gave, parses the private key. A failed read is reported as an
/// I/O error on that file, a malformed key as a certificate error on it.
pub fn load_key(key_path: String, read: Result<String, std::io::Error>) -> (r: Result<
    rcgen::KeyPair,
    LoadError,
>)
    ensures
        read matches Err(e) ==> r == Err::<rcgen::KeyPair, LoadError>(
            LoadError { file: key_path, kind: ErrorKind::IO(e) },
        ),
        read is Ok ==> (r matches Err(err) ==> err.file == key_path && err.kind is Certificate),
        read matches Ok(s) ==> (r is Ok <==> key_pem_accepted(s@)),
{
    let pem = match read {
        Ok(s) => s,
        Err(e) => return Err(LoadError::new(key_path, ErrorKind::IO(e))),
    };
    match key_pair_from_pem(pem.as_str()) {
        Ok(k) => Ok(k),
        Err(e) => Err(LoadError::new(key_path, ErrorKind::Certificate(e))),
    }
}

/// Second step of loading a stored CA: given its key and what reading the
/// certificate file at `cert_path` gave, parses the CA's parameters and
/// restates them as a certificate self-signed with that key, so that the
/// pair can sign further certificates. Every failure names `cert_path`.
/// Text that rcgen rejects gives an error; whether the final self-signing
/// succeeds depends on the opaque key and is not stated.
pub fn load_ca(
    key: rcgen::KeyPair,
    cert_path: String,
    read: Result<String, std::io::Error>,
) -> (r: Result<CertificateKeyPair, LoadError>)
    ensures
        read matches Err(e) ==> r == Err::<CertificateKeyPair, LoadError>(
            LoadError { file: cert_path, kind: ErrorKind::IO(e) },
        ),
        read is Ok ==> (r matches Err(err) ==> err.file == cert_path && err.kind is Certificate),
        read matches Ok(s) && !ca_pem_accepted(s@) ==> r is Err,
        r is Ok ==> (read matches Ok(s) && ca_pem_accepted(s@)),
        r matches Ok(p) ==> p.spec_key_pair() == key && p.issued_from() is None,
{
    let pem = match read {
        Ok(s) => s,
        Err(e) => return Err(LoadError::new(cert_path, ErrorKind::IO(e))),
    };
    let params = match ca_params_from_pem(pem.as_str()) {
        Ok(p) => p,
        Err(e) => return Err(LoadError::new(cert_path, ErrorKind::Certificate(e))),
    };
    match self_signed(params, &key) {
        Ok(c) => Ok(CertificateKeyPair::new(c, key)),
        Err(e) => Err(LoadError::new(cert_path, ErrorKind::Certificate(e))),
    }
}

} // verus!

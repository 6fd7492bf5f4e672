//! The boundary to `rcgen`, `rsa` and `chrono`: the outside types this
//! library carries and one wrapper per outside call.
use vstd::prelude::*;
use chrono::Datelike;
use rsa::pkcs8::EncodePrivateKey;
use rsa::traits::PublicKeyParts;
use crate::dns::all_ascii;
use crate::model::{CaConstraint, KeyUsage};
use crate::validity::{day_in_range, is_certificate_date, CivilDate};

verus! {

#[verifier::external_type_specification]
#[verifier::external_body]
pub struct ExCertificate(rcgen::Certificate);

#[verifier::external_type_specification]
#[verifier::external_body]
pub struct ExKeyPair(rcgen::KeyPair);

#[verifier::external_type_specification]
#[verifier::external_body]
pub struct ExRcgenError(rcgen::Error);

#[verifier::external_type_specification]
#[verifier::external_body]
pub struct ExCertificateParams(rcgen::CertificateParams);

#[verifier::external_type_specification]
#[verifier::external_body]
pub struct ExDistinguishedName(rcgen::DistinguishedName);

#[verifier::external_type_specification]
#[verifier::external_body]
pub struct ExIsCa(rcgen::IsCa);

#[verifier::external_type_specification]
#[verifier::external_body]
pub struct ExKeyUsagePurpose(rcgen::KeyUsagePurpose);

#[verifier::external_type_specification]
#[verifier::external_body]
pub struct ExSanType(rcgen::SanType);

#[verifier::external_type_specification]
#[verifier::external_body]
pub struct ExRsaPrivateKey(rsa::RsaPrivateKey);

#[verifier::external_type_specification]
#[verifier::external_body]
pub struct ExRsaError(rsa::Error);

#[verifier::external_type_specification]
#[verifier::external_body]
pub struct ExIoError(std::io::Error);

/// The calendar date of a day number, as chrono computes it.
pub uninterp spec fn civil_date_of(day: int) -> (int, int, int);

/// Whether rcgen's `KeyPair::from_pem` accepts this text as a private key.
pub uninterp spec fn key_pem_accepted(pem: Seq<char>) -> bool;

/// Whether rcgen's `CertificateParams::from_ca_cert_pem` accepts this text as
/// a CA certificate.
pub uninterp spec fn ca_pem_accepted(pem: Seq<char>) -> bool;

/// Relies on chrono's `Utc::now` and `timestamp`: the current time in
/// seconds since the Unix epoch. Nothing is promised of its value.
#[verifier::external_body]
pub(crate) fn now_secs() -> (r: i64) {
    chrono::Utc::now().timestamp()
}

/// Relies on chrono's `NaiveDate::from_epoch_days` and its `Datelike`
/// accessors: the Gregorian date of a day counted from 1970-01-01. Every
/// day number of the range that certificates use is a date chrono holds,
/// and what comes back is a real date of years 1970 to 9999.
#[verifier::external_body]
pub(crate) fn civil_date(day: i64) -> (r: CivilDate)
    requires
        day_in_range(day as int),
    ensures
        (r.year as int, r.month as int, r.day as int) == civil_date_of(day as int),
        is_certificate_date(r),
{
    let d = chrono::NaiveDate::from_epoch_days(day as i32).unwrap();
    CivilDate { year: d.year(), month: d.month() as u8, day: d.day() as u8 }
}

/// Relies on rcgen's `DistinguishedName::new` and `push`: a subject of an
/// organization name and a common name.
#[verifier::external_body]
pub(crate) fn distinguished_name(on: &String, cn: &String) -> (r: rcgen::DistinguishedName) {
    let mut dn = rcgen::DistinguishedName::new();
    dn.push(rcgen::DnType::OrganizationName, on.clone());
    dn.push(rcgen::DnType::CommonName, cn.clone());
    dn
}

/// Names the rcgen basic-constraints value of each `CaConstraint`.
#[verifier::external_body]
pub(crate) fn basic_constraints(c: CaConstraint) -> (r: rcgen::IsCa) {
    match c {
        CaConstraint::Unconstrained => rcgen::IsCa::Ca(rcgen::BasicConstraints::Unconstrained),
        CaConstraint::NotCa => rcgen::IsCa::NoCa,
    }
}

/// Names the rcgen key-usage value of each `KeyUsage`.
#[verifier::external_body]
pub(crate) fn key_usage_purpose(u: KeyUsage) -> (r: rcgen::KeyUsagePurpose) {
    match u {
        KeyUsage::CertificateSigning => rcgen::KeyUsagePurpose::KeyCertSign,
        KeyUsage::CrlSigning => rcgen::KeyUsagePurpose::CrlSign,
        KeyUsage::KeyEncipherment => rcgen::KeyUsagePurpose::KeyEncipherment,
        KeyUsage::DigitalSignature => rcgen::KeyUsagePurpose::DigitalSignature,
        KeyUsage::ContentCommitment => rcgen::KeyUsagePurpose::ContentCommitment,
    }
}

/// Relies on rcgen's `Ia5String::try_from(String)`, which accepts exactly
/// the ASCII strings, to make a DNS-name entry.
#[verifier::external_body]
pub(crate) fn dns_san(name: String) -> (r: Result<rcgen::SanType, rcgen::Error>)
    ensures
        r is Ok <==> all_ascii(name@),
{
    rcgen::Ia5String::try_from(name).map(rcgen::SanType::DnsName)
}

/// Relies on rcgen's `CertificateParams::default` and `date_time_ymd`: the
/// parameters of a certificate with these fields, dated at midnight UTC.
/// `date_time_ymd` panics on a date that is not real, hence `requires`.
#[verifier::external_body]
pub(crate) fn certificate_params(
    is_ca: rcgen::IsCa,
    subject: rcgen::DistinguishedName,
    not_before: CivilDate,
    not_after: CivilDate,
    key_usages: Vec<rcgen::KeyUsagePurpose>,
    sans: Vec<rcgen::SanType>,
) -> (r: rcgen::CertificateParams)
    requires
        is_certificate_date(not_before),
        is_certificate_date(not_after),
{
    let mut p = rcgen::CertificateParams::default();
    p.is_ca = is_ca;
    p.distinguished_name = subject;
    p.not_before = rcgen::date_time_ymd(not_before.year, not_before.month, not_before.day);
    p.not_after = rcgen::date_time_ymd(not_after.year, not_after.month, not_after.day);
    p.key_usages = key_usages;
    p.subject_alt_names = sans;
    p
}

/// Relies on rcgen's `CertificateParams::self_signed`: signs the parameters
/// with `key`, issuer and subject being the same.
#[verifier::external_body]
pub(crate) fn self_signed(params: rcgen::CertificateParams, key: &rcgen::KeyPair) -> (r: Result<
    rcgen::Certificate,
    rcgen::Error,
>) {
    params.self_signed(key)
}

/// Relies on rcgen's `CertificateParams::signed_by`: certifies `key`'s public
/// key under the issuer's subject, signed with `issuer_key`.
#[verifier::external_body]
pub(crate) fn signed_by(
    params: rcgen::CertificateParams,
    key: &rcgen::KeyPair,
    issuer: &rcgen::Certificate,
    issuer_key: &rcgen::KeyPair,
) -> (r: Result<rcgen::Certificate, rcgen::Error>) {
    params.signed_by(key, issuer, issuer_key)
}

/// Relies on rsa's `RsaPrivateKey::new` with the operating system's random
/// source, and on `PublicKeyParts::n` and `BigUint::bits`: a fresh private
/// key and the size of its modulus, which key generation makes exactly
/// `bits` long.
#[verifier::external_body]
pub(crate) fn new_rsa_key(bits: usize) -> (r: Result<(rsa::RsaPrivateKey, usize), rsa::Error>)
    requires
        bits >= 512,
    ensures
        r matches Ok((_, n)) ==> n == bits,
{
    let key = rsa::RsaPrivateKey::new(&mut rand::rngs::OsRng, bits)?;
    let n = key.n().bits();
    Ok((key, n))
}

/// Relies on rsa's `EncodePrivateKey::to_pkcs8_der`: the PKCS#8 DER encoding
/// of the key.
#[verifier::external_body]
pub(crate) fn pkcs8_der(key: &rsa::RsaPrivateKey) -> (r: Result<Vec<u8>, rsa::Error>) {
    Ok(key.to_pkcs8_der()?.as_bytes().to_vec())
}

/// Relies on rcgen's `KeyPair::try_from(Vec<u8>)`: the key pair of a PKCS#8
/// DER private key.
#[verifier::external_body]
pub(crate) fn key_pair_from_der(der: Vec<u8>) -> (r: Result<rcgen::KeyPair, rcgen::Error>) {
    rcgen::KeyPair::try_from(der)
}

/// Relies on rcgen's `KeyPair::from_pem`: the key pair of a PEM private key;
/// whether the text is accepted depends on the text alone.
#[verifier::external_body]
pub(crate) fn key_pair_from_pem(pem: &str) -> (r: Result<rcgen::KeyPair, rcgen::Error>)
    ensures
        r is Ok <==> key_pem_accepted(pem@),
{
    rcgen::KeyPair::from_pem(pem)
}

/// Relies on rcgen's `CertificateParams::from_ca_cert_pem`: the parameters
/// that describe a PEM CA certificate; whether the text is accepted depends
/// on the text alone.
#[verifier::external_body]
pub(crate) fn ca_params_from_pem(pem: &str) -> (r: Result<rcgen::CertificateParams, rcgen::Error>)
    ensures
        r is Ok <==> ca_pem_accepted(pem@),
{
    rcgen::CertificateParams::from_ca_cert_pem(pem)
}

/// Relies on rcgen's `Certificate::pem`: the certificate in PEM form.
#[verifier::external_body]
pub(crate) fn certificate_pem(c: &rcgen::Certificate) -> (r: String) {
    c.pem()
}

/// Relies on rcgen's `KeyPair::as_remote` and `KeyPair::serialize_pem`: the
/// private key in PKCS#8 PEM form; `None` for a remote key pair, whose
/// private key rcgen cannot serialize (it would panic).
#[verifier::external_body]
pub(crate) fn key_pair_pem(k: &rcgen::KeyPair) -> (r: Option<String>) {
    match k.as_remote() {
        Some(_) => None,
        None => Some(k.serialize_pem()),
    }
}

} // verus!

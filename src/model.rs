use vstd::prelude::*;
use crate::backend::{
    basic_constraints, certificate_params, civil_date, distinguished_name, dns_san,
    key_usage_purpose,
};
use crate::dns::{is_dns_name, lemma_dns_name_is_ascii};
use crate::validity::{day_in_range, Validity};

verus! {

/// A key usage a certificate may carry.
#[derive(Clone, Copy, Debug, PartialEq, Eq, Structural)]
pub enum KeyUsage {
    CertificateSigning,
    CrlSigning,
    KeyEncipherment,
    DigitalSignature,
    ContentCommitment,
}

/// The basic-constraints extension of a certificate.
#[derive(Clone, Copy, Debug, PartialEq, Eq, Structural)]
pub enum CaConstraint {
    /// An end-entity certificate: not a CA.
    NotCa,
    /// A CA with no path-length limit.
    Unconstrained,
}

/// What a certificate states, as plain values: the basic constraints, the
/// subject, the validity window as day numbers, the key usages and the DNS
/// names.
#[derive(Debug)]
pub struct CertificateModel {
    pub constraint: CaConstraint,
    pub organization_name: String,
    pub common_name: String,
    pub validity: Validity,
    pub key_usages: Vec<KeyUsage>,
    pub subject_alt_names: Vec<String>,
}

/// Why a certificate could not be issued.
#[derive(Debug)]
pub enum IssueError {
    /// The validity window falls outside the dates a certificate can carry.
    ValidityOutOfRange,
    /// The subject alternative name at this index is not a DNS name.
    InvalidSubjectAltName(usize),
    /// No key pair could be generated for the certificate.
    KeyGeneration(crate::kp::KeyGenerationError),
    /// rcgen could not encode or sign the certificate.
    Certificate(rcgen::Error),
}

impl IssueError {
    /// The exit status for this failure: issuing failed, whatever the cause.
    pub fn exit_status(&self) -> (r: crate::certificate_key_pair::ExitStatus)
        ensures
            r == crate::certificate_key_pair::ExitStatus::SoftwareError,
    {
        crate::certificate_key_pair::ExitStatus::SoftwareError
    }
}

/// The mathematical content of a `CertificateModel`.
pub struct CertificateView {
    pub constraint: CaConstraint,
    pub organization_name: Seq<char>,
    pub common_name: Seq<char>,
    pub not_before_day: int,
    pub not_after_day: int,
    pub key_usages: Seq<KeyUsage>,
    pub subject_alt_names: Seq<Seq<char>>,
}

pub open spec fn names_view(names: Seq<String>) -> Seq<Seq<char>> {
    names.map_values(|s: String| s@)
}

/// Every entry is a syntactically valid DNS name.
pub open spec fn all_dns_names(names: Seq<Seq<char>>) -> bool {
    forall|i: int| 0 <= i < names.len() ==> is_dns_name(#[trigger] names[i])
}

/// The key usages of a root certificate.
pub open spec fn ca_key_usages() -> Seq<KeyUsage> {
    seq![KeyUsage::CertificateSigning, KeyUsage::CrlSigning]
}

/// The key usages of a leaf certificate.
pub open spec fn leaf_key_usages() -> Seq<KeyUsage> {
    seq![KeyUsage::KeyEncipherment, KeyUsage::DigitalSignature, KeyUsage::ContentCommitment]
}

impl View for CertificateModel {
    type V = CertificateView;

    open spec fn view(&self) -> CertificateView {
        CertificateView {
            constraint: self.constraint,
            organization_name: self.organization_name@,
            common_name: self.common_name@,
            not_before_day: self.validity.not_before_day as int,
            not_after_day: self.validity.not_after_day as int,
            key_usages: self.key_usages@,
            subject_alt_names: names_view(self.subject_alt_names@),
        }
    }
}

impl CertificateModel {
    /// Both dates can be written in a certificate and every alternative
    /// name is a DNS name.
    pub open spec fn wf(&self) -> bool {
        &&& day_in_range(self.validity.not_before_day as int)
        &&& day_in_range(self.validity.not_after_day as int)
        &&& all_dns_names(names_view(self.subject_alt_names@))
    }

    /// The rcgen parameters for this model. That they carry the same
    /// constraints, subject, dates, key usages and DNS names rests on the
    /// bodies of the conversion wrappers, which Verus takes on trust: rcgen's
    /// parameters are opaque here, so no `ensures` can state it.
    pub fn to_params(&self) -> (r: rcgen::CertificateParams)
        requires
            self.wf(),
    {
        let mut usages: Vec<rcgen::KeyUsagePurpose> = Vec::new();
        let mut i: usize = 0;
        while i < self.key_usages.len()
            invariant
                i <= self.key_usages.len(),
            decreases self.key_usages.len() - i,
        {
            usages.push(key_usage_purpose(self.key_usages[i]));
            i = i + 1;
        }
        let mut sans: Vec<rcgen::SanType> = Vec::new();
        let mut j: usize = 0;
        while j < self.subject_alt_names.len()
            invariant
                self.wf(),
                j <= self.subject_alt_names.len(),
            decreases self.subject_alt_names.len() - j,
        {
            let name = self.subject_alt_names[j].clone();
            proof {
                assert(names_view(self.subject_alt_names@)[j as int] == self.subject_alt_names@[j as int]@);
                lemma_dns_name_is_ascii(name@);
            }
            match dns_san(name) {
                Ok(san) => sans.push(san),
                Err(_) => {
                    assert(false);
                },
            }
            j = j + 1;
        }
        let subject = distinguished_name(&self.organization_name, &self.common_name);
        certificate_params(
            basic_constraints(self.constraint),
            subject,
            civil_date(self.validity.not_before_day),
            civil_date(self.validity.not_after_day),
            usages,
            sans,
        )
    }
}

} // verus!

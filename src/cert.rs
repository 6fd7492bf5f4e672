use vstd::prelude::*;
use crate::backend::{now_secs, signed_by};
use crate::certificate_key_pair::CertificateKeyPair;
use crate::dns::{is_dns_name, is_valid_dns_name};
use crate::kp;
use crate::model::{
    all_dns_names, leaf_key_usages, CaConstraint, names_view, CertificateModel, CertificateView, IssueError,
    KeyUsage,
};
use crate::validity::{day_of, validity_window, window_in_range};

verus! {

/// What a leaf certificate is issued from: its lifetime in seconds, its
/// organization and common names, the CA that signs it and its DNS names.
pub struct CertParameters {
    pub ttl: i64,
    pub on: String,
    pub cn: String,
    pub ca: CertificateKeyPair,
    pub sans: Vec<String>,
}

/// What a leaf issued at `now` with lifetime `ttl` states: it is no CA, its
/// subject is `on`/`cn` whatever the CA's is, its window is cut at days as
/// a root's is, it may encipher keys, sign and commit to content, and its
/// alternative names are `sans` in order, duplicates kept.
pub open spec fn leaf_view(
    on: Seq<char>,
    cn: Seq<char>,
    sans: Seq<Seq<char>>,
    now: int,
    ttl: int,
) -> CertificateView {
    CertificateView {
        constraint: CaConstraint::NotCa,
        organization_name: on,
        common_name: cn,
        not_before_day: day_of(now),
        not_after_day: day_of(now + ttl),
        key_usages: leaf_key_usages(),
        subject_alt_names: sans,
    }
}

/// `i` is the index of the first entry that is not a DNS name.
pub open spec fn first_invalid(names: Seq<Seq<char>>, i: int) -> bool {
    &&& 0 <= i < names.len()
    &&& !is_dns_name(names[i])
    &&& forall|j: int| 0 <= j < i ==> is_dns_name(#[trigger] names[j])
}

/// Every leaf certificate is no CA and carries exactly the leaf key usages,
/// and its subject is the one asked for, whatever the signing CA's is.
pub proof fn lemma_leaf_certificate(
    on: Seq<char>,
    cn: Seq<char>,
    sans: Seq<Seq<char>>,
    now: int,
    ttl: int,
)
    ensures
        ({
            let v = leaf_view(on, cn, sans, now, ttl);
            &&& v.constraint == CaConstraint::NotCa
            &&& v.key_usages == seq![
                KeyUsage::KeyEncipherment,
                KeyUsage::DigitalSignature,
                KeyUsage::ContentCommitment,
            ]
            &&& v.organization_name == on
            &&& v.common_name == cn
        }),
{
}

/// Finds the first entry of `names` that is not a DNS name.
pub fn find_invalid_name(names: &Vec<String>) -> (r: Option<usize>)
    ensures
        r is None <==> all_dns_names(names_view(names@)),
        r matches Some(i) ==> first_invalid(names_view(names@), i as int),
{
    let mut i: usize = 0;
    while i < names.len()
        invariant
            i <= names.len(),
            forall|j: int| 0 <= j < i ==> is_dns_name(#[trigger] names_view(names@)[j]),
        decreases names.len() - i,
    {
        assert(names_view(names@)[i as int] == names@[i as int]@);
        if !is_valid_dns_name(names[i].as_str()) {
            return Some(i);
        }
        i = i + 1;
    }
    None
}

/// The model of the leaf certificate issued at `now_secs`. The window is
/// checked first, then the names; no name is dropped or merged.
pub fn leaf_model(ttl: i64, on: String, cn: String, sans: Vec<String>, now_secs: i64) -> (r: Result<
    CertificateModel,
    IssueError,
>)
    ensures
        r matches Err(IssueError::ValidityOutOfRange) <==> !window_in_range(
            now_secs as int,
            ttl as int,
        ),
        r matches Err(IssueError::InvalidSubjectAltName(_)) <==> window_in_range(
            now_secs as int,
            ttl as int,
        ) && !all_dns_names(names_view(sans@)),
        r matches Err(IssueError::InvalidSubjectAltName(i)) ==> first_invalid(
            names_view(sans@),
            i as int,
        ),
        r is Ok <==> window_in_range(now_secs as int, ttl as int) && all_dns_names(
            names_view(sans@),
        ),
        r matches Ok(m) ==> m.wf() && m@ == leaf_view(
            on@,
            cn@,
            names_view(sans@),
            now_secs as int,
            ttl as int,
        ),
{
    let validity = match validity_window(now_secs, ttl) {
        Some(v) => v,
        None => return Err(IssueError::ValidityOutOfRange),
    };
    if let Some(i) = find_invalid_name(&sans) {
        return Err(IssueError::InvalidSubjectAltName(i));
    }
    let key_usages = vec![
        KeyUsage::KeyEncipherment,
        KeyUsage::DigitalSignature,
        KeyUsage::ContentCommitment,
    ];
    let m = CertificateModel {
        constraint: CaConstraint::NotCa,
        organization_name: on,
        common_name: cn,
        validity,
        key_usages,
        subject_alt_names: sans,
    };
    assert(m@.key_usages =~= leaf_key_usages());
    Ok(m)
}

/// Issues a leaf certificate at the time `now_secs`, with a fresh key pair,
/// signed by `params.ca`: its issuer is the CA's subject.
pub fn generate_at(params: CertParameters, now_secs: i64) -> (r: Result<
    CertificateKeyPair,
    IssueError,
>)
    ensures
        r matches Err(IssueError::ValidityOutOfRange) <==> !window_in_range(
            now_secs as int,
            params.ttl as int,
        ),
        r matches Err(IssueError::InvalidSubjectAltName(_)) <==> window_in_range(
            now_secs as int,
            params.ttl as int,
        ) && !all_dns_names(names_view(params.sans@)),
        r matches Err(IssueError::InvalidSubjectAltName(i)) ==> first_invalid(
            names_view(params.sans@),
            i as int,
        ),
        r matches Ok(p) ==> p.issued_from() == Some(
            leaf_view(
                params.on@,
                params.cn@,
                names_view(params.sans@),
                now_secs as int,
                params.ttl as int,
            ),
        ),
{
    let CertParameters { ttl, on, cn, ca, sans } = params;
    let model = match leaf_model(ttl, on, cn, sans, now_secs) {
        Ok(m) => m,
        Err(e) => return Err(e),
    };
    let key = match kp::generate() {
        Ok((k, _)) => k,
        Err(e) => return Err(IssueError::KeyGeneration(e)),
    };
    match signed_by(model.to_params(), &key, ca.certificate(), ca.key_pair()) {
        Ok(c) => Ok(CertificateKeyPair::issued(c, key, Ghost(model@))),
        Err(e) => Err(IssueError::Certificate(e)),
    }
}

/// Issues a leaf certificate now. Whatever the clock read, the result is the
/// one `generate_at` gives for that reading.
pub fn generate(params: CertParameters) -> (r: Result<CertificateKeyPair, IssueError>)
    ensures
        r matches Err(IssueError::InvalidSubjectAltName(i)) ==> first_invalid(
            names_view(params.sans@),
            i as int,
        ),
        r matches Ok(p) ==> all_dns_names(names_view(params.sans@)) && exists|now: int|
            window_in_range(now, params.ttl as int) && p.issued_from() == Some(
                #[trigger] leaf_view(
                    params.on@,
                    params.cn@,
                    names_view(params.sans@),
                    now,
                    params.ttl as int,
                ),
            ),
{
    let now = now_secs();
    generate_at(params, now)
}

} // verus!

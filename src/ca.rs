use vstd::prelude::*;
use crate::backend::{now_secs, self_signed};
use crate::certificate_key_pair::CertificateKeyPair;
use crate::kp;
use crate::model::{ca_key_usages, CaConstraint, CertificateModel, CertificateView, IssueError, KeyUsage};
use crate::validity::{day_of, lemma_window_length, validity_window, window_in_range};

verus! {

/// What a root certificate is issued from: its lifetime in seconds, its
/// organization name and its common name.
pub struct CaParameters {
    pub ttl: i64,
    pub on: String,
    pub cn: String,
}

/// What a root issued at `now` with lifetime `ttl` states: it is a CA with
/// no path-length limit, its
/// subject is `on`/`cn`, it runs from the day of `now` to the day of
/// `now + ttl`, it may sign certificates and CRLs, and it has no alternative
/// names.
pub open spec fn ca_view(on: Seq<char>, cn: Seq<char>, now: int, ttl: int) -> CertificateView {
    CertificateView {
        constraint: CaConstraint::Unconstrained,
        organization_name: on,
        common_name: cn,
        not_before_day: day_of(now),
        not_after_day: day_of(now + ttl),
        key_usages: ca_key_usages(),
        subject_alt_names: seq![],
    }
}

/// Every root certificate is a CA without a path-length limit that may sign certificates and CRLs, and
/// its validity window lasts the requested lifetime rounded to whole days:
/// exactly `ttl` days for a whole number of days, otherwise the days rounded
/// down or one more, as the window is cut at midnights.
pub proof fn lemma_ca_certificate(on: Seq<char>, cn: Seq<char>, now: int, ttl: int)
    requires
        ttl >= 0,
    ensures
        ({
            let v = ca_view(on, cn, now, ttl);
            let days = v.not_after_day - v.not_before_day;
            &&& v.constraint == CaConstraint::Unconstrained
            &&& v.key_usages == seq![KeyUsage::CertificateSigning, KeyUsage::CrlSigning]
            &&& ttl / 86400 <= days <= ttl / 86400 + 1
            &&& ttl % 86400 == 0 ==> days == ttl / 86400
        }),
{
    lemma_window_length(now, ttl);
}

/// The model of the root certificate issued at `now_secs`; `None` when its
/// window cannot be written as certificate dates.
pub fn ca_model(params: CaParameters, now_secs: i64) -> (r: Option<CertificateModel>)
    ensures
        r is Some <==> window_in_range(now_secs as int, params.ttl as int),
        r matches Some(m) ==> m.wf() && m@ == ca_view(
            params.on@,
            params.cn@,
            now_secs as int,
            params.ttl as int,
        ),
{
    let validity = match validity_window(now_secs, params.ttl) {
        Some(v) => v,
        None => return None,
    };
    let key_usages = vec![KeyUsage::CertificateSigning, KeyUsage::CrlSigning];
    let m = CertificateModel {
        constraint: CaConstraint::Unconstrained,
        organization_name: params.on,
        common_name: params.cn,
        validity,
        key_usages,
        subject_alt_names: Vec::new(),
    };
    assert(m@.key_usages =~= ca_key_usages());
    assert(m@.subject_alt_names =~= seq![]);
    Some(m)
}

/// Issues a self-signed root certificate at the time `now_secs`, with a
/// fresh key pair.
pub fn generate_ca_at(params: CaParameters, now_secs: i64) -> (r: Result<
    CertificateKeyPair,
    IssueError,
>)
    ensures
        r matches Err(IssueError::ValidityOutOfRange) <==> !window_in_range(
            now_secs as int,
            params.ttl as int,
        ),
        !(r matches Err(IssueError::InvalidSubjectAltName(_))),
        r matches Ok(p) ==> p.issued_from() == Some(
            ca_view(params.on@, params.cn@, now_secs as int, params.ttl as int),
        ),
{
    let model = match ca_model(params, now_secs) {
        Some(m) => m,
        None => return Err(IssueError::ValidityOutOfRange),
    };
    let key = match kp::generate() {
        Ok((k, _)) => k,
        Err(e) => return Err(IssueError::KeyGeneration(e)),
    };
    match self_signed(model.to_params(), &key) {
        Ok(c) => Ok(CertificateKeyPair::issued(c, key, Ghost(model@))),
        Err(e) => Err(IssueError::Certificate(e)),
    }
}

/// Issues a self-signed root certificate now. Whatever the clock read, the
/// result is the one `generate_ca_at` gives for that reading.
pub fn generate_ca(params: CaParameters) -> (r: Result<CertificateKeyPair, IssueError>)
    ensures
        !(r matches Err(IssueError::InvalidSubjectAltName(_))),
        r matches Ok(p) ==> exists|now: int|
            window_in_range(now, params.ttl as int) && p.issued_from() == Some(
                #[trigger] ca_view(params.on@, params.cn@, now, params.ttl as int),
            ),
{
    let now = now_secs();
    generate_ca_at(params, now)
}

} // verus!

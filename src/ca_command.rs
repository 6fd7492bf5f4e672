use vstd::prelude::*;
use crate::ca::CaParameters;

verus! {

/// The default lifetime of a root certificate: 365 days, in seconds.
pub const DEFAULT_CA_TTL: i64 = 31536000;

/// The options of the command that issues a root certificate.
pub struct Arguments {
    /// Lifetime of the certificate, in seconds.
    pub ttl: i64,
    /// Organization name of the CA.
    pub on: String,
    /// Common name of the CA.
    pub cn: String,
    /// Prefix of the two output files.
    pub name: String,
}

impl Arguments {
    /// The defaults: 365 days, the local host's name as organization and
    /// common name, and the prefix `ca_cert`.
    pub fn defaults(hostname: String) -> (r: Self)
        ensures
            r.ttl == DEFAULT_CA_TTL,
            r.on@ == hostname@,
            r.cn@ == hostname@,
            r.name@ == "ca_cert"@,
    {
        Arguments { ttl: DEFAULT_CA_TTL, on: hostname.clone(), cn: hostname, name: String::from_str("ca_cert") }
    }

    /// The issuance parameters these options ask for.
    pub fn parameters(&self) -> (r: CaParameters)
        ensures
            r.ttl == self.ttl,
            r.on@ == self.on@,
            r.cn@ == self.cn@,
    {
        CaParameters { ttl: self.ttl, on: self.on.clone(), cn: self.cn.clone() }
    }
}

} // verus!

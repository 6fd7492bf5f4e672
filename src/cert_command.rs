use vstd::prelude::*;
use crate::cert::CertParameters;
use crate::certificate_key_pair::CertificateKeyPair;
use crate::model::names_view;

verus! {

/// The default lifetime of a leaf certificate: 365 days, in seconds.
pub const DEFAULT_CERT_TTL: i64 = 31536000;

/// The options of the command that issues a leaf certificate.
pub struct Arguments {
    /// Lifetime of the certificate, in seconds.
    pub ttl: i64,
    /// Organization name of the certificate.
    pub on: String,
    /// Common name of the certificate.
    pub cn: String,
    /// Prefix of the files of the signing CA.
    pub ca: String,
    /// Prefix of the two output files.
    pub name: String,
    /// Leave `localhost` out of the alternative names.
    pub no_localhost: bool,
    /// Leave the local host's name out of the alternative names.
    pub no_hostname: bool,
    /// Alternative names asked for explicitly.
    pub sans: Vec<String>,
}

/// The alternative names a leaf gets: those asked for, in order, then the
/// host name unless left out, then `localhost` unless left out.
pub open spec fn effective_sans(
    sans: Seq<Seq<char>>,
    hostname: Seq<char>,
    no_hostname: bool,
    no_localhost: bool,
) -> Seq<Seq<char>> {
    sans + (if no_hostname {
        Seq::<Seq<char>>::empty()
    } else {
        seq![hostname]
    }) + (if no_localhost {
        Seq::<Seq<char>>::empty()
    } else {
        seq!["localhost"@]
    })
}

impl Arguments {
    /// The defaults: 365 days, the local host's name as organization and
    /// common name, the CA under `ca_cert`, the output under `cert`, the host
    /// name and `localhost` as alternative names.
    pub fn defaults(hostname: String) -> (r: Self)
        ensures
            r.ttl == DEFAULT_CERT_TTL,
            r.on@ == hostname@,
            r.cn@ == hostname@,
            r.ca@ == "ca_cert"@,
            r.name@ == "cert"@,
            !r.no_localhost,
            !r.no_hostname,
            r.sans@.len() == 0,
    {
        Arguments {
            ttl: DEFAULT_CERT_TTL,
            on: hostname.clone(),
            cn: hostname,
            ca: String::from_str("ca_cert"),
            name: String::from_str("cert"),
            no_localhost: false,
            no_hostname: false,
            sans: Vec::new(),
        }
    }

    /// The alternative names these options ask for on a host named
    /// `hostname`.
    pub fn subject_alt_names(&self, hostname: &str) -> (r: Vec<String>)
        ensures
            names_view(r@) == effective_sans(
                names_view(self.sans@),
                hostname@,
                self.no_hostname,
                self.no_localhost,
            ),
    {
        let mut r: Vec<String> = Vec::new();
        let mut i: usize = 0;
        while i < self.sans.len()
            invariant
                i <= self.sans.len(),
                names_view(r@) =~= names_view(self.sans@).subrange(0, i as int),
            decreases self.sans.len() - i,
        {
            let ghost before = r@;
            let name = self.sans[i].clone();
            r.push(name);
            assert(names_view(r@) =~= names_view(before).push(self.sans@[i as int]@));
            assert(names_view(self.sans@).subrange(0, i + 1) =~= names_view(self.sans@).subrange(
                0,
                i as int,
            ).push(self.sans@[i as int]@));
            i = i + 1;
        }
        assert(names_view(self.sans@).subrange(0, self.sans@.len() as int) =~= names_view(
            self.sans@,
        ));
        let ghost base = names_view(r@);
        if !self.no_hostname {
            r.push(String::from_str(hostname));
        }
        let ghost mid = names_view(r@);
        assert(mid =~= base + (if self.no_hostname {
            Seq::<Seq<char>>::empty()
        } else {
            seq![hostname@]
        }));
        if !self.no_localhost {
            r.push(String::from_str("localhost"));
        }
        assert(names_view(r@) =~= mid + (if self.no_localhost {
            Seq::<Seq<char>>::empty()
        } else {
            seq!["localhost"@]
        }));
        r
    }

    /// The issuance parameters these options ask for, signed by `ca` on a
    /// host named `hostname`.
    pub fn parameters(&self, ca: CertificateKeyPair, hostname: &str) -> (r: CertParameters)
        ensures
            r.ttl == self.ttl,
            r.on@ == self.on@,
            r.cn@ == self.cn@,
            r.ca == ca,
            names_view(r.sans@) == effective_sans(
                names_view(self.sans@),
                hostname@,
                self.no_hostname,
                self.no_localhost,
            ),
    {
        let sans = self.subject_alt_names(hostname);
        CertParameters { ttl: self.ttl, on: self.on.clone(), cn: self.cn.clone(), ca, sans }
    }
}

} // verus!

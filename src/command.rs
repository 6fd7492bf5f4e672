use vstd::prelude::*;

verus! {

/// The two things the tool can be asked to do.
pub enum Command {
    /// Issue a root certificate.
    Ca(crate::ca_command::Arguments),
    /// Issue a leaf certificate signed by a root.
    Cert(crate::cert_command::Arguments),
}

} // verus!

//! Issues development X.509 certificates: a self-signed root and leaves
//! signed by it. The decisions that shape a certificate (validity window,
//! constraints, key usages, names) are made and proved here; encoding and
//! signing are left to `rcgen`, key generation to `rsa`.
mod backend;
pub mod ca;
pub mod ca_command;
pub mod cert_command;
pub mod command;
pub mod cert;
pub mod certificate_key_pair;
pub mod dns;
pub mod kp;
pub mod model;
pub mod validity;

use devcert::ca::CaParameters;
use devcert::ca_command;
use devcert::cert::{find_invalid_name, leaf_model};
use devcert::cert_command;
use devcert::certificate_key_pair::{
    certificate_path, key_path, load_ca, load_key, ErrorKind, ExitStatus, LoadError,
};
use devcert::dns::is_valid_dns_name;
use devcert::model::{CaConstraint, IssueError, KeyUsage};
use devcert::validity::{validity_window, Validity, MAX_DAY, SECONDS_PER_DAY};

fn strings(v: &[&str]) -> Vec<String> {
    v.iter().map(|s| s.to_string()).collect()
}

#[test]
fn window_of_whole_days() {
    let w = validity_window(1_700_000_000, 365 * SECONDS_PER_DAY).unwrap();
    assert_eq!(w, Validity { not_before_day: 19675, not_after_day: 20040 });
    assert_eq!(w.not_after_day - w.not_before_day, 365);
}

#[test]
fn window_drops_sub_day_precision() {
    assert_eq!(validity_window(86399, 1), Some(Validity { not_before_day: 0, not_after_day: 1 }));
    assert_eq!(validity_window(0, 86399), Some(Validity { not_before_day: 0, not_after_day: 0 }));
    let w = validity_window(86000, 86400 + 3600).unwrap();
    assert_eq!(w.not_after_day - w.not_before_day, 2);
}

#[test]
fn window_out_of_range() {
    assert_eq!(validity_window(-1, 10), None);
    assert_eq!(validity_window(0, i64::MAX), None);
    assert_eq!(validity_window(i64::MAX, 1), None);
    assert_eq!(validity_window(0, (MAX_DAY + 1) * SECONDS_PER_DAY), None);
    assert_eq!(
        validity_window(0, MAX_DAY * SECONDS_PER_DAY),
        Some(Validity { not_before_day: 0, not_after_day: MAX_DAY })
    );
    assert_eq!(validity_window(100 * SECONDS_PER_DAY, -200 * SECONDS_PER_DAY), None);
}

#[test]
fn dns_names_accepted() {
    for n in ["localhost", "a.example", "b.example", "xn--bcher-kva.example", "a-b.c0", "A"] {
        assert!(is_valid_dns_name(n), "{n}");
    }
    let label = "a".repeat(63);
    assert!(is_valid_dns_name(&label));
}

#[test]
fn dns_names_rejected() {
    for n in ["", "bad name", "a..b", ".a", "a.", "-a", "a-", "a.-b", "a-.b", "a_b", "*.example", "é.example"] {
        assert!(!is_valid_dns_name(n), "{n}");
    }
    assert!(!is_valid_dns_name(&"a".repeat(64)));
    let long = vec!["abcdefghi"; 26].join(".");
    assert_eq!(long.len(), 259);
    assert!(!is_valid_dns_name(&long));
}

#[test]
fn first_invalid_name_is_found() {
    assert_eq!(find_invalid_name(&strings(&["a.example", "b c", "d e"])), Some(1));
    assert_eq!(find_invalid_name(&strings(&["a.example", "a.example"])), None);
    assert_eq!(find_invalid_name(&vec![]), None);
}

#[test]
fn ca_model_states_a_ca() {
    let params = CaParameters { ttl: 365 * SECONDS_PER_DAY, on: "Org".to_string(), cn: "Root".to_string() };
    let m = devcert::ca::ca_model(params, 1_700_000_000).unwrap();
    assert_eq!(m.constraint, CaConstraint::Unconstrained);
    assert_eq!(m.key_usages, vec![KeyUsage::CertificateSigning, KeyUsage::CrlSigning]);
    assert_eq!(m.organization_name, "Org");
    assert_eq!(m.common_name, "Root");
    assert_eq!(m.validity, Validity { not_before_day: 19675, not_after_day: 20040 });
    assert!(m.subject_alt_names.is_empty());
}

#[test]
fn ca_model_out_of_range() {
    let params = CaParameters { ttl: i64::MAX, on: "Org".to_string(), cn: "Root".to_string() };
    assert!(devcert::ca::ca_model(params, 1_700_000_000).is_none());
}

#[test]
fn leaf_model_states_a_leaf() {
    let sans = strings(&["a.example", "b.example", "a.example"]);
    let m = leaf_model(86400, "Org".to_string(), "leaf".to_string(), sans.clone(), 0).unwrap();
    assert_eq!(m.constraint, CaConstraint::NotCa);
    assert_eq!(
        m.key_usages,
        vec![KeyUsage::KeyEncipherment, KeyUsage::DigitalSignature, KeyUsage::ContentCommitment]
    );
    assert_eq!(m.subject_alt_names, sans);
    assert_eq!(m.validity, Validity { not_before_day: 0, not_after_day: 1 });
}

#[test]
fn leaf_model_rejects_a_name_with_a_space() {
    let sans = strings(&["ok.example", "not valid"]);
    let r = leaf_model(86400, "Org".to_string(), "leaf".to_string(), sans, 0);
    assert!(matches!(r, Err(IssueError::InvalidSubjectAltName(1))));
}

#[test]
fn leaf_model_checks_the_window_first() {
    let sans = strings(&["not valid"]);
    let r = leaf_model(86400, "Org".to_string(), "leaf".to_string(), sans, -5);
    assert!(matches!(r, Err(IssueError::ValidityOutOfRange)));
}

#[test]
fn sans_explicit_only() {
    let mut args = cert_command::Arguments::defaults("myhost".to_string());
    args.sans = strings(&["a.example", "b.example"]);
    args.no_hostname = true;
    args.no_localhost = true;
    assert_eq!(args.subject_alt_names("myhost"), strings(&["a.example", "b.example"]));
}

#[test]
fn sans_by_default() {
    let args = cert_command::Arguments::defaults("myhost".to_string());
    assert_eq!(args.subject_alt_names("myhost"), strings(&["myhost", "localhost"]));
}

#[test]
fn sans_explicit_then_host_then_localhost() {
    let mut args = cert_command::Arguments::defaults("h".to_string());
    args.sans = strings(&["x.example"]);
    assert_eq!(args.subject_alt_names("h"), strings(&["x.example", "h", "localhost"]));
    args.no_hostname = true;
    assert_eq!(args.subject_alt_names("h"), strings(&["x.example", "localhost"]));
}

#[test]
fn command_defaults() {
    let ca = ca_command::Arguments::defaults("box".to_string());
    assert_eq!(ca.ttl, 365 * 24 * 60 * 60);
    assert_eq!((ca.on.as_str(), ca.cn.as_str(), ca.name.as_str()), ("box", "box", "ca_cert"));
    let p = ca.parameters();
    assert_eq!((p.ttl, p.on.as_str(), p.cn.as_str()), (ca.ttl, "box", "box"));
    let cert = cert_command::Arguments::defaults("box".to_string());
    assert_eq!(cert.ttl, 365 * 24 * 60 * 60);
    assert_eq!((cert.ca.as_str(), cert.name.as_str()), ("ca_cert", "cert"));
    assert!(!cert.no_hostname && !cert.no_localhost && cert.sans.is_empty());
}

#[test]
fn file_paths() {
    assert_eq!(certificate_path("ca_cert"), "ca_cert.pem");
    assert_eq!(key_path("ca_cert"), "ca_cert.key");
    assert_eq!(key_path("dir/my.ca"), "dir/my.ca.key");
}

#[test]
fn missing_key_file_is_an_io_error() {
    let read = Err(std::io::Error::new(std::io::ErrorKind::NotFound, "missing"));
    let err = load_key(key_path("ca_cert"), read).unwrap_err();
    assert_eq!(err.file, "ca_cert.key");
    assert!(matches!(err.kind, ErrorKind::IO(_)));
    assert_eq!(err.exit_status(), ExitStatus::IoError);
}

#[test]
fn malformed_key_is_a_certificate_error() {
    let err = load_key("ca_cert.key".to_string(), Ok("not a key".to_string())).unwrap_err();
    assert_eq!(err.file, "ca_cert.key");
    assert!(matches!(err.kind, ErrorKind::Certificate(_)));
    assert_eq!(err.exit_status(), ExitStatus::DataError);
}

#[test]
fn load_error_new_keeps_fields() {
    let e = LoadError::new("x.pem".to_string(), ErrorKind::IO(std::io::Error::new(std::io::ErrorKind::Other, "x")));
    assert_eq!(e.file, "x.pem");
    assert_eq!(e.exit_status(), ExitStatus::IoError);
    assert_eq!(IssueError::ValidityOutOfRange.exit_status(), ExitStatus::SoftwareError);
}

#[test]
fn unreadable_certificate_is_an_io_error() {
    let key = rcgen::KeyPair::generate().unwrap();
    let read = Err(std::io::Error::new(std::io::ErrorKind::NotFound, "missing"));
    let err = load_ca(key, certificate_path("ca_cert"), read).err().unwrap();
    assert_eq!(err.file, "ca_cert.pem");
    assert!(matches!(err.kind, ErrorKind::IO(_)));
}

#[test]
fn malformed_ca_certificate_is_a_certificate_error() {
    let key = rcgen::KeyPair::generate().unwrap();
    let err = load_ca(key, certificate_path("ca_cert"), Ok("not a certificate".to_string())).err().unwrap();
    assert_eq!(err.file, "ca_cert.pem");
    assert!(matches!(err.kind, ErrorKind::Certificate(_)));
    assert_eq!(err.exit_status(), ExitStatus::DataError);
}

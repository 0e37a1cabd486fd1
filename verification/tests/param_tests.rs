use x509_verify_params::IpAddress;
use x509_verify_params::VerifyParamError;
use x509_verify_params::X509CheckFlags;
use x509_verify_params::X509PurposeId;
use x509_verify_params::X509VerifyFlags;
use x509_verify_params::X509VerifyParam;

#[test]
fn fresh_param_is_empty() {
    let mut p = X509VerifyParam::new().unwrap();
    assert!(p.hostflags().is_empty());
    assert!(p.flags().is_empty());
    assert!(p.expected_host().is_none());
    assert!(p.expected_ip().is_none());
    assert!(p.verification_time().is_none());
    assert_eq!(p.depth(), -1);
    assert_eq!(p.auth_level(), -1);
    assert!(p.purpose().is_none());
}

#[test]
fn check_flag_values_match_native_headers() {
    assert_eq!(X509CheckFlags::ALWAYS_CHECK_SUBJECT, 0x1);
    assert_eq!(X509CheckFlags::NO_WILDCARDS, 0x2);
    assert_eq!(X509CheckFlags::NO_PARTIAL_WILDCARDS, 0x4);
    assert_eq!(X509CheckFlags::MULTI_LABEL_WILDCARDS, 0x8);
    assert_eq!(X509CheckFlags::SINGLE_LABEL_SUBDOMAINS, 0x10);
    assert_eq!(X509CheckFlags::NEVER_CHECK_SUBJECT, 0x20);
}

#[test]
fn deprecated_alias_is_bit_identical() {
    assert_eq!(
        X509CheckFlags::FLAG_NO_WILDCARDS,
        X509CheckFlags::NO_WILDCARDS
    );
    assert_eq!(X509CheckFlags::FLAG_NO_WILDCARDS, 0x2);
}

#[test]
fn verify_flag_values_match_native_headers() {
    assert_eq!(X509VerifyFlags::CB_ISSUER_CHECK, 0x0);
    assert_eq!(X509VerifyFlags::USE_CHECK_TIME, 0x2);
    assert_eq!(X509VerifyFlags::CRL_CHECK, 0x4);
    assert_eq!(X509VerifyFlags::CRL_CHECK_ALL, 0x8);
    assert_eq!(X509VerifyFlags::IGNORE_CRITICAL, 0x10);
    assert_eq!(X509VerifyFlags::X509_STRICT, 0x20);
    assert_eq!(X509VerifyFlags::ALLOW_PROXY_CERTS, 0x40);
    assert_eq!(X509VerifyFlags::POLICY_CHECK, 0x80);
    assert_eq!(X509VerifyFlags::EXPLICIT_POLICY, 0x100);
    assert_eq!(X509VerifyFlags::INHIBIT_ANY, 0x200);
    assert_eq!(X509VerifyFlags::INHIBIT_MAP, 0x400);
    assert_eq!(X509VerifyFlags::NOTIFY_POLICY, 0x800);
    assert_eq!(X509VerifyFlags::EXTENDED_CRL_SUPPORT, 0x1000);
    assert_eq!(X509VerifyFlags::USE_DELTAS, 0x2000);
    assert_eq!(X509VerifyFlags::CHECK_SS_SIGNATURE, 0x4000);
    assert_eq!(X509VerifyFlags::TRUSTED_FIRST, 0x8000);
    assert_eq!(X509VerifyFlags::PARTIAL_CHAIN, 0x80000);
    assert_eq!(X509VerifyFlags::NO_ALT_CHAINS, 0x100000);
    assert_eq!(X509VerifyFlags::NO_CHECK_TIME, 0x200000);
}

#[test]
fn suite_b_values_stay_swapped() {
    // The wrapped library applies 0x30000 for the 192-bit level and
    // 0x20000 for the 128-bit level, against the naming pattern; the
    // model preserves the applied values.
    assert_eq!(X509VerifyFlags::SUITEB_128_LOS_ONLY, 0x10000);
    assert_eq!(X509VerifyFlags::SUITEB_192_LOS, 0x30000);
    assert_eq!(X509VerifyFlags::SUITEB_128_LOS, 0x20000);
}

#[test]
fn flag_set_operations() {
    let a = X509VerifyFlags::from_bits(X509VerifyFlags::CRL_CHECK);
    let b = X509VerifyFlags::from_bits(X509VerifyFlags::CRL_CHECK_ALL);
    let both = a.union(b);
    assert_eq!(both.bits, 0xc);
    assert!(both.contains(a));
    assert!(both.contains(b));
    assert!(!a.contains(both));
    assert_eq!(both.difference(a).bits, 0x8);
    assert!(X509VerifyFlags::empty().is_empty());
    assert!(!both.is_empty());

    let c = X509CheckFlags::from_bits(X509CheckFlags::NO_WILDCARDS);
    let d = X509CheckFlags::from_bits(X509CheckFlags::MULTI_LABEL_WILDCARDS);
    assert_eq!(c.union(d).bits, 0xa);
    assert_eq!(c.union(d).difference(d).bits, 0x2);
    assert!(c.union(d).contains(c));
    assert!(X509CheckFlags::empty().is_empty());
}

#[test]
fn set_then_clear_disjoint_preserves_prior_and_new() {
    let mut p = X509VerifyParam::new().unwrap();
    let prior = X509VerifyFlags::from_bits(X509VerifyFlags::CRL_CHECK);
    p.set_flags(prior).unwrap();

    let a = X509VerifyFlags::from_bits(
        X509VerifyFlags::POLICY_CHECK | X509VerifyFlags::USE_DELTAS,
    );
    let b = X509VerifyFlags::from_bits(X509VerifyFlags::CRL_CHECK_ALL);
    p.set_flags(a).unwrap();
    p.clear_flags(b).unwrap();

    let now = p.flags();
    assert!(now.contains(a));
    assert!(now.contains(prior));
    assert_eq!(now.bits, 0x2084);
}

#[test]
fn set_then_clear_same_flags_round_trip() {
    let mut p = X509VerifyParam::new().unwrap();
    let prior = X509VerifyFlags::from_bits(X509VerifyFlags::TRUSTED_FIRST);
    p.set_flags(prior).unwrap();

    let f = X509VerifyFlags::from_bits(
        X509VerifyFlags::CRL_CHECK | X509VerifyFlags::CRL_CHECK_ALL,
    );
    p.set_flags(f).unwrap();
    p.clear_flags(f).unwrap();

    let now = p.flags();
    assert_eq!(now.bits & f.bits, 0);
    assert_eq!(now.bits, X509VerifyFlags::TRUSTED_FIRST);
}

#[test]
fn hostflags_are_replaced_not_accumulated() {
    let mut p = X509VerifyParam::new().unwrap();
    p.set_hostflags(X509CheckFlags::from_bits(X509CheckFlags::NO_WILDCARDS));
    p.set_hostflags(X509CheckFlags::from_bits(
        X509CheckFlags::ALWAYS_CHECK_SUBJECT,
    ));
    assert_eq!(p.hostflags().bits, 0x1);
}

#[test]
fn empty_host_clears_the_constraint() {
    let mut p = X509VerifyParam::new().unwrap();
    p.set_host("example.com").unwrap();
    assert_eq!(p.expected_host().unwrap().as_str(), "example.com");
    p.set_host("").unwrap();
    assert!(p.expected_host().is_none());
}

#[test]
fn empty_host_on_fresh_param_stays_clear() {
    let mut p = X509VerifyParam::new().unwrap();
    p.set_host("").unwrap();
    assert!(p.expected_host().is_none());
}

#[test]
fn ipv4_read_back_is_exactly_four_octets() {
    let mut p = X509VerifyParam::new().unwrap();
    p.set_ip(IpAddress::V4([192, 168, 0, 1])).unwrap();
    let back = p.expected_ip().unwrap();
    assert!(back.is_v4());
    assert_eq!(back.len(), 4);
    match back {
        IpAddress::V4(octets) => assert_eq!(octets, [192, 168, 0, 1]),
        IpAddress::V6(_) => panic!("family changed"),
    }
}

#[test]
fn ipv6_read_back_is_exactly_sixteen_octets() {
    let mut p = X509VerifyParam::new().unwrap();
    let addr = [0x20, 0x01, 0x0d, 0xb8, 0, 0, 0, 0, 0, 0, 0, 0, 0, 0, 0, 0x42];
    p.set_ip(IpAddress::V6(addr)).unwrap();
    let back = p.expected_ip().unwrap();
    assert!(!back.is_v4());
    assert_eq!(back.len(), 16);
    match back {
        IpAddress::V6(octets) => assert_eq!(octets, addr),
        IpAddress::V4(_) => panic!("family changed"),
    }
}

#[test]
fn host_and_ip_constraints_are_independent() {
    let mut p = X509VerifyParam::new().unwrap();
    p.set_host("example.com").unwrap();
    p.set_ip(IpAddress::V4([10, 0, 0, 7])).unwrap();
    assert_eq!(p.expected_host().unwrap().as_str(), "example.com");
    assert!(p.expected_ip().is_some());
    p.set_host("other.example").unwrap();
    assert!(p.expected_ip().is_some());
}

#[test]
fn independent_params_share_no_state() {
    let mut a = X509VerifyParam::new().unwrap();
    let mut b = X509VerifyParam::new().unwrap();
    a.set_flags(X509VerifyFlags::from_bits(X509VerifyFlags::CRL_CHECK))
        .unwrap();
    a.set_host("a.example").unwrap();
    a.set_depth(3);
    assert!(b.flags().is_empty());
    assert!(b.expected_host().is_none());
    assert_eq!(b.depth(), -1);
    b.set_depth(9);
    assert_eq!(a.depth(), 3);
}

#[test]
fn zero_and_negative_depth_are_accepted() {
    let mut p = X509VerifyParam::new().unwrap();
    p.set_depth(0);
    assert_eq!(p.depth(), 0);
    p.set_depth(-5);
    assert_eq!(p.depth(), -5);
}

#[test]
fn time_is_recorded_as_given() {
    let mut p = X509VerifyParam::new().unwrap();
    p.set_time(1_234_567_890);
    assert_eq!(p.verification_time(), Some(1_234_567_890));
    p.set_time(-1);
    assert_eq!(p.verification_time(), Some(-1));
}

#[test]
fn auth_level_round_trips() {
    let mut p = X509VerifyParam::new().unwrap();
    p.set_auth_level(2);
    assert_eq!(p.auth_level(), 2);
    p.set_auth_level(-1);
    assert_eq!(p.auth_level(), -1);
}

#[test]
fn recognized_purpose_is_recorded() {
    let mut p = X509VerifyParam::new().unwrap();
    p.set_purpose(X509PurposeId::from_raw(X509PurposeId::SSL_SERVER))
        .unwrap();
    assert_eq!(p.purpose().unwrap().as_raw(), 2);
}

#[test]
fn unrecognized_purpose_is_rejected_without_a_torn_update() {
    let mut p = X509VerifyParam::new().unwrap();
    p.set_purpose(X509PurposeId::from_raw(X509PurposeId::ANY))
        .unwrap();
    let err = p.set_purpose(X509PurposeId::from_raw(0)).unwrap_err();
    assert_eq!(err, VerifyParamError::Operation);
    let err = p.set_purpose(X509PurposeId::from_raw(10)).unwrap_err();
    assert_eq!(err, VerifyParamError::Operation);
    let err = p.set_purpose(X509PurposeId::from_raw(-4)).unwrap_err();
    assert_eq!(err, VerifyParamError::Operation);
    assert_eq!(p.purpose().unwrap().as_raw(), 7);
}

#[test]
fn setters_leave_unrelated_fields_alone() {
    let mut p = X509VerifyParam::new().unwrap();
    p.set_host("example.com").unwrap();
    p.set_ip(IpAddress::V4([8, 8, 8, 8])).unwrap();
    p.set_time(77);
    p.set_depth(5);
    p.set_auth_level(1);
    p.set_hostflags(X509CheckFlags::from_bits(X509CheckFlags::NO_WILDCARDS));
    p.set_flags(X509VerifyFlags::from_bits(X509VerifyFlags::X509_STRICT))
        .unwrap();
    p.set_purpose(X509PurposeId::from_raw(X509PurposeId::SSL_CLIENT))
        .unwrap();

    p.set_depth(2);
    assert_eq!(p.expected_host().unwrap().as_str(), "example.com");
    assert!(p.expected_ip().is_some());
    assert_eq!(p.verification_time(), Some(77));
    assert_eq!(p.auth_level(), 1);
    assert_eq!(p.hostflags().bits, 0x2);
    assert_eq!(p.flags().bits, 0x20);
    assert_eq!(p.purpose().unwrap().as_raw(), 1);
    assert_eq!(p.depth(), 2);
}

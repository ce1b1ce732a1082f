use std::cmp::Ordering;
use rpc_types::api_version::RpcApiVersion;
use rpc_types::response::RpcResponseContext;

#[test]
fn parse_reads_all_parts() {
    let v = RpcApiVersion::parse("1.2.3-alpha.1+build.5").unwrap();
    assert_eq!(v.major(), 1);
    assert_eq!(v.minor(), 2);
    assert_eq!(v.patch(), 3);
    assert_eq!(v.pre(), "alpha.1");
    assert_eq!(v.build(), "build.5");
    assert_eq!(v.to_version_string(), "1.2.3-alpha.1+build.5");
}

#[test]
fn parse_plain_version() {
    let v = RpcApiVersion::parse("2.3.13").unwrap();
    assert_eq!((v.major(), v.minor(), v.patch()), (2, 3, 13));
    assert_eq!(v.pre(), "");
    assert_eq!(v.build(), "");
    assert_eq!(v.to_version_string(), "2.3.13");
}

#[test]
fn parse_refuses_bad_text() {
    assert!(RpcApiVersion::parse("").is_err());
    assert!(RpcApiVersion::parse("1.2").is_err());
    assert!(RpcApiVersion::parse("1.2.x").is_err());
    assert!(RpcApiVersion::parse("01.2.3").is_err());
}

#[test]
fn version_text_with_only_build_label() {
    let v = RpcApiVersion::parse("10.0.7+abc").unwrap();
    assert_eq!(v.to_version_string(), "10.0.7+abc");
}

#[test]
fn node_version_has_no_labels() {
    let v = RpcApiVersion::node_version();
    assert_eq!(v.to_version_string(), "2.3.13");
    assert!(RpcApiVersion::default() == v);
}

#[test]
fn response_context_carries_slot_and_version() {
    let c = RpcResponseContext::new(42);
    assert_eq!(c.slot, 42);
    let v = c.api_version.unwrap();
    assert_eq!(v.to_version_string(), "2.3.13");
}

#[test]
fn printed_version_reads_back() {
    for text in ["1.2.3", "0.0.0", "1.0.0-alpha.1", "1.0.0+build.7", "1.0.0--x.y-z+0.a", "18446744073709551615.1.2"] {
        let v = RpcApiVersion::parse(text).unwrap();
        let printed = v.to_version_string();
        assert_eq!(printed, text);
        assert!(RpcApiVersion::parse(&printed).unwrap() == v);
    }
}

#[test]
fn from_semver_result_keeps_parts_and_error() {
    let v = RpcApiVersion::from_semver_result(Ok((4, 5, 6, "rc.1".to_string(), String::new()))).unwrap();
    assert_eq!(v.to_version_string(), "4.5.6-rc.1");
    let err = "x".parse::<semver::Version>().unwrap_err();
    let message = err.to_string();
    let e = match RpcApiVersion::from_semver_result(Err(err)) {
        Err(e) => e,
        Ok(_) => panic!("an error was expected"),
    };
    assert_eq!(e.source.to_string(), message);
}

#[test]
fn precedence_orders_versions() {
    let p = |t: &str| RpcApiVersion::parse(t).unwrap();
    assert_eq!(p("1.5.0").precedence(&p("1.19.0")), Some(Ordering::Less));
    assert_eq!(p("2.0.0").precedence(&p("1.99.99")), Some(Ordering::Greater));
    assert_eq!(p("1.0.0-alpha.1").precedence(&p("1.0.0")), Some(Ordering::Less));
    assert_eq!(p("1.0.0").precedence(&p("1.0.0-rc.1")), Some(Ordering::Greater));
    assert_eq!(p("1.0.0-pre.8").precedence(&p("1.0.0-pre.12")), Some(Ordering::Less));
    assert_eq!(p("3.1.4").precedence(&p("3.1.4")), Some(Ordering::Equal));
    assert_eq!(RpcApiVersion::node_version().precedence(&p("2.3.13")), Some(Ordering::Equal));
}

#[test]
fn debug_text_matches_semver_debug() {
    assert_eq!(
        RpcApiVersion::parse("1.2.3").unwrap().debug_string(),
        "RpcApiVersion(Version { major: 1, minor: 2, patch: 3 })"
    );
    let v = RpcApiVersion::parse("1.2.3-alpha.1+b.7").unwrap();
    assert_eq!(
        v.debug_string(),
        format!("RpcApiVersion({:?})", semver::Version::parse("1.2.3-alpha.1+b.7").unwrap())
    );
    assert_eq!(
        RpcApiVersion::parse("4.0.0+meta").unwrap().debug_string(),
        "RpcApiVersion(Version { major: 4, minor: 0, patch: 0, build: BuildMetadata(\"meta\") })"
    );
}

#[test]
fn cloned_version_is_equal() {
    let v = RpcApiVersion::parse("7.8.9-rc.2").unwrap();
    let c = v.clone();
    assert!(c == v);
    assert_eq!(c.to_version_string(), "7.8.9-rc.2");
}

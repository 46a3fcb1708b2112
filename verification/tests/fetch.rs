use rustyfiles::utils::fetch::{
    addresses_allowed, fetch_url, guard_parsed, guard_target, is_blocked_ip, GuardDecision,
    IpAddress, ParsedTarget, TargetHost,
};

fn v4(a: u8, b: u8, c: u8, d: u8) -> IpAddress {
    IpAddress::V4([a, b, c, d])
}

fn v6(s: [u16; 8]) -> IpAddress {
    IpAddress::V6(s)
}

#[test]
fn classifies_blocked_addresses() {
    let blocked = [
        ("127.0.0.1", v4(127, 0, 0, 1)),
        ("10.1.2.3", v4(10, 1, 2, 3)),
        ("172.16.0.1", v4(172, 16, 0, 1)),
        ("192.168.0.1", v4(192, 168, 0, 1)),
        ("169.254.169.254", v4(169, 254, 169, 254)),
        ("100.64.0.1", v4(100, 64, 0, 1)),
        ("0.0.0.0", v4(0, 0, 0, 0)),
        ("::1", v6([0, 0, 0, 0, 0, 0, 0, 1])),
        ("fc00::1", v6([0xfc00, 0, 0, 0, 0, 0, 0, 1])),
        ("fe80::1", v6([0xfe80, 0, 0, 0, 0, 0, 0, 1])),
        ("::ffff:127.0.0.1", v6([0, 0, 0, 0, 0, 0xffff, 0x7f00, 0x0001])),
    ];
    for (ip, parsed) in blocked {
        assert!(is_blocked_ip(parsed), "{ip} should be blocked");
    }
}

#[test]
fn allows_public_addresses() {
    let allowed = [
        ("8.8.8.8", v4(8, 8, 8, 8)),
        ("1.1.1.1", v4(1, 1, 1, 1)),
        ("93.184.216.34", v4(93, 184, 216, 34)),
        ("2606:4700:4700::1111", v6([0x2606, 0x4700, 0x4700, 0, 0, 0, 0, 0x1111])),
    ];
    for (ip, parsed) in allowed {
        assert!(!is_blocked_ip(parsed), "{ip} should be allowed");
    }
}

#[test]
fn classifies_range_edges() {
    let blocked = [
        v4(172, 31, 255, 255),
        v4(100, 127, 255, 255),
        v4(224, 0, 0, 1),
        v4(239, 255, 255, 255),
        v4(255, 255, 255, 255),
        v4(192, 0, 2, 7),
        v4(198, 51, 100, 7),
        v4(203, 0, 113, 7),
        v4(0, 1, 2, 3),
        v6([0xff02, 0, 0, 0, 0, 0, 0, 1]),
        v6([0xfdff, 0, 0, 0, 0, 0, 0, 1]),
        v6([0xfebf, 0, 0, 0, 0, 0, 0, 1]),
        v6([0, 0, 0, 0, 0, 0, 0, 0]),
        v6([0, 0, 0, 0, 0, 0, 0x0a00, 0x0001]),
    ];
    for ip in blocked {
        assert!(is_blocked_ip(ip), "{ip:?} should be blocked");
    }
    let allowed = [
        v4(172, 32, 0, 1),
        v4(100, 128, 0, 1),
        v4(240, 0, 0, 1),
        v4(192, 0, 3, 1),
        v4(169, 253, 1, 1),
        v6([0xfec0, 0, 0, 0, 0, 0, 0, 1]),
        v6([0, 0, 0, 0, 0, 0xffff, 0x0808, 0x0808]),
        v6([0, 0, 0, 0, 0, 0, 0x0808, 0x0808]),
        v6([0, 0, 0, 0, 0, 1, 0x7f00, 0x0001]),
    ];
    for ip in allowed {
        assert!(!is_blocked_ip(ip), "{ip:?} should be allowed");
    }
}

/// SSRF guard: untrusted targets naming internal addresses are refused
/// before any connection.
#[test]
fn guard_blocks_internal_literal_hosts() {
    for host in [
        "http://127.0.0.1",
        "http://10.0.0.1",
        "http://192.168.1.1",
        "http://169.254.169.254",
        "http://[::1]",
        "http://[::ffff:127.0.0.1]",
        "http://0.0.0.0",
    ] {
        let url = fetch_url(host, "/latest/meta-data");
        assert!(
            matches!(guard_target(&url), GuardDecision::Blocked),
            "guard must block internal host {host:?}"
        );
    }
}

/// An unsupported scheme is refused by the guard.
#[test]
fn guard_blocks_non_http_scheme() {
    let url = fetch_url("file://", "/etc/passwd");
    assert!(matches!(guard_target(&url), GuardDecision::Blocked));
}

#[test]
fn guard_passes_public_targets() {
    assert!(matches!(guard_target("http://8.8.8.8/a"), GuardDecision::Direct));
    match guard_target("https://example.com/a.png") {
        GuardDecision::Resolve { domain, port } => {
            assert_eq!(domain, "example.com");
            assert_eq!(port, 443);
        }
        other => panic!("expected a resolution, got {other:?}"),
    }
    match guard_target("http://Example.COM:8080/") {
        GuardDecision::Resolve { domain, port } => {
            assert_eq!(domain, "example.com");
            assert_eq!(port, 8080);
        }
        other => panic!("expected a resolution, got {other:?}"),
    }
    assert!(matches!(guard_target("not a url"), GuardDecision::Blocked));
}

#[test]
fn guard_decides_on_parsed_parts() {
    let t = |scheme: &str, port: Option<u16>, host: Option<TargetHost>| ParsedTarget {
        scheme: scheme.to_string(),
        port,
        host,
    };
    assert!(matches!(guard_parsed(None), GuardDecision::Blocked));
    assert!(matches!(
        guard_parsed(Some(t("ftp", Some(21), Some(TargetHost::Domain("a".into()))))),
        GuardDecision::Blocked
    ));
    assert!(matches!(
        guard_parsed(Some(t("http", None, Some(TargetHost::Domain("a".into()))))),
        GuardDecision::Blocked
    ));
    assert!(matches!(guard_parsed(Some(t("https", Some(1), None))), GuardDecision::Blocked));
    assert!(matches!(
        guard_parsed(Some(t("https", Some(1), Some(TargetHost::V4([10, 0, 0, 1]))))),
        GuardDecision::Blocked
    ));
    assert!(matches!(
        guard_parsed(Some(t("https", Some(1), Some(TargetHost::V4([8, 8, 4, 4]))))),
        GuardDecision::Direct
    ));
}

#[test]
fn resolved_addresses_must_all_be_public() {
    assert!(!addresses_allowed(&vec![]));
    assert!(addresses_allowed(&vec![IpAddress::V4([8, 8, 8, 8])]));
    assert!(!addresses_allowed(&vec![
        IpAddress::V4([8, 8, 8, 8]),
        IpAddress::V4([127, 0, 0, 1])
    ]));
}

#[test]
fn fetch_url_encodes_each_segment() {
    assert_eq!(fetch_url("https://h", "/a b/c.png"), "https://h/a%20b/c.png");
    assert_eq!(fetch_url("https://h", "/ü/%"), "https://h/%C3%BC/%25");
    assert_eq!(fetch_url("https://h", "/a-b_c.d~e"), "https://h/a-b_c.d~e");
    assert_eq!(fetch_url("h", ""), "h");
    assert_eq!(fetch_url("h", "//"), "h//");
}

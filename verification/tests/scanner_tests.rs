use what_server::collect::VersionMap;
use what_server::probes::{Matches, NmapFingerPrintLib};
use what_server::scanner::WhatServer;

fn probe(name: &str, ports: Vec<u16>, rules: Vec<(&str, &str)>) -> NmapFingerPrintLib {
    NmapFingerPrintLib {
        matches: rules
            .into_iter()
            .map(|(service, pattern)| Matches {
                service: service.to_string(),
                pattern: pattern.as_bytes().to_vec(),
                version_info: String::new(),
            })
            .collect(),
        directive_name: name.to_string(),
        protocol: "tcp".to_string(),
        directive_str: Vec::new(),
        total_wait_ms: None,
        tcp_wrapped_ms: None,
        rarity: 0,
        ports,
        ssl_ports: None,
        fallback: None,
    }
}

#[test]
fn end_to_end_ssh_banner() {
    let db = vec![probe("null", vec![22], vec![("ssh", "^SSH-")])];
    let responses: Vec<Vec<u8>> = vec![b"SSH-2.0-OpenSSH_8.9\r\n".to_vec()];
    let scanner = WhatServer::new(300);
    let found = scanner.scan(&db, 22, &responses);
    assert!(found.contains(&"ssh".to_string()));
    assert!(!found.is_empty());
}

#[test]
fn phase_one_match_skips_fallback_probes() {
    // Probe A targets port 80 and matches; probe B does not target port 80,
    // and its rule would match its response too. Only A's service may appear.
    let db = vec![
        probe("a", vec![80], vec![("http", "^HTTP/")]),
        probe("b", vec![443], vec![("tls", ".*")]),
    ];
    let responses: Vec<Vec<u8>> = vec![b"HTTP/1.1 200 OK".to_vec(), b"anything".to_vec()];
    let found = WhatServer::new(300).scan(&db, 80, &responses);
    assert!(found.contains(&"http".to_string()));
    assert!(!found.contains(&"tls".to_string()));
}

#[test]
fn empty_phase_one_falls_back_to_remaining_probes() {
    let db = vec![
        probe("a", vec![80], vec![("http", "^HTTP/")]),
        probe("b", vec![443], vec![("tls", "^TLS")]),
    ];
    // A's response does not match its rule; B's does.
    let responses: Vec<Vec<u8>> = vec![b"garbage".to_vec(), b"TLS hello".to_vec()];
    let found = WhatServer::new(300).scan(&db, 80, &responses);
    assert!(found.contains(&"tls".to_string()));
    assert!(!found.contains(&"http".to_string()));
}

#[test]
fn no_match_anywhere_yields_empty_set() {
    let db = vec![probe("a", vec![80], vec![("http", "^HTTP/")])];
    let responses: Vec<Vec<u8>> = vec![b"garbage".to_vec()];
    let found = WhatServer::new(300).scan(&db, 80, &responses);
    assert!(found.is_empty());
}

#[test]
fn filter_preserves_relative_order() {
    let db = vec![
        probe("a", vec![80], vec![]),
        probe("b", vec![443], vec![]),
        probe("c", vec![80, 8080], vec![]),
        probe("d", vec![], vec![]),
    ];
    let (matched, rest) = WhatServer::new(300).filter_probes_by_port(db, 80);
    let names: Vec<&str> = matched.iter().map(|p| p.directive_name.as_str()).collect();
    assert_eq!(names, vec!["a", "c"]);
    let names: Vec<&str> = rest.iter().map(|p| p.directive_name.as_str()).collect();
    assert_eq!(names, vec!["b", "d"]);
}

#[test]
fn match_rules_collects_every_matching_rule() {
    let p = probe(
        "multi",
        vec![80],
        vec![("one", "^HTTP/"), ("two", "200 OK"), ("miss", "^FTP")],
    );
    let names = p.match_rules(&b"HTTP/1.1 200 OK".to_vec());
    assert_eq!(names, vec!["one".to_string(), "two".to_string()]);
}

#[test]
fn rule_with_invalid_utf8_pattern_matches_nothing() {
    let mut p = probe("bad", vec![80], vec![]);
    p.matches.push(Matches {
        service: "never".to_string(),
        pattern: vec![0xff, 0xfe],
        version_info: String::new(),
    });
    let names = p.match_rules(&b"anything".to_vec());
    assert!(names.is_empty());
}

#[test]
fn rule_with_invalid_regex_pattern_matches_nothing() {
    let p = probe("bad", vec![80], vec![("never", "(unclosed")]);
    let names = p.match_rules(&b"anything (unclosed".to_vec());
    assert!(names.is_empty());
}

#[test]
fn what_server_reports_service_or_empty() {
    let p = probe("a", vec![80], vec![("http", "^HTTP/")]);
    let rule = &p.matches[0];
    assert_eq!(p.what_server(rule, &b"HTTP/1.1".to_vec()), "http".to_string());
    assert_eq!(p.what_server(rule, &b"SSH-2.0".to_vec()), String::new());
}

#[test]
fn timeout_is_kept() {
    let scanner = WhatServer::new(750);
    assert_eq!(scanner.timeout_ms(), 750);
}

#[test]
fn version_map_last_insertion_wins() {
    let mut m = VersionMap::new();
    assert!(m.is_empty());
    m.insert("major".to_string(), "1".to_string());
    m.insert("major".to_string(), "2".to_string());
    assert_eq!(m.get(&"major".to_string()), Some(&"2".to_string()));
    assert_eq!(m.get(&"minor".to_string()), None);
    m.insert_all(&vec![
        ("minor".to_string(), "0".to_string()),
        ("minor".to_string(), "9".to_string()),
    ]);
    assert_eq!(m.get(&"minor".to_string()), Some(&"9".to_string()));
    assert!(!m.is_empty());
}

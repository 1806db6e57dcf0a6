use what_server::probes::{Matches, NmapFingerPrintLib};
use what_server::session::ScanSession;

fn probe(name: &str, ports: Vec<u16>, rules: Vec<(&str, &str)>) -> NmapFingerPrintLib {
    NmapFingerPrintLib {
        matches: rules
            .into_iter()
            .map(|(service, pattern)| Matches {
                service: service.to_string(),
                pattern: pattern.as_bytes().to_vec(),
                version_info: String::new(),
            })
            .collect(),
        directive_name: name.to_string(),
        protocol: "tcp".to_string(),
        directive_str: Vec::new(),
        total_wait_ms: None,
        tcp_wrapped_ms: None,
        rarity: 0,
        ports,
        ssl_ports: None,
        fallback: None,
    }
}

/// Drives a session the way a transport would, with `response` standing for
/// every probe's collected bytes, and counts launches.
fn drive(session: &mut ScanSession, width: usize, response: &[u8]) -> usize {
    let mut launches = 0;
    loop {
        // Fill the in-flight pool to the width.
        let mut in_flight: Vec<usize> = Vec::new();
        loop {
            match session.next_probe() {
                Some(i) => {
                    in_flight.push(i);
                    launches += 1;
                    assert!(in_flight.len() <= width);
                }
                None => break,
            }
        }
        // Complete the launched probes one by one, replenishing after each.
        while let Some(i) = in_flight.pop() {
            let names = session.probe_to_run(i).match_rules(&response.to_vec());
            session.complete(&names);
            if let Some(j) = session.next_probe() {
                in_flight.push(j);
                launches += 1;
                assert!(in_flight.len() <= width);
            }
        }
        if session.phase_drained() {
            if !session.advance() {
                return launches;
            }
        }
    }
}

#[test]
fn width_bounds_in_flight_and_every_probe_runs_once() {
    let targeted: Vec<NmapFingerPrintLib> =
        (0..5).map(|i| probe(&format!("t{i}"), vec![80], vec![("never", "^X")])).collect();
    let fallback: Vec<NmapFingerPrintLib> =
        (0..3).map(|i| probe(&format!("f{i}"), vec![443], vec![("never", "^X")])).collect();
    let mut session = ScanSession::new(targeted, fallback, 2);
    let launches = drive(&mut session, 2, b"nothing");
    // Nothing matched, so both phases ran: every probe launched exactly once.
    assert_eq!(launches, 8);
    assert!(session.finished());
    assert!(session.into_results().is_empty());
}

#[test]
fn targeted_match_skips_fallback_entirely() {
    let targeted = vec![probe("a", vec![80], vec![("http", "^HTTP/")])];
    let fallback = vec![probe("b", vec![443], vec![("tls", ".*")])];
    let mut session = ScanSession::new(targeted, fallback, 16);
    let launches = drive(&mut session, 16, b"HTTP/1.1 200 OK");
    // Only the targeted probe ran; the fallback probe was never launched.
    assert_eq!(launches, 1);
    let results = session.into_results();
    assert!(results.contains(&"http".to_string()));
    assert!(!results.contains(&"tls".to_string()));
}

#[test]
fn empty_targeted_results_open_the_fallback_phase() {
    let targeted = vec![probe("a", vec![80], vec![("http", "^HTTP/")])];
    let fallback = vec![probe("b", vec![443], vec![("echo", "anything")])];
    let mut session = ScanSession::new(targeted, fallback, 16);
    let launches = drive(&mut session, 16, b"anything");
    assert_eq!(launches, 2);
    let results = session.into_results();
    assert!(results.contains(&"echo".to_string()));
    assert!(!results.contains(&"http".to_string()));
}

#[test]
fn next_probe_stops_at_width_until_a_completion() {
    let targeted: Vec<NmapFingerPrintLib> =
        (0..4).map(|i| probe(&format!("t{i}"), vec![80], vec![])).collect();
    let mut session = ScanSession::new(targeted, Vec::new(), 2);
    assert_eq!(session.next_probe(), Some(0));
    assert_eq!(session.next_probe(), Some(1));
    // The pool is full: no further launch before a completion.
    assert_eq!(session.next_probe(), None);
    session.complete(&Vec::new());
    assert_eq!(session.next_probe(), Some(2));
    assert_eq!(session.next_probe(), None);
}

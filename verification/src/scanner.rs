//! The probe scanner: port partitioning and the two-phase match strategy.
//!
//! `scan` is the scanner's decision kernel: given the database, the target
//! port and one collected response per probe, it computes the deduplicated
//! service-name set of the scan. Opening connections, sending directive
//! bytes and collecting responses is the transport's job, outside this
//! crate; the bounded-concurrency schedule a transport must follow is
//! `session::ScanSession`.

use vstd::prelude::*;
use vstd::seq_lib::*;
use crate::collect::{seq_set, views_of, StringSet};
use crate::probes::{matching_services, NmapFingerPrintLib};

verus! {

/// Whether a probe's port set holds `port`.
pub open spec fn port_matched(p: NmapFingerPrintLib, port: u16) -> bool {
    p.ports@.contains(port)
}

/// The service names all rules of probe `p` report for `resp`.
pub open spec fn probe_service_set(p: NmapFingerPrintLib, resp: Seq<u8>) -> Set<Seq<char>> {
    seq_set(matching_services(p.matches@, resp, p.matches@.len() as int))
}

/// The union of the service names reported by the first `n` probes whose
/// port-match status equals `matched`, each held against its own response.
pub open spec fn phase_results(
    probes: Seq<NmapFingerPrintLib>,
    responses: Seq<Vec<u8>>,
    port: u16,
    matched: bool,
    n: int,
) -> Set<Seq<char>>
    decreases n,
{
    if n <= 0 {
        Set::empty()
    } else {
        let prev = phase_results(probes, responses, port, matched, n - 1);
        if port_matched(probes[n - 1], port) == matched {
            prev.union(probe_service_set(probes[n - 1], responses[n - 1]@))
        } else {
            prev
        }
    }
}

/// Whether `port` occurs in `ports`.
pub fn port_in(ports: &Vec<u16>, port: u16) -> (r: bool)
    ensures
        r == ports@.contains(port),
{
    let mut i: usize = 0;
    while i < ports.len()
        invariant
            0 <= i <= ports@.len(),
            forall|j: int| 0 <= j < i ==> ports@[j] != port,
        decreases ports@.len() - i,
    {
        if ports[i] == port {
            proof {
                assert(ports@[i as int] == port);
            }
            return true;
        }
        i += 1;
    }
    false
}

/// A probe scanner configuration: cheap, stateless except for its single
/// millisecond timeout, from which a transport derives its per-connection
/// write and read timeouts.
pub struct WhatServer {
    timeout: u64,
}

impl WhatServer {
    pub fn new(timeout: u64) -> (r: Self)
        ensures
            r.timeout() == timeout,
    {
        Self { timeout }
    }

    /// The configured timeout in milliseconds.
    pub closed spec fn timeout(&self) -> u64 {
        self.timeout
    }

    /// The configured timeout in milliseconds.
    pub fn timeout_ms(&self) -> (r: u64)
        ensures
            r == self.timeout(),
    {
        self.timeout
    }

    /// Partitions the database into the probes whose port set holds `port`
    /// and those whose port set does not, keeping the database's relative
    /// order within each partition.
    pub fn filter_probes_by_port(&self, probes: Vec<NmapFingerPrintLib>, port: u16) -> (r: (
        Vec<NmapFingerPrintLib>,
        Vec<NmapFingerPrintLib>,
    ))
        ensures
            r.0@ == probes@.filter(|p: NmapFingerPrintLib| port_matched(p, port)),
            r.1@ == probes@.filter(|p: NmapFingerPrintLib| !port_matched(p, port)),
    {
        let ghost orig = probes@;
        let ghost keep = |p: NmapFingerPrintLib| port_matched(p, port);
        let ghost excl = |p: NmapFingerPrintLib| !port_matched(p, port);
        let mut rest = probes;
        let mut in_probes: Vec<NmapFingerPrintLib> = Vec::new();
        let mut ex_probes: Vec<NmapFingerPrintLib> = Vec::new();
        while rest.len() > 0
            invariant
                rest@.len() <= orig.len(),
                rest@ == orig.skip(orig.len() - rest@.len()),
                in_probes@ == orig.take(orig.len() - rest@.len()).filter(keep),
                ex_probes@ == orig.take(orig.len() - rest@.len()).filter(excl),
                keep == (|p: NmapFingerPrintLib| port_matched(p, port)),
                excl == (|p: NmapFingerPrintLib| !port_matched(p, port)),
            decreases rest@.len(),
        {
            let ghost k = orig.len() - rest@.len();
            let nmap_fingerprint = rest.remove(0);
            proof {
                assert(nmap_fingerprint == orig[k]);
                assert(rest@ =~= orig.skip(k + 1));
                let taken = orig.take(k);
                let single = seq![orig[k]];
                assert(orig.take(k + 1) =~= taken + single);
                Seq::<NmapFingerPrintLib>::filter_distributes_over_add(taken, single, keep);
                Seq::<NmapFingerPrintLib>::filter_distributes_over_add(taken, single, excl);
                reveal_with_fuel(Seq::<_>::filter, 3);
                if port_matched(orig[k], port) {
                    assert(single.filter(keep) =~= single);
                    assert(single.filter(excl) =~= Seq::<NmapFingerPrintLib>::empty());
                } else {
                    assert(single.filter(keep) =~= Seq::<NmapFingerPrintLib>::empty());
                    assert(single.filter(excl) =~= single);
                }
            }
            if port_in(&nmap_fingerprint.ports, port) {
                in_probes.push(nmap_fingerprint);
            } else {
                ex_probes.push(nmap_fingerprint);
            }
            proof {
                assert(in_probes@ =~= orig.take(k + 1).filter(keep));
                assert(ex_probes@ =~= orig.take(k + 1).filter(excl));
            }
        }
        proof {
            assert(orig.take(orig.len() as int) =~= orig);
        }
        (in_probes, ex_probes)
    }

    /// The scan decision: holds each port-matched probe's response against
    /// that probe's rules and aggregates every reported service name; only
    /// when that targeted phase reports nothing does the fallback phase run
    /// the remaining probes the same way. `responses` carries one collected
    /// response per probe of the database, in database order; a probe whose
    /// connection failed has an empty response there.
    pub fn scan(&self, probes: &Vec<NmapFingerPrintLib>, port: u16, responses: &Vec<Vec<u8>>) -> (r:
        StringSet)
        requires
            responses@.len() == probes@.len(),
        ensures
            ({
                let targeted = phase_results(probes@, responses@, port, true, probes@.len() as int);
                let fallback = phase_results(
                    probes@,
                    responses@,
                    port,
                    false,
                    probes@.len() as int,
                );
                r@ == if targeted != Set::<Seq<char>>::empty() {
                    targeted
                } else {
                    fallback
                }
            }),
    {
        let mut server_set = StringSet::new();
        let mut i: usize = 0;
        while i < probes.len()
            invariant
                0 <= i <= probes@.len(),
                responses@.len() == probes@.len(),
                server_set@ == phase_results(probes@, responses@, port, true, i as int),
            decreases probes@.len() - i,
        {
            let p = &probes[i];
            if port_in(&p.ports, port) {
                let names = p.match_rules(&responses[i]);
                server_set.insert_all(&names);
                proof {
                    assert(seq_set(views_of(names@)) == probe_service_set(
                        probes@[i as int],
                        responses@[i as int]@,
                    ));
                }
            }
            i += 1;
        }
        if !server_set.is_empty() {
            return server_set;
        }
        let mut i: usize = 0;
        while i < probes.len()
            invariant
                0 <= i <= probes@.len(),
                responses@.len() == probes@.len(),
                phase_results(probes@, responses@, port, true, probes@.len() as int)
                    == Set::<Seq<char>>::empty(),
                server_set@ == phase_results(probes@, responses@, port, false, i as int),
            decreases probes@.len() - i,
        {
            let p = &probes[i];
            if !port_in(&p.ports, port) {
                let names = p.match_rules(&responses[i]);
                server_set.insert_all(&names);
                proof {
                    assert(seq_set(views_of(names@)) == probe_service_set(
                        probes@[i as int],
                        responses@[i as int]@,
                    ));
                    assert(Set::<Seq<char>>::empty().union(seq_set(views_of(names@)))
                        =~= seq_set(views_of(names@)));
                }
            }
            i += 1;
        }
        server_set
    }
}

} // verus!

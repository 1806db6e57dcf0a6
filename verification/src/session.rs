//! The bounded-concurrency scan schedule.
//!
//! A `ScanSession` is the decision kernel of a running scan: it decides which
//! probe to launch next, keeps the number of in-flight probes at or under the
//! configured width, aggregates per-probe results, and gates the fallback
//! phase on the targeted phase reporting nothing. The transport driving it
//! performs the connects, writes and reads, and hands back each completed
//! probe's matched service names; no probe is ever cancelled, the only
//! short-circuit is between the two phases.

use vstd::prelude::*;
use vstd::pervasive::unreached;
use crate::collect::{seq_set, views_of, StringSet};
use crate::probes::NmapFingerPrintLib;

verus! {

/// Where a scan stands: running the port-matched probes, running the
/// remaining probes, or done.
pub enum ScanPhase {
    Targeted,
    Fallback,
    Finished,
}

/// One scan's schedule state.
pub struct ScanSession {
    targeted: Vec<NmapFingerPrintLib>,
    fallback: Vec<NmapFingerPrintLib>,
    width: usize,
    phase: ScanPhase,
    pos: usize,
    in_flight: usize,
    results: StringSet,
}

impl ScanSession {
    pub closed spec fn spec_phase(&self) -> ScanPhase {
        self.phase
    }

    /// The probes of the phase the session is in.
    pub closed spec fn spec_current(&self) -> Seq<NmapFingerPrintLib> {
        match self.phase {
            ScanPhase::Targeted => self.targeted@,
            ScanPhase::Fallback => self.fallback@,
            ScanPhase::Finished => Seq::empty(),
        }
    }

    pub closed spec fn spec_targeted(&self) -> Seq<NmapFingerPrintLib> {
        self.targeted@
    }

    pub closed spec fn spec_fallback(&self) -> Seq<NmapFingerPrintLib> {
        self.fallback@
    }

    /// How many probes of the current phase have been launched.
    pub closed spec fn spec_pos(&self) -> int {
        self.pos as int
    }

    /// How many launched probes have not completed yet.
    pub closed spec fn spec_in_flight(&self) -> int {
        self.in_flight as int
    }

    pub closed spec fn spec_width(&self) -> int {
        self.width as int
    }

    /// The service names aggregated so far.
    pub closed spec fn spec_results(&self) -> Set<Seq<char>> {
        self.results@
    }

    /// The session invariant: the in-flight count never passes the width,
    /// never passes the number of launched probes, and a finished session has
    /// nothing in flight.
    pub closed spec fn wf(&self) -> bool {
        &&& self.width >= 1
        &&& self.in_flight <= self.width
        &&& self.in_flight <= self.pos
        &&& match self.phase {
            ScanPhase::Targeted => self.pos <= self.targeted@.len(),
            ScanPhase::Fallback => self.pos <= self.fallback@.len(),
            ScanPhase::Finished => self.in_flight == 0,
        }
    }

    /// A fresh session over the two partitions, starting on the targeted
    /// phase with nothing launched and nothing found.
    pub fn new(targeted: Vec<NmapFingerPrintLib>, fallback: Vec<NmapFingerPrintLib>, width: usize)
        -> (r: ScanSession)
        requires
            width >= 1,
        ensures
            r.wf(),
            r.spec_phase() is Targeted,
            r.spec_targeted() == targeted@,
            r.spec_fallback() == fallback@,
            r.spec_width() == width as int,
            r.spec_pos() == 0,
            r.spec_in_flight() == 0,
            r.spec_results() == Set::<Seq<char>>::empty(),
    {
        ScanSession {
            targeted,
            fallback,
            width,
            phase: ScanPhase::Targeted,
            pos: 0,
            in_flight: 0,
            results: StringSet::new(),
        }
    }

    /// Hands out the next pending probe of the current phase while the
    /// in-flight count is under the width: each probe of a phase is handed
    /// out exactly once, in order, and never after the phase ended.
    pub fn next_probe(&mut self) -> (r: Option<usize>)
        requires
            old(self).wf(),
        ensures
            final(self).wf(),
            final(self).spec_phase() == old(self).spec_phase(),
            final(self).spec_targeted() == old(self).spec_targeted(),
            final(self).spec_fallback() == old(self).spec_fallback(),
            final(self).spec_width() == old(self).spec_width(),
            final(self).spec_results() == old(self).spec_results(),
            r is Some <==> !(old(self).spec_phase() is Finished)
                && old(self).spec_in_flight() < old(self).spec_width()
                && old(self).spec_pos() < old(self).spec_current().len(),
            r matches Some(i) ==> i as int == old(self).spec_pos()
                && final(self).spec_pos() == old(self).spec_pos() + 1
                && final(self).spec_in_flight() == old(self).spec_in_flight() + 1,
            r is None ==> *final(self) == *old(self),
    {
        if self.in_flight >= self.width {
            return None;
        }
        let pending = match self.phase {
            ScanPhase::Targeted => self.targeted.len(),
            ScanPhase::Fallback => self.fallback.len(),
            ScanPhase::Finished => 0,
        };
        if self.pos < pending {
            let i = self.pos;
            self.pos = self.pos + 1;
            self.in_flight = self.in_flight + 1;
            Some(i)
        } else {
            None
        }
    }

    /// The probe behind a handle `next_probe` handed out for the current
    /// phase.
    pub fn probe_to_run(&self, i: usize) -> (r: &NmapFingerPrintLib)
        requires
            i < self.spec_current().len(),
        ensures
            *r == self.spec_current()[i as int],
    {
        match self.phase {
            ScanPhase::Targeted => &self.targeted[i],
            ScanPhase::Fallback => &self.fallback[i],
            ScanPhase::Finished => unreached(),
        }
    }

    /// Records one launched probe's completion: its matched service names
    /// join the aggregated results, and its slot frees up.
    pub fn complete(&mut self, names: &Vec<String>)
        requires
            old(self).wf(),
            old(self).spec_in_flight() > 0,
        ensures
            final(self).wf(),
            final(self).spec_phase() == old(self).spec_phase(),
            final(self).spec_targeted() == old(self).spec_targeted(),
            final(self).spec_fallback() == old(self).spec_fallback(),
            final(self).spec_width() == old(self).spec_width(),
            final(self).spec_pos() == old(self).spec_pos(),
            final(self).spec_in_flight() == old(self).spec_in_flight() - 1,
            final(self).spec_results() == old(self).spec_results().union(
                seq_set(views_of(names@)),
            ),
    {
        self.in_flight = self.in_flight - 1;
        self.results.insert_all(names);
    }

    /// Whether the current phase has launched all its probes and seen them
    /// all complete.
    pub fn phase_drained(&self) -> (r: bool)
        ensures
            r == (self.spec_in_flight() == 0 && self.spec_pos() == self.spec_current().len()),
    {
        let pending = match self.phase {
            ScanPhase::Targeted => self.targeted.len(),
            ScanPhase::Fallback => self.fallback.len(),
            ScanPhase::Finished => 0,
        };
        self.in_flight == 0 && self.pos == pending
    }

    /// Ends the drained current phase. The fallback phase opens exactly when
    /// the targeted phase aggregated nothing; a targeted phase that found
    /// anything finishes the scan and the fallback probes are never run.
    pub fn advance(&mut self) -> (r: bool)
        requires
            old(self).wf(),
            old(self).spec_in_flight() == 0,
            old(self).spec_pos() == old(self).spec_current().len(),
        ensures
            final(self).wf(),
            final(self).spec_targeted() == old(self).spec_targeted(),
            final(self).spec_fallback() == old(self).spec_fallback(),
            final(self).spec_width() == old(self).spec_width(),
            final(self).spec_results() == old(self).spec_results(),
            final(self).spec_in_flight() == 0,
            r <==> old(self).spec_phase() is Targeted && old(self).spec_results()
                == Set::<Seq<char>>::empty(),
            r ==> final(self).spec_phase() is Fallback && final(self).spec_pos() == 0,
            !r ==> final(self).spec_phase() is Finished,
    {
        match self.phase {
            ScanPhase::Targeted => {
                if self.results.is_empty() {
                    self.phase = ScanPhase::Fallback;
                    self.pos = 0;
                    true
                } else {
                    self.phase = ScanPhase::Finished;
                    false
                }
            },
            ScanPhase::Fallback => {
                self.phase = ScanPhase::Finished;
                false
            },
            ScanPhase::Finished => false,
        }
    }

    /// Whether the scan is over.
    pub fn finished(&self) -> (r: bool)
        ensures
            r == (self.spec_phase() is Finished),
    {
        match self.phase {
            ScanPhase::Finished => true,
            _ => false,
        }
    }

    /// The aggregated service names of the whole scan.
    pub fn into_results(self) -> (r: StringSet)
        ensures
            r@ == self.spec_results(),
    {
        self.results
    }
}

/// Law: with pending probes and a configured width, a well-formed session
/// never has more probes in flight than that width, and never more than it
/// has launched.
pub proof fn lemma_in_flight_bounded(s: &ScanSession)
    requires
        s.wf(),
    ensures
        s.spec_in_flight() <= s.spec_width(),
        s.spec_in_flight() <= s.spec_pos(),
{
}

} // verus!

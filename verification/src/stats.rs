//! Per-run statistics: request and detection counters and the
//! fastest/slowest site trackers, updated once per completing probe.

use crate::classify::Classification;
use vstd::prelude::*;

verus! {

/// The view of one latency tracker entry.
pub open spec fn timing_view(o: Option<(String, u64)>) -> Option<(Seq<char>, u64)> {
    match o {
        Option::Some(p) => Option::Some((p.0@, p.1)),
        Option::None => Option::None,
    }
}

/// One update of the fastest tracker: a strictly smaller latency takes the
/// tracker over, so of equal latencies the first observed keeps it.
pub open spec fn faster_tracker(
    cur: Option<(Seq<char>, u64)>,
    site: Seq<char>,
    ms: u64,
) -> Option<(Seq<char>, u64)> {
    match cur {
        Option::None => Option::Some((site, ms)),
        Option::Some(c) => if ms < c.1 {
            Option::Some((site, ms))
        } else {
            Option::Some(c)
        },
    }
}

/// One update of the slowest tracker: a strictly larger latency takes the
/// tracker over.
pub open spec fn slower_tracker(
    cur: Option<(Seq<char>, u64)>,
    site: Seq<char>,
    ms: u64,
) -> Option<(Seq<char>, u64)> {
    match cur {
        Option::None => Option::Some((site, ms)),
        Option::Some(c) => if ms > c.1 {
            Option::Some((site, ms))
        } else {
            Option::Some(c)
        },
    }
}

/// Statistics of one run, shared by all workers under mutual exclusion and
/// read once at the end for the summary report.  Latencies are in
/// milliseconds.
#[derive(Debug, Clone)]
pub struct ScraperStats {
    pub total_requests: u64,
    pub blocked_count: u64,
    pub cloudflare_detected: u64,
    pub fastest_site: Option<(String, u64)>,
    pub slowest_site: Option<(String, u64)>,
}

impl ScraperStats {
    /// Fresh statistics: no request made, nothing tracked.
    pub fn new() -> (r: ScraperStats)
        ensures
            r.total_requests == 0,
            r.blocked_count == 0,
            r.cloudflare_detected == 0,
            r.fastest_site is None,
            r.slowest_site is None,
    {
        ScraperStats {
            total_requests: 0,
            blocked_count: 0,
            cloudflare_detected: 0,
            fastest_site: None,
            slowest_site: None,
        }
    }

    /// Count one issued request.
    pub fn record_request(&mut self)
        requires
            old(self).total_requests < u64::MAX,
        ensures
            *final(self) == (ScraperStats {
                total_requests: (old(self).total_requests + 1) as u64,
                ..*old(self)
            }),
    {
        self.total_requests = self.total_requests + 1;
    }

    /// Count one rate-limit detection.
    pub fn record_rate_limit(&mut self)
        requires
            old(self).blocked_count < u64::MAX,
        ensures
            *final(self) == (ScraperStats {
                blocked_count: (old(self).blocked_count + 1) as u64,
                ..*old(self)
            }),
    {
        self.blocked_count = self.blocked_count + 1;
    }

    /// Count one edge-proxy detection.
    pub fn record_edge_proxy(&mut self)
        requires
            old(self).cloudflare_detected < u64::MAX,
        ensures
            *final(self) == (ScraperStats {
                cloudflare_detected: (old(self).cloudflare_detected + 1) as u64,
                ..*old(self)
            }),
    {
        self.cloudflare_detected = self.cloudflare_detected + 1;
    }

    /// Record everything one classified response contributes, in one
    /// critical section: the request itself, the adversarial-response
    /// counters, and the probe's duration where classification reached a
    /// verdict.
    pub fn record_classification(&mut self, c: &Classification, site: String, elapsed_ms: u64)
        requires
            old(self).total_requests < u64::MAX,
            old(self).blocked_count < u64::MAX,
            old(self).cloudflare_detected < u64::MAX,
        ensures
            final(self).total_requests == old(self).total_requests + 1,
            final(self).cloudflare_detected == old(self).cloudflare_detected + (
            if c.edge_proxy_detected {
                1int
            } else {
                0int
            }),
            final(self).blocked_count == old(self).blocked_count + (if c.rate_limited {
                1int
            } else {
                0int
            }),
            timing_view(final(self).fastest_site) == (if c.timing_recorded {
                faster_tracker(timing_view(old(self).fastest_site), site@, elapsed_ms)
            } else {
                timing_view(old(self).fastest_site)
            }),
            timing_view(final(self).slowest_site) == (if c.timing_recorded {
                slower_tracker(timing_view(old(self).slowest_site), site@, elapsed_ms)
            } else {
                timing_view(old(self).slowest_site)
            }),
    {
        self.record_request();
        if c.edge_proxy_detected {
            self.record_edge_proxy();
        }
        if c.rate_limited {
            self.record_rate_limit();
        }
        if c.timing_recorded {
            self.update_timing(site, elapsed_ms);
        }
    }

    /// Compare one completed probe's duration against both trackers.
    pub fn update_timing(&mut self, site: String, duration_ms: u64)
        ensures
            timing_view(final(self).fastest_site) == faster_tracker(
                timing_view(old(self).fastest_site),
                site@,
                duration_ms,
            ),
            timing_view(final(self).slowest_site) == slower_tracker(
                timing_view(old(self).slowest_site),
                site@,
                duration_ms,
            ),
            final(self).total_requests == old(self).total_requests,
            final(self).blocked_count == old(self).blocked_count,
            final(self).cloudflare_detected == old(self).cloudflare_detected,
    {
        let take_fastest: bool = match &self.fastest_site {
            Option::None => true,
            Option::Some(c) => duration_ms < c.1,
        };
        if take_fastest {
            self.fastest_site = Some((site.clone(), duration_ms));
        }
        let take_slowest: bool = match &self.slowest_site {
            Option::None => true,
            Option::Some(c) => duration_ms > c.1,
        };
        if take_slowest {
            self.slowest_site = Some((site, duration_ms));
        }
    }
}

/// The fastest tracker after a whole sequence of updates, applied in order.
pub open spec fn applied_faster(
    cur: Option<(Seq<char>, u64)>,
    updates: Seq<(Seq<char>, u64)>,
) -> Option<(Seq<char>, u64)>
    decreases updates.len(),
{
    if updates.len() == 0 {
        cur
    } else {
        applied_faster(faster_tracker(cur, updates[0].0, updates[0].1), updates.drop_first())
    }
}

/// The slowest tracker after a whole sequence of updates, applied in order.
pub open spec fn applied_slower(
    cur: Option<(Seq<char>, u64)>,
    updates: Seq<(Seq<char>, u64)>,
) -> Option<(Seq<char>, u64)>
    decreases updates.len(),
{
    if updates.len() == 0 {
        cur
    } else {
        applied_slower(slower_tracker(cur, updates[0].0, updates[0].1), updates.drop_first())
    }
}

/// However the completing probes interleave, the fastest tracker ends at
/// the minimum latency among all recorded updates (and whatever it started
/// from): its value does not depend on the completion order.
pub proof fn lemma_fastest_tracks_min(
    cur: Option<(Seq<char>, u64)>,
    updates: Seq<(Seq<char>, u64)>,
)
    ensures
        applied_faster(cur, updates) is None <==> (cur is None && updates.len() == 0),
        applied_faster(cur, updates) matches Some(r) ==> {
            &&& (forall|k: int| 0 <= k < updates.len() ==> r.1 <= (#[trigger] updates[k]).1)
            &&& (cur matches Some(c) ==> r.1 <= c.1)
            &&& ((exists|k: int| 0 <= k < updates.len() && r.1 == (#[trigger] updates[k]).1) || (
            cur matches Some(c) && r.1 == c.1))
        },
    decreases updates.len(),
{
    if updates.len() > 0 {
        let stepped = faster_tracker(cur, updates[0].0, updates[0].1);
        lemma_fastest_tracks_min(stepped, updates.drop_first());
        let rest = updates.drop_first();
        assert(forall|k: int| 0 <= k < rest.len() ==> rest[k] == updates[k + 1]);
        match applied_faster(cur, updates) {
            Option::Some(r) => {
                assert(applied_faster(stepped, rest) == Option::Some(r));
                let sc = stepped->0;
                assert(r.1 <= sc.1);
                assert(sc.1 <= updates[0].1);
                assert forall|k: int| 0 <= k < updates.len() implies r.1 <= (
                #[trigger] updates[k]).1 by {
                    if k > 0 {
                        assert(rest[k - 1] == updates[k]);
                    }
                }
                if exists|k: int| 0 <= k < rest.len() && r.1 == (#[trigger] rest[k]).1 {
                    let k = choose|k: int| 0 <= k < rest.len() && r.1 == (#[trigger] rest[k]).1;
                    assert(updates[k + 1].1 == r.1);
                } else {
                    assert(r.1 == sc.1);
                    match cur {
                        Option::Some(c) => {
                            if sc.1 != c.1 {
                                assert(r.1 == updates[0].1);
                            }
                        },
                        Option::None => {
                            assert(r.1 == updates[0].1);
                        },
                    }
                }
            },
            Option::None => {},
        }
    }
}

/// However the completing probes interleave, the slowest tracker ends at
/// the maximum latency among all recorded updates (and whatever it started
/// from): its value does not depend on the completion order.
pub proof fn lemma_slowest_tracks_max(
    cur: Option<(Seq<char>, u64)>,
    updates: Seq<(Seq<char>, u64)>,
)
    ensures
        applied_slower(cur, updates) is None <==> (cur is None && updates.len() == 0),
        applied_slower(cur, updates) matches Some(r) ==> {
            &&& (forall|k: int| 0 <= k < updates.len() ==> r.1 >= (#[trigger] updates[k]).1)
            &&& (cur matches Some(c) ==> r.1 >= c.1)
            &&& ((exists|k: int| 0 <= k < updates.len() && r.1 == (#[trigger] updates[k]).1) || (
            cur matches Some(c) && r.1 == c.1))
        },
    decreases updates.len(),
{
    if updates.len() > 0 {
        let stepped = slower_tracker(cur, updates[0].0, updates[0].1);
        lemma_slowest_tracks_max(stepped, updates.drop_first());
        let rest = updates.drop_first();
        assert(forall|k: int| 0 <= k < rest.len() ==> rest[k] == updates[k + 1]);
        match applied_slower(cur, updates) {
            Option::Some(r) => {
                assert(applied_slower(stepped, rest) == Option::Some(r));
                let sc = stepped->0;
                assert(r.1 >= sc.1);
                assert(sc.1 >= updates[0].1);
                assert forall|k: int| 0 <= k < updates.len() implies r.1 >= (
                #[trigger] updates[k]).1 by {
                    if k > 0 {
                        assert(rest[k - 1] == updates[k]);
                    }
                }
                if exists|k: int| 0 <= k < rest.len() && r.1 == (#[trigger] rest[k]).1 {
                    let k = choose|k: int| 0 <= k < rest.len() && r.1 == (#[trigger] rest[k]).1;
                    assert(updates[k + 1].1 == r.1);
                } else {
                    assert(r.1 == sc.1);
                    match cur {
                        Option::Some(c) => {
                            if sc.1 != c.1 {
                                assert(r.1 == updates[0].1);
                            }
                        },
                        Option::None => {
                            assert(r.1 == updates[0].1);
                        },
                    }
                }
            },
            Option::None => {},
        }
    }
}

/// Two interleaved completions may land in either order: the latencies the
/// two trackers end at are the same either way.
pub proof fn lemma_timing_updates_commute(
    cur: Option<(Seq<char>, u64)>,
    s1: Seq<char>,
    d1: u64,
    s2: Seq<char>,
    d2: u64,
)
    ensures
        ({
            let a = faster_tracker(faster_tracker(cur, s1, d1), s2, d2);
            let b = faster_tracker(faster_tracker(cur, s2, d2), s1, d1);
            a matches Some(x) && b matches Some(y) && x.1 == y.1
        }),
        ({
            let a = slower_tracker(slower_tracker(cur, s1, d1), s2, d2);
            let b = slower_tracker(slower_tracker(cur, s2, d2), s1, d1);
            a matches Some(x) && b matches Some(y) && x.1 == y.1
        }),
{
}

} // verus!

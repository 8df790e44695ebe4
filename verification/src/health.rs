//! Per-tenant liveness and error accounting: saturating counters and
//! last-seen timestamps, with a snapshot for the periodic reporter.
//!
//! The embedder owns the lock and the reporter task; every mutation of the
//! counter table is verified here.

use vstd::prelude::*;

verus! {

broadcast use vstd::seq::group_seq_axioms, vstd::std_specs::vec::group_vec_axioms, vstd::string::group_string_axioms;

/// One tenant's counters and last-seen times (milliseconds since the epoch).
#[derive(Debug, Clone, Copy, PartialEq, Eq, Structural)]
pub struct TenantHealth {
    pub last_ingress: Option<u64>,
    pub last_egress: Option<u64>,
    pub ingress_count: u64,
    pub egress_count: u64,
    pub error_count: u64,
}

/// A fresh entry with nothing seen yet.
pub open spec fn fresh_health() -> TenantHealth {
    TenantHealth {
        last_ingress: None,
        last_egress: None,
        ingress_count: 0,
        egress_count: 0,
        error_count: 0,
    }
}

/// The health table: one entry per tenant that has been seen.
#[derive(Debug)]
pub struct HealthMonitor {
    pub entries: Vec<(String, TenantHealth)>,
    /// The reporting period the embedder asked for, in milliseconds.
    pub interval_ms: u64,
}

/// The table's model: tenant names with their counters, in first-seen order.
pub open spec fn health_view(s: Seq<(String, TenantHealth)>) -> Seq<(Seq<char>, TenantHealth)> {
    Seq::new(s.len(), |i: int| (s[i].0@, s[i].1))
}

/// The first position holding `tenant`, from `i` on.
pub open spec fn health_index_from(
    s: Seq<(Seq<char>, TenantHealth)>,
    tenant: Seq<char>,
    i: int,
) -> Option<int>
    decreases s.len() - i,
{
    if i < 0 || i >= s.len() {
        None
    } else if s[i].0 == tenant {
        Some(i)
    } else {
        health_index_from(s, tenant, i + 1)
    }
}

pub open spec fn health_index(s: Seq<(Seq<char>, TenantHealth)>, tenant: Seq<char>) -> Option<
    int,
> {
    health_index_from(s, tenant, 0)
}

/// The counters recorded for `tenant`: a fresh entry when none exist yet.
pub open spec fn health_of(s: Seq<(Seq<char>, TenantHealth)>, tenant: Seq<char>) -> TenantHealth {
    match health_index(s, tenant) {
        Some(i) => s[i].1,
        None => fresh_health(),
    }
}

/// The table with `tenant`'s entry replaced by `h`: in place when present,
/// appended when absent.
pub open spec fn health_set(
    s: Seq<(Seq<char>, TenantHealth)>,
    tenant: Seq<char>,
    h: TenantHealth,
) -> Seq<(Seq<char>, TenantHealth)> {
    match health_index(s, tenant) {
        Some(i) => s.update(i, (tenant, h)),
        None => s + seq![(tenant, h)],
    }
}

/// An ingress observation at time `now`.
pub open spec fn with_ingress(h: TenantHealth, now: u64) -> TenantHealth {
    TenantHealth {
        ingress_count: if h.ingress_count == u64::MAX {
            u64::MAX
        } else {
            (h.ingress_count + 1) as u64
        },
        last_ingress: Some(now),
        ..h
    }
}

/// An egress observation at time `now`.
pub open spec fn with_egress(h: TenantHealth, now: u64) -> TenantHealth {
    TenantHealth {
        egress_count: if h.egress_count == u64::MAX {
            u64::MAX
        } else {
            (h.egress_count + 1) as u64
        },
        last_egress: Some(now),
        ..h
    }
}

/// A failure observation.
pub open spec fn with_failure(h: TenantHealth) -> TenantHealth {
    TenantHealth {
        error_count: if h.error_count == u64::MAX {
            u64::MAX
        } else {
            (h.error_count + 1) as u64
        },
        ..h
    }
}

proof fn lemma_health_index_skip(s: Seq<(Seq<char>, TenantHealth)>, tenant: Seq<char>, i: int)
    requires
        0 <= i <= s.len(),
        forall|j: int| 0 <= j < i ==> #[trigger] s[j].0 != tenant,
    ensures
        health_index(s, tenant) == health_index_from(s, tenant, i),
    decreases i,
{
    if i > 0 {
        lemma_health_index_skip(s, tenant, i - 1);
    }
}

/// Relies on std::time::SystemTime::now and duration_since: the wall-clock
/// time as milliseconds since the Unix epoch, zero when the clock reads
/// before the epoch.
#[verifier::external_body]
fn now_millis() -> u64 {
    match std::time::SystemTime::now().duration_since(std::time::UNIX_EPOCH) {
        Ok(d) => {
            let ms = d.as_millis();
            if ms > u64::MAX as u128 {
                u64::MAX
            } else {
                ms as u64
            }
        },
        Err(_) => 0,
    }
}

impl HealthMonitor {
    /// An empty table that will report on the given period.
    pub fn new(report_interval_ms: u64) -> (r: Self)
        ensures
            health_view(r.entries@) == Seq::<(Seq<char>, TenantHealth)>::empty(),
            r.interval_ms == report_interval_ms,
    {
        let r = HealthMonitor { entries: Vec::new(), interval_ms: report_interval_ms };
        proof {
            assert(health_view(r.entries@) =~= Seq::<(Seq<char>, TenantHealth)>::empty());
        }
        r
    }

    /// The period the reporter actually wakes on: the requested one, floored
    /// at five seconds.
    pub fn effective_interval_ms(&self) -> (r: u64)
        ensures
            r == (if self.interval_ms >= 5000 {
                self.interval_ms
            } else {
                5000u64
            }),
    {
        if self.interval_ms >= 5000 {
            self.interval_ms
        } else {
            5000
        }
    }

    fn position_of(&self, tenant: &str) -> (r: Option<usize>)
        ensures
            match r {
                Some(i) => i < self.entries@.len() && health_index(
                    health_view(self.entries@),
                    tenant@,
                ) == Some(i as int),
                None => health_index(health_view(self.entries@), tenant@) is None,
            },
    {
        let ghost hv = health_view(self.entries@);
        let mut i: usize = 0;
        while i < self.entries.len()
            invariant
                0 <= i <= self.entries.len(),
                hv == health_view(self.entries@),
                hv.len() == self.entries@.len(),
                forall|j: int| 0 <= j < i ==> #[trigger] hv[j].0 != tenant@,
                forall|j: int| 0 <= j < hv.len() ==> #[trigger] hv[j] == (
                    self.entries@[j].0@,
                    self.entries@[j].1,
                ),
            decreases self.entries.len() - i,
        {
            if crate::strutil::str_eq(self.entries[i].0.as_str(), tenant) {
                proof {
                    lemma_health_index_skip(hv, tenant@, i as int);
                }
                return Some(i);
            }
            i += 1;
        }
        proof {
            lemma_health_index_skip(hv, tenant@, i as int);
        }
        None
    }

    fn set_entry(&mut self, tenant: &str, h: TenantHealth)
        ensures
            health_view(final(self).entries@) == health_set(
                health_view(old(self).entries@),
                tenant@,
                h,
            ),
            final(self).interval_ms == old(self).interval_ms,
    {
        let ghost before = health_view(self.entries@);
        match self.position_of(tenant) {
            Some(i) => {
                self.entries.set(i, (String::from_str(tenant), h));
                proof {
                    assert(health_view(self.entries@) =~= before.update(i as int, (tenant@, h)));
                }
            },
            None => {
                self.entries.push((String::from_str(tenant), h));
                proof {
                    assert(health_view(self.entries@) =~= before + seq![(tenant@, h)]);
                }
            },
        }
    }

    /// Notes one inbound event for `tenant`: a saturating count bump and a
    /// fresh last-seen time.
    pub fn record_ingress(&mut self, tenant: &str)
        ensures
            exists|now: u64|
                health_view(final(self).entries@) == health_set(
                    health_view(old(self).entries@),
                    tenant@,
                    with_ingress(health_of(health_view(old(self).entries@), tenant@), now),
                ),
            final(self).interval_ms == old(self).interval_ms,
    {
        let now = now_millis();
        let h = match self.position_of(tenant) {
            Some(i) => self.entries[i].1,
            None => TenantHealth {
                last_ingress: None,
                last_egress: None,
                ingress_count: 0,
                egress_count: 0,
                error_count: 0,
            },
        };
        let bumped = TenantHealth {
            ingress_count: if h.ingress_count == u64::MAX {
                u64::MAX
            } else {
                h.ingress_count + 1
            },
            last_ingress: Some(now),
            ..h
        };
        self.set_entry(tenant, bumped);
        proof {
            assert(health_view(self.entries@) == health_set(
                health_view(old(self).entries@),
                tenant@,
                with_ingress(health_of(health_view(old(self).entries@), tenant@), now),
            ));
        }
    }

    /// Notes one outbound event for `tenant`.
    pub fn record_egress(&mut self, tenant: &str)
        ensures
            exists|now: u64|
                health_view(final(self).entries@) == health_set(
                    health_view(old(self).entries@),
                    tenant@,
                    with_egress(health_of(health_view(old(self).entries@), tenant@), now),
                ),
            final(self).interval_ms == old(self).interval_ms,
    {
        let now = now_millis();
        let h = match self.position_of(tenant) {
            Some(i) => self.entries[i].1,
            None => TenantHealth {
                last_ingress: None,
                last_egress: None,
                ingress_count: 0,
                egress_count: 0,
                error_count: 0,
            },
        };
        let bumped = TenantHealth {
            egress_count: if h.egress_count == u64::MAX {
                u64::MAX
            } else {
                h.egress_count + 1
            },
            last_egress: Some(now),
            ..h
        };
        self.set_entry(tenant, bumped);
        proof {
            assert(health_view(self.entries@) == health_set(
                health_view(old(self).entries@),
                tenant@,
                with_egress(health_of(health_view(old(self).entries@), tenant@), now),
            ));
        }
    }

    /// Notes one failure for `tenant`.
    pub fn record_failure(&mut self, tenant: &str)
        ensures
            health_view(final(self).entries@) == health_set(
                health_view(old(self).entries@),
                tenant@,
                with_failure(health_of(health_view(old(self).entries@), tenant@)),
            ),
            final(self).interval_ms == old(self).interval_ms,
    {
        let h = match self.position_of(tenant) {
            Some(i) => self.entries[i].1,
            None => TenantHealth {
                last_ingress: None,
                last_egress: None,
                ingress_count: 0,
                egress_count: 0,
                error_count: 0,
            },
        };
        let bumped = TenantHealth {
            error_count: if h.error_count == u64::MAX {
                u64::MAX
            } else {
                h.error_count + 1
            },
            ..h
        };
        self.set_entry(tenant, bumped);
    }

    /// A copy of the table for the reporter to log from, so that recording
    /// never waits on a log sink.
    pub fn snapshot(&self) -> (r: Vec<(String, TenantHealth)>)
        ensures
            health_view(r@) == health_view(self.entries@),
    {
        let mut out: Vec<(String, TenantHealth)> = Vec::new();
        let mut i: usize = 0;
        while i < self.entries.len()
            invariant
                0 <= i <= self.entries.len(),
                out@.len() == i,
                forall|j: int| 0 <= j < i
                    ==> #[trigger] out@[j].0@ == self.entries@[j].0@ && out@[j].1
                    == self.entries@[j].1,
            decreases self.entries.len() - i,
        {
            out.push((self.entries[i].0.clone(), self.entries[i].1));
            i += 1;
        }
        proof {
            assert(health_view(out@) =~= health_view(self.entries@));
        }
        out
    }
}

} // verus!

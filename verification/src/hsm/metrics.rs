//! Per-provider rolling counters and latency aggregates.
//!
//! Counters saturate at the integer bound instead of wrapping; latencies are
//! whole milliseconds and the rolling average is the integer quotient of the
//! accumulated latency by the number of completed operations.

use vstd::prelude::*;

use crate::hsm::HsmProviderType;

verus! {

/// Saturating increment: counters freeze at the bound instead of wrapping.
pub open spec fn inc64(x: u64) -> u64 {
    if x == u64::MAX {
        x
    } else {
        (x + 1) as u64
    }
}

/// Saturating addition on unsigned 64-bit counters.
pub open spec fn sat_add64(x: u64, y: u64) -> u64 {
    if x + y > u64::MAX {
        u64::MAX
    } else {
        (x + y) as u64
    }
}

/// Rolling counters of one backend.
#[derive(Clone, Copy, Debug, PartialEq, Eq, Structural)]
pub struct HsmMetrics {
    pub provider: HsmProviderType,
    pub uptime_seconds: u64,
    pub total_operations: u64,
    pub successful_operations: u64,
    pub failed_operations: u64,
    /// Sum of the latencies of all completed operations.
    pub total_latency_ms: u64,
    /// Integer rolling average: `total_latency_ms / total_operations`.
    pub average_latency_ms: u64,
    pub peak_latency_ms: u64,
    pub current_connections: u32,
    pub max_connections: u32,
    pub memory_usage_mb: u64,
}

impl HsmMetrics {
    /// The average is always the quotient of the accumulated latency by the
    /// operation count.
    pub open spec fn wf(&self) -> bool {
        self.average_latency_ms == if self.total_operations > 0 {
            self.total_latency_ms / self.total_operations
        } else {
            0
        }
    }

    /// Fresh counters for one backend, all zero.
    pub fn new(provider: HsmProviderType) -> (r: Self)
        ensures
            r.wf(),
            r.provider == provider,
            r.total_operations == 0,
            r.successful_operations == 0,
            r.failed_operations == 0,
            r.total_latency_ms == 0,
            r.average_latency_ms == 0,
            r.peak_latency_ms == 0,
            r.current_connections == 0,
            r.max_connections == 0,
            r.uptime_seconds == 0,
            r.memory_usage_mb == 0,
    {
        HsmMetrics {
            provider,
            uptime_seconds: 0,
            total_operations: 0,
            successful_operations: 0,
            failed_operations: 0,
            total_latency_ms: 0,
            average_latency_ms: 0,
            peak_latency_ms: 0,
            current_connections: 0,
            max_connections: 0,
            memory_usage_mb: 0,
        }
    }

    /// Folds one completed operation into the counters: the total always
    /// advances, exactly one of the success and failure counters advances,
    /// the peak keeps the largest latency seen, and the rolling average is
    /// recomputed from the accumulated latency.
    pub fn record_operation(&mut self, succeeded: bool, latency_ms: u64)
        requires
            old(self).wf(),
        ensures
            final(self).wf(),
            final(self).provider == old(self).provider,
            final(self).total_operations == inc64(old(self).total_operations),
            final(self).successful_operations == if succeeded {
                inc64(old(self).successful_operations)
            } else {
                old(self).successful_operations
            },
            final(self).failed_operations == if succeeded {
                old(self).failed_operations
            } else {
                inc64(old(self).failed_operations)
            },
            final(self).total_latency_ms == sat_add64(old(self).total_latency_ms, latency_ms),
            final(self).peak_latency_ms == if latency_ms > old(self).peak_latency_ms {
                latency_ms
            } else {
                old(self).peak_latency_ms
            },
            final(self).current_connections == old(self).current_connections,
            final(self).max_connections == old(self).max_connections,
            final(self).uptime_seconds == old(self).uptime_seconds,
            final(self).memory_usage_mb == old(self).memory_usage_mb,
    {
        if self.total_operations < u64::MAX {
            self.total_operations = self.total_operations + 1;
        }
        if succeeded {
            if self.successful_operations < u64::MAX {
                self.successful_operations = self.successful_operations + 1;
            }
        } else {
            if self.failed_operations < u64::MAX {
                self.failed_operations = self.failed_operations + 1;
            }
        }
        if latency_ms <= u64::MAX - self.total_latency_ms {
            self.total_latency_ms = self.total_latency_ms + latency_ms;
        } else {
            self.total_latency_ms = u64::MAX;
        }
        if latency_ms > self.peak_latency_ms {
            self.peak_latency_ms = latency_ms;
        }
        self.average_latency_ms = self.total_latency_ms / self.total_operations;
    }
}

/// The registry of per-backend counters held by the manager, keyed by
/// provider type; a backend gains an entry with its first completed
/// operation.
#[derive(Debug)]
pub struct MetricsRegistry {
    pub entries: Vec<HsmMetrics>,
}

/// The counters every entry of an aggregated report must satisfy: only
/// backends with at least one completed operation appear.
pub open spec fn aggregated_view(entries: Seq<HsmMetrics>) -> Seq<HsmMetrics> {
    entries.filter(|m: HsmMetrics| m.total_operations > 0)
}

impl MetricsRegistry {
    /// Entries are well formed and keyed uniquely by provider.
    pub open spec fn wf(&self) -> bool {
        &&& forall|i: int|
            0 <= i < self.entries@.len() ==> (#[trigger] self.entries@[i]).wf()
        &&& forall|i: int, j: int|
            0 <= i < j < self.entries@.len() ==> (#[trigger] self.entries@[i]).provider
                != (#[trigger] self.entries@[j]).provider
    }

    /// Whether some entry is keyed by `provider`.
    pub open spec fn has_entry(&self, provider: HsmProviderType) -> bool {
        exists|i: int|
            0 <= i < self.entries@.len() && (#[trigger] self.entries@[i]).provider == provider
    }

    /// The index of the entry keyed by `provider`.
    pub open spec fn entry_index(&self, provider: HsmProviderType) -> int {
        choose|i: int|
            0 <= i < self.entries@.len() && (#[trigger] self.entries@[i]).provider == provider
    }

    /// Creates an empty registry.
    pub fn new() -> (r: Self)
        ensures
            r.wf(),
            r.entries@.len() == 0,
    {
        MetricsRegistry { entries: Vec::new() }
    }

    /// Folds one completed operation into the counters of `provider`,
    /// creating that backend's entry on first use.  Entries of every other
    /// backend are untouched.
    pub fn record_operation(&mut self, provider: HsmProviderType, succeeded: bool, latency_ms: u64)
        requires
            old(self).wf(),
        ensures
            final(self).wf(),
            final(self).has_entry(provider),
            registry_post(old(self).entries@, final(self).entries@, provider, succeeded,
                latency_ms),
    {
        let found = self.find_entry(provider);
        match found {
            Some(i) => {
                let mut entry = self.entries[i];
                entry.record_operation(succeeded, latency_ms);
                self.entries.set(i, entry);
                proof {
                    let pre = old(self).entries@;
                    assert(pre[i as int].provider == provider);
                    let k = choose|n: int|
                        0 <= n < pre.len() && (#[trigger] pre[n]).provider == provider;
                    assert(pre[k].provider == provider);
                    if k < i as int {
                        assert(pre[k].provider != pre[i as int].provider);
                    }
                    if k > i as int {
                        assert(pre[i as int].provider != pre[k].provider);
                    }
                    assert(k == i as int);
                    assert(self.entries@[i as int].provider == provider);
                    assert(self.has_entry(provider));
                    assert(registry_post(pre, self.entries@, provider, succeeded, latency_ms));
                }
            },
            None => {
                let mut entry = HsmMetrics::new(provider);
                entry.record_operation(succeeded, latency_ms);
                self.entries.push(entry);
                proof {
                    assert(self.entries@[self.entries@.len() - 1].provider == provider);
                    assert(self.has_entry(provider));
                    assert(self.entries@.drop_last() =~= old(self).entries@);
                    assert(registry_post(old(self).entries@, self.entries@, provider, succeeded,
                        latency_ms));
                }
            },
        }
    }

    /// Index of the entry keyed by `provider`, if one exists.
    fn find_entry(&self, provider: HsmProviderType) -> (r: Option<usize>)
        ensures
            r is Some <==> self.has_entry(provider),
            r matches Some(i) ==> i < self.entries@.len() && self.entries@[i as int].provider
                == provider,
    {
        let n = self.entries.len();
        let mut i: usize = 0;
        while i < n
            invariant
                n == self.entries@.len(),
                0 <= i <= n,
                forall|j: int| 0 <= j < i ==> (#[trigger] self.entries@[j]).provider != provider,
            decreases n - i,
        {
            if self.entries[i].provider == provider {
                return Some(i);
            }
            i = i + 1;
        }
        None
    }

    /// The counters for every backend that has completed at least one
    /// operation; a backend with none is absent from the result.
    pub fn aggregated(&self) -> (r: Vec<HsmMetrics>)
        ensures
            r@ == aggregated_view(self.entries@),
    {
        let mut out: Vec<HsmMetrics> = Vec::new();
        let n = self.entries.len();
        let mut i: usize = 0;
        while i < n
            invariant
                n == self.entries@.len(),
                0 <= i <= n,
                out@ == aggregated_view(self.entries@.subrange(0, i as int)),
            decreases n - i,
        {
            let entry = self.entries[i];
            if entry.total_operations > 0 {
                out.push(entry);
            }
            proof {
                reveal(Seq::filter);
                assert(self.entries@.subrange(0, i as int + 1).drop_last() =~= self.entries@
                    .subrange(0, i as int));
            }
            i = i + 1;
        }
        proof {
            assert(self.entries@.subrange(0, n as int) == self.entries@);
        }
        out
    }
}

/// What folding one operation for `provider` does to the whole registry:
/// the keyed entry (or a fresh one) advances by `record_post`, every other
/// entry is untouched.
pub open spec fn registry_post(
    pre: Seq<HsmMetrics>,
    post: Seq<HsmMetrics>,
    provider: HsmProviderType,
    succeeded: bool,
    latency_ms: u64,
) -> bool {
    if exists|i: int| 0 <= i < pre.len() && (#[trigger] pre[i]).provider == provider {
        let k = choose|i: int| 0 <= i < pre.len() && (#[trigger] pre[i]).provider == provider;
        &&& post.len() == pre.len()
        &&& forall|i: int| 0 <= i < pre.len() && i != k ==> post[i] == pre[i]
        &&& record_post(pre[k], post[k], succeeded, latency_ms)
    } else {
        &&& post.len() == pre.len() + 1
        &&& post.drop_last() == pre
        &&& record_post(fresh_metrics(provider), post.last(), succeeded, latency_ms)
    }
}

/// What `HsmMetrics::record_operation` does to one entry, shared by the
/// registry contracts.
pub open spec fn record_post(
    before: HsmMetrics,
    after: HsmMetrics,
    succeeded: bool,
    latency_ms: u64,
) -> bool {
    &&& after.provider == before.provider
    &&& after.total_operations == inc64(before.total_operations)
    &&& after.successful_operations == if succeeded {
        inc64(before.successful_operations)
    } else {
        before.successful_operations
    }
    &&& after.failed_operations == if succeeded {
        before.failed_operations
    } else {
        inc64(before.failed_operations)
    }
    &&& after.total_latency_ms == sat_add64(before.total_latency_ms, latency_ms)
    &&& after.peak_latency_ms == if latency_ms > before.peak_latency_ms {
        latency_ms
    } else {
        before.peak_latency_ms
    }
}

/// The all-zero counters a backend starts from.
pub open spec fn fresh_metrics(provider: HsmProviderType) -> HsmMetrics {
    HsmMetrics {
        provider,
        uptime_seconds: 0,
        total_operations: 0,
        successful_operations: 0,
        failed_operations: 0,
        total_latency_ms: 0,
        average_latency_ms: 0,
        peak_latency_ms: 0,
        current_connections: 0,
        max_connections: 0,
        memory_usage_mb: 0,
    }
}

/// Idempotence of aggregation: with no intervening operations, two
/// aggregated reports drawn from the same registry state are identical.
pub proof fn lemma_aggregated_idempotent(
    first: Seq<HsmMetrics>,
    second: Seq<HsmMetrics>,
    entries: Seq<HsmMetrics>,
)
    requires
        first == aggregated_view(entries),
        second == aggregated_view(entries),
    ensures
        first == second,
{
}

} // verus!

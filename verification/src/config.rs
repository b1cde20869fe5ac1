//! The pool's configuration and startup plan. A configuration is fixed
//! before the pool starts and shared read-only by every worker: how many
//! workers race, the resolved target directory, the generator command, and
//! the passthrough options. The plan derives from it the two startup
//! numbers: the baseline artifact count (a failed probe counts as zero,
//! best-effort) and the report channel's capacity (four slots per worker,
//! the backpressure bound on how far workers can race ahead of the monitor).

use vstd::prelude::*;

verus! {

/// Why a configuration was rejected.
#[derive(Clone, Copy, Debug, PartialEq, Eq, Structural)]
pub enum ConfigError {
    /// The worker count was zero: a pool with no workers never produces a
    /// report and would wait forever.
    NoWorkers,
}

/// The worker count the pool actually runs with, from the one the
/// surrounding tool handed in: four when none was given, the request when it
/// was positive, and one — the smallest pool that can make progress — when
/// the request was zero.
pub fn effective_worker_count(requested: Option<u8>) -> (n: u8)
    ensures
        n >= 1,
        requested is None ==> n == 4,
        requested matches Some(k) ==> (k >= 1 ==> n == k),
        requested == Some(0u8) ==> n == 1,
{
    match requested {
        None => 4,
        Some(0) => 1,
        Some(k) => k,
    }
}

/// The immutable configuration the pool runs with.
pub struct PoolConfig {
    /// How many workers race. Always at least one.
    pub worker_count: u8,
    /// The resolved target directory the artifacts are counted in. The
    /// library never touches it; the surrounding code resolves it to an
    /// absolute path before the pool starts and fails fatally when it
    /// cannot.
    pub target_directory: String,
    /// The generator command: an absolute path or a resolvable name.
    pub command: String,
    /// Options passed through to the generator, in order, possibly empty.
    pub passthrough_options: Vec<String>,
}

impl PoolConfig {
    /// A configuration is well formed exactly when it has at least one
    /// worker.
    pub open spec fn wf(&self) -> bool {
        self.worker_count >= 1
    }

    /// Build a configuration. Succeeds if and only if `worker_count` is at
    /// least one, and keeps every field exactly as handed in.
    pub fn new(worker_count: u8, target_directory: String, command: String, passthrough_options: Vec<String>) -> (r: Result<
        PoolConfig,
        ConfigError,
    >)
        ensures
            r is Ok <==> worker_count >= 1,
            r matches Ok(c) ==> c.wf() && c.worker_count == worker_count && c.target_directory@
                == target_directory@ && c.command@ == command@ && c.passthrough_options@
                == passthrough_options@,
            r matches Err(e) ==> e == ConfigError::NoWorkers && worker_count == 0,
    {
        if worker_count == 0 {
            Err(ConfigError::NoWorkers)
        } else {
            Ok(
                PoolConfig {
                    worker_count,
                    target_directory,
                    command,
                    passthrough_options,
                },
            )
        }
    }
}

/// The startup numbers the pool is wired with.
#[derive(Clone, Copy, Debug, PartialEq, Eq, Structural)]
pub struct PoolPlan {
    /// How many workers to start.
    pub worker_count: u8,
    /// The artifact count measured once, before any worker starts; every
    /// completion decision compares against the running maximum seeded from
    /// it.
    pub baseline: usize,
    /// The report channel's capacity: four slots per worker, so a worker
    /// that races ahead of the monitor blocks instead of spawning unchecked.
    pub channel_capacity: usize,
}

/// The baseline from the single pre-start probe: the probed count, or zero
/// when the directory could not be read at that point (best-effort — the
/// pool still starts).
pub fn baseline_from_probe(probe: Option<usize>) -> (b: usize)
    ensures
        b == match probe {
            Some(c) => c,
            None => 0usize,
        },
{
    match probe {
        Some(c) => c,
        None => 0,
    }
}

/// Derive the startup plan from a well-formed configuration and the one
/// pre-start probe of the artifact count.
pub fn plan_pool(config: &PoolConfig, probe: Option<usize>) -> (p: PoolPlan)
    requires
        config.wf(),
    ensures
        p.worker_count == config.worker_count,
        p.baseline == match probe {
            Some(c) => c,
            None => 0usize,
        },
        p.channel_capacity == 4 * config.worker_count,
        p.channel_capacity >= 4,
{
    let baseline = baseline_from_probe(probe);
    let capacity: usize = 4 * (config.worker_count as usize);
    PoolPlan { worker_count: config.worker_count, baseline, channel_capacity: capacity }
}

} // verus!

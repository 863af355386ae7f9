use vstd::prelude::*;

verus! {

/// One schedule entry: a command to run in a target container, together with
/// its cron expression, an optional file to receive captured standard output,
/// and a flag asking for one retried run before the scheduler starts.
pub struct CronJob {
    pub name: String,
    pub at: String,
    pub container: String,
    pub command: Vec<String>,
    pub output_file: Option<String>,
    pub run_on_startup: bool,
}

impl CronJob {
    /// A job definition is well formed when its command vector is non-empty.
    pub open spec fn wf(self) -> bool {
        self.command@.len() > 0
    }
}

/// The full set of job definitions, read once at process start and never
/// mutated afterwards.
pub struct Config {
    pub jobs: Vec<CronJob>,
}

impl Config {
    pub open spec fn wf(self) -> bool {
        forall|i: int| 0 <= i < self.jobs@.len() ==> #[trigger] self.jobs@[i].wf()
    }
}

/// Positions of the startup-flagged jobs, in their original listed order.
///
/// The indices come back strictly increasing, each names a job with
/// `run_on_startup` set, and every such job appears: the startup runner that
/// walks this list therefore runs exactly the startup jobs, in the order the
/// configuration listed them.
pub fn startup_indices(jobs: &Vec<CronJob>) -> (idxs: Vec<usize>)
    ensures
        forall|k: int|
            0 <= k < idxs@.len() ==> #[trigger] idxs@[k] < jobs@.len()
                && jobs@[idxs@[k] as int].run_on_startup,
        forall|k1: int, k2: int| 0 <= k1 < k2 < idxs@.len() ==> idxs@[k1] < idxs@[k2],
        forall|j: int|
            0 <= j < jobs@.len() && jobs@[j].run_on_startup ==> exists|k: int|
                0 <= k < idxs@.len() && idxs@[k] == j,
{
    let mut idxs: Vec<usize> = Vec::new();
    let mut i: usize = 0;
    while i < jobs.len()
        invariant
            i <= jobs@.len(),
            forall|k: int|
                0 <= k < idxs@.len() ==> #[trigger] idxs@[k] < i
                    && jobs@[idxs@[k] as int].run_on_startup,
            forall|k1: int, k2: int| 0 <= k1 < k2 < idxs@.len() ==> idxs@[k1] < idxs@[k2],
            forall|j: int|
                0 <= j < i && jobs@[j].run_on_startup ==> exists|k: int|
                    0 <= k < idxs@.len() && idxs@[k] == j,
        decreases jobs@.len() - i,
    {
        if jobs[i].run_on_startup {
            let ghost olds = idxs@;
            idxs.push(i);
            proof {
                assert forall|j: int|
                    0 <= j < i + 1 && jobs@[j].run_on_startup implies exists|k: int|
                    0 <= k < idxs@.len() && idxs@[k] == j by {
                    if j < i {
                        let k0 = choose|k: int| 0 <= k < olds.len() && olds[k] == j;
                        assert(idxs@[k0] == j);
                    } else {
                        assert(idxs@[olds.len() as int] == j);
                    }
                }
            }
        }
        i = i + 1;
    }
    idxs
}

} // verus!

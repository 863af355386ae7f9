use vstd::prelude::*;

verus! {

/// The two termination signals the process listens for. They are not
/// distinguished for behaviour, only for the log line.
#[derive(Clone, Copy, PartialEq, Eq, Structural, Debug)]
pub enum ShutdownSignal {
    Interrupt,
    Terminate,
}

/// Lifecycle model of the scheduler: which jobs (by index into the loaded
/// configuration) are registered, and whether triggers may fire. A trigger
/// for a job can fire only while the scheduler runs and the job is
/// registered; stopping the scheduler therefore ends all firing, while
/// attempts already in flight simply run to completion on their own.
pub struct SchedulerState {
    pub registered: Vec<usize>,
    pub running: bool,
}

impl SchedulerState {
    /// A trigger for the given job may fire now.
    pub open spec fn may_fire(self, job: usize) -> bool {
        self.running && self.registered@.contains(job)
    }

    /// A fresh scheduler: nothing registered, not yet firing.
    pub fn new() -> (s: Self)
        ensures
            s.registered@ == Seq::<usize>::empty(),
            !s.running,
    {
        SchedulerState { registered: Vec::new(), running: false }
    }

    /// Register one job's schedule expression. Registration order is kept.
    pub fn register(&mut self, job: usize)
        ensures
            final(self).registered@ == old(self).registered@.push(job),
            final(self).running == old(self).running,
    {
        self.registered.push(job);
    }

    /// Register every job of the loaded configuration, in listed order.
    pub fn register_all(&mut self, job_count: usize)
        requires
            old(self).registered@.len() == 0,
        ensures
            final(self).registered@.len() == job_count,
            forall|k: int| 0 <= k < job_count ==> #[trigger] final(self).registered@[k] == k,
            final(self).running == old(self).running,
    {
        let mut i: usize = 0;
        while i < job_count
            invariant
                i <= job_count,
                self.registered@.len() == i,
                forall|k: int| 0 <= k < i ==> #[trigger] self.registered@[k] == k,
                self.running == old(self).running,
            decreases job_count - i,
        {
            self.register(i);
            i = i + 1;
        }
    }

    /// Whether a trigger for the given job may fire now.
    pub fn can_fire(&self, job: usize) -> (b: bool)
        ensures
            b == self.may_fire(job),
    {
        if !self.running {
            return false;
        }
        let mut i: usize = 0;
        while i < self.registered.len()
            invariant
                self.running,
                i <= self.registered@.len(),
                forall|k: int| 0 <= k < i ==> self.registered@[k] != job,
            decreases self.registered@.len() - i,
        {
            if self.registered[i] == job {
                proof {
                    assert(self.registered@[i as int] == job);
                    assert(self.registered@.contains(job));
                }
                return true;
            }
            i = i + 1;
        }
        false
    }

    /// Start firing triggers for the registered jobs.
    pub fn start(&mut self)
        ensures
            final(self).registered@ == old(self).registered@,
            final(self).running,
    {
        self.running = true;
    }

    /// Stop the scheduler: no trigger fires from now on. What was registered
    /// is remembered, but `may_fire` is false for every job.
    pub fn stop(&mut self)
        ensures
            final(self).registered@ == old(self).registered@,
            !final(self).running,
            forall|job: usize| !final(self).may_fire(job),
    {
        self.running = false;
    }
}

/// The log label for a received termination signal.
pub fn signal_label(sig: ShutdownSignal) -> (r: &'static str)
    ensures
        sig is Interrupt ==> r@ == "Received SIGINT (Ctrl+C)"@,
        sig is Terminate ==> r@ == "Received SIGTERM"@,
{
    match sig {
        ShutdownSignal::Interrupt => "Received SIGINT (Ctrl+C)",
        ShutdownSignal::Terminate => "Received SIGTERM",
    }
}

/// What the process does once the shutdown coordinator returns: stop the
/// scheduler, so that no new scheduled firing can occur, and report which
/// signal ended the run. In-flight attempts are not cancelled.
pub fn shutdown(s: &mut SchedulerState, sig: ShutdownSignal) -> (label: &'static str)
    ensures
        final(s).registered@ == old(s).registered@,
        !final(s).running,
        forall|job: usize| !final(s).may_fire(job),
        sig is Interrupt ==> label@ == "Received SIGINT (Ctrl+C)"@,
        sig is Terminate ==> label@ == "Received SIGTERM"@,
{
    s.stop();
    signal_label(sig)
}

/// Once the scheduler is stopped, no job can fire — however the run got
/// there, and whatever was registered.
pub proof fn lemma_stopped_scheduler_fires_nothing(s: SchedulerState)
    requires
        !s.running,
    ensures
        forall|job: usize| !s.may_fire(job),
{
}

} // verus!

use vstd::prelude::*;
use crate::error::AppError;
use crate::job::CronJob;

verus! {

/// Which pipe of the executed command a chunk arrived on. The runtime can
/// also hand back chunks from other channels (console, stdin echo); those
/// are ignored.
#[derive(Clone, Copy, PartialEq, Eq, Structural, Debug)]
pub enum OutputChannel {
    StdOut,
    StdErr,
    Other,
}

/// One piece of output as it arrives from the runtime's demultiplexed
/// stream: a channel tag and the bytes.
pub struct OutputChunk {
    pub channel: OutputChannel,
    pub bytes: Vec<u8>,
}

/// How one finished attempt is reported. Standard-error output never makes
/// the attempt a hard failure; it only changes the completion report.
#[derive(Clone, Copy, PartialEq, Eq, Structural, Debug)]
pub enum AttemptOutcome {
    CompletedClean,
    CompletedWithErrors,
}

/// One run of a job's command: the two output accumulators. Each attempt
/// owns its own accumulators, so concurrent attempts cannot share bytes.
pub struct ExecutionAttempt {
    pub stdout: Vec<u8>,
    pub stderr: Vec<u8>,
}

/// The bytes that the chunks of the given channel carry, concatenated in
/// arrival order. Within one channel, arrival order is preserved; nothing is
/// said about the relative order of the two channels.
pub open spec fn channel_bytes(chunks: Seq<OutputChunk>, c: OutputChannel) -> Seq<u8>
    decreases chunks.len(),
{
    if chunks.len() == 0 {
        Seq::empty()
    } else {
        channel_bytes(chunks.drop_last(), c) + (if chunks.last().channel == c {
            chunks.last().bytes@
        } else {
            Seq::<u8>::empty()
        })
    }
}

fn push_all(dst: &mut Vec<u8>, bytes: &[u8])
    ensures
        final(dst)@ == old(dst)@ + bytes@,
{
    let ghost dst0 = old(dst)@;
    let mut i: usize = 0;
    while i < bytes.len()
        invariant
            i <= bytes@.len(),
            dst@ == dst0 + bytes@.take(i as int),
        decreases bytes@.len() - i,
    {
        let b = bytes[i];
        dst.push(b);
        proof {
            assert(bytes@.take(i as int + 1) =~= bytes@.take(i as int).push(bytes@[i as int]));
            assert(dst0 + bytes@.take(i as int + 1) =~= (dst0 + bytes@.take(i as int)).push(
                bytes@[i as int],
            ));
        }
        i = i + 1;
    }
    proof {
        assert(bytes@.take(bytes@.len() as int) =~= bytes@);
    }
}

impl ExecutionAttempt {
    /// A fresh attempt: both accumulators empty.
    pub fn new() -> (a: Self)
        ensures
            a.stdout@ == Seq::<u8>::empty(),
            a.stderr@ == Seq::<u8>::empty(),
    {
        ExecutionAttempt { stdout: Vec::new(), stderr: Vec::new() }
    }

    /// Append one arriving chunk to the accumulator of its channel; chunks
    /// from any other channel are dropped. The result says whether the chunk
    /// should be surfaced in the log right away — exactly the standard-error
    /// chunks are, for live visibility into a failing command.
    pub fn record_chunk(&mut self, channel: OutputChannel, bytes: &[u8]) -> (surface: bool)
        ensures
            final(self).stdout@ == (if channel is StdOut {
                old(self).stdout@ + bytes@
            } else {
                old(self).stdout@
            }),
            final(self).stderr@ == (if channel is StdErr {
                old(self).stderr@ + bytes@
            } else {
                old(self).stderr@
            }),
            surface == (channel is StdErr),
    {
        match channel {
            OutputChannel::StdOut => {
                push_all(&mut self.stdout, bytes);
                false
            },
            OutputChannel::StdErr => {
                push_all(&mut self.stderr, bytes);
                true
            },
            OutputChannel::Other => false,
        }
    }

    /// How the finished attempt is reported: clean exactly when the command
    /// wrote nothing to standard error. This is only a report — an attempt
    /// with standard-error output is not a hard failure.
    pub fn completion_outcome(&self) -> (o: AttemptOutcome)
        ensures
            o == (if self.stderr@.len() == 0 {
                AttemptOutcome::CompletedClean
            } else {
                AttemptOutcome::CompletedWithErrors
            }),
    {
        if self.stderr.len() == 0 {
            AttemptOutcome::CompletedClean
        } else {
            AttemptOutcome::CompletedWithErrors
        }
    }
}

/// Consume a whole stream of chunks: each accumulator ends up holding
/// exactly the concatenated bytes of its own channel, in arrival order.
pub fn capture_output(chunks: &Vec<OutputChunk>) -> (a: ExecutionAttempt)
    ensures
        a.stdout@ == channel_bytes(chunks@, OutputChannel::StdOut),
        a.stderr@ == channel_bytes(chunks@, OutputChannel::StdErr),
{
    let mut a = ExecutionAttempt::new();
    let mut i: usize = 0;
    while i < chunks.len()
        invariant
            i <= chunks@.len(),
            a.stdout@ == channel_bytes(chunks@.take(i as int), OutputChannel::StdOut),
            a.stderr@ == channel_bytes(chunks@.take(i as int), OutputChannel::StdErr),
        decreases chunks@.len() - i,
    {
        let c = &chunks[i];
        a.record_chunk(c.channel, c.bytes.as_slice());
        proof {
            assert(chunks@.take(i as int + 1).drop_last() =~= chunks@.take(i as int));
            assert(chunks@.take(i as int + 1).last() == chunks@[i as int]);
        }
        i = i + 1;
    }
    proof {
        assert(chunks@.take(chunks@.len() as int) =~= chunks@);
    }
    a
}

/// What the engine must persist once the stream has ended: the full
/// standard-output buffer, exactly when the job names an output file. The
/// file sink overwrites, so the file afterwards holds these bytes and
/// nothing else.
pub fn output_to_write<'a>(job: &CronJob, attempt: &'a ExecutionAttempt) -> (r: Option<
    &'a Vec<u8>,
>)
    ensures
        (r is Some) <==> (job.output_file is Some),
        r matches Some(bytes) ==> bytes@ == attempt.stdout@,
{
    match &job.output_file {
        Some(_path) => Some(&attempt.stdout),
        None => None,
    }
}

/// Final report of an attempt whose stream ended, given how the output-file
/// write went (`None` when no write was needed or it succeeded). A failed
/// write is the only hard failure left at this stage; otherwise the attempt
/// completes, with errors exactly when standard error was non-empty.
pub fn classify_completion(attempt: &ExecutionAttempt, write_failure: Option<String>) -> (r:
    Result<AttemptOutcome, AppError>)
    ensures
        write_failure is None ==> r == Ok::<AttemptOutcome, AppError>(
            if attempt.stderr@.len() == 0 {
                AttemptOutcome::CompletedClean
            } else {
                AttemptOutcome::CompletedWithErrors
            },
        ),
        write_failure matches Some(m) ==> r == Err::<AttemptOutcome, AppError>(AppError::Io(m)),
{
    match write_failure {
        Some(m) => Err(AppError::Io(m)),
        None => Ok(attempt.completion_outcome()),
    }
}

/// One arriving chunk of an interleaved trace in which two jobs' streams are
/// being consumed concurrently, tagged with the job it belongs to.
pub struct TaggedChunk {
    pub first_job: bool,
    pub chunk: OutputChunk,
}

/// The subsequence of one job's own chunks within an interleaved trace, in
/// arrival order.
pub open spec fn job_chunks(trace: Seq<TaggedChunk>, first_job: bool) -> Seq<OutputChunk>
    decreases trace.len(),
{
    if trace.len() == 0 {
        Seq::empty()
    } else {
        job_chunks(trace.drop_last(), first_job) + (if trace.last().first_job == first_job {
            seq![trace.last().chunk]
        } else {
            Seq::<OutputChunk>::empty()
        })
    }
}

/// Consume an arbitrarily interleaved trace of two jobs' output streams,
/// each chunk going to the attempt of its own job. Each attempt ends up with
/// exactly the bytes of its own job's channels, in arrival order: however
/// the two streams interleave, no byte of one attempt leaks into the other's
/// accumulators.
pub fn capture_interleaved(trace: &Vec<TaggedChunk>) -> (r: (ExecutionAttempt, ExecutionAttempt))
    ensures
        r.0.stdout@ == channel_bytes(job_chunks(trace@, true), OutputChannel::StdOut),
        r.0.stderr@ == channel_bytes(job_chunks(trace@, true), OutputChannel::StdErr),
        r.1.stdout@ == channel_bytes(job_chunks(trace@, false), OutputChannel::StdOut),
        r.1.stderr@ == channel_bytes(job_chunks(trace@, false), OutputChannel::StdErr),
{
    let mut first = ExecutionAttempt::new();
    let mut second = ExecutionAttempt::new();
    let mut i: usize = 0;
    while i < trace.len()
        invariant
            i <= trace@.len(),
            first.stdout@ == channel_bytes(
                job_chunks(trace@.take(i as int), true),
                OutputChannel::StdOut,
            ),
            first.stderr@ == channel_bytes(
                job_chunks(trace@.take(i as int), true),
                OutputChannel::StdErr,
            ),
            second.stdout@ == channel_bytes(
                job_chunks(trace@.take(i as int), false),
                OutputChannel::StdOut,
            ),
            second.stderr@ == channel_bytes(
                job_chunks(trace@.take(i as int), false),
                OutputChannel::StdErr,
            ),
        decreases trace@.len() - i,
    {
        let t = &trace[i];
        if t.first_job {
            first.record_chunk(t.chunk.channel, t.chunk.bytes.as_slice());
        } else {
            second.record_chunk(t.chunk.channel, t.chunk.bytes.as_slice());
        }
        proof {
            lemma_job_chunks_step(trace@, i as int);
        }
        i = i + 1;
    }
    proof {
        assert(trace@.take(trace@.len() as int) =~= trace@);
    }
    (first, second)
}

/// Extending an interleaved trace by one chunk extends only the chunk
/// sequence of its own job, and only the accumulator of its channel.
proof fn lemma_job_chunks_step(trace: Seq<TaggedChunk>, i: int)
    requires
        0 <= i < trace.len(),
    ensures
        forall|b: bool|
            #[trigger] job_chunks(trace.take(i + 1), b) == (if trace[i].first_job == b {
                job_chunks(trace.take(i), b) + seq![trace[i].chunk]
            } else {
                job_chunks(trace.take(i), b)
            }),
        forall|b: bool, c: OutputChannel|
            #[trigger] channel_bytes(job_chunks(trace.take(i + 1), b), c) == (if trace[i].first_job
                == b && trace[i].chunk.channel == c {
                channel_bytes(job_chunks(trace.take(i), b), c) + trace[i].chunk.bytes@
            } else {
                channel_bytes(job_chunks(trace.take(i), b), c)
            }),
{
    assert(trace.take(i + 1).drop_last() =~= trace.take(i));
    assert(trace.take(i + 1).last() == trace[i]);
    assert forall|b: bool| #[trigger] job_chunks(trace.take(i + 1), b) == (if trace[i].first_job
        == b {
        job_chunks(trace.take(i), b) + seq![trace[i].chunk]
    } else {
        job_chunks(trace.take(i), b)
    }) by {
        if trace[i].first_job != b {
            assert(job_chunks(trace.take(i), b) + Seq::<OutputChunk>::empty() =~= job_chunks(
                trace.take(i),
                b,
            ));
        }
    }
    assert forall|b: bool, c: OutputChannel|
        #[trigger] channel_bytes(job_chunks(trace.take(i + 1), b), c) == (if trace[i].first_job == b
            && trace[i].chunk.channel == c {
            channel_bytes(job_chunks(trace.take(i), b), c) + trace[i].chunk.bytes@
        } else {
            channel_bytes(job_chunks(trace.take(i), b), c)
        }) by {
        if trace[i].first_job == b {
            let jc = job_chunks(trace.take(i), b);
            let ext = jc + seq![trace[i].chunk];
            assert(ext.drop_last() =~= jc);
            assert(ext.last() == trace[i].chunk);
            if trace[i].chunk.channel != c {
                assert(channel_bytes(jc, c) + Seq::<u8>::empty() =~= channel_bytes(jc, c));
            }
        }
    }
}

/// A scheduled firing absorbs its error instead of propagating it: a failing
/// job must never take the scheduler or its neighbours down. The result is
/// what remains to log — the error itself on failure, nothing on success.
pub fn absorb_error(r: Result<AttemptOutcome, AppError>) -> (e: Option<AppError>)
    ensures
        e == (match r {
            Ok(_) => None::<AppError>,
            Err(err) => Some(err),
        }),
{
    match r {
        Ok(_) => None,
        Err(err) => Some(err),
    }
}

} // verus!

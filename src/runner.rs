//! Decisions of the bounded process runner: the per-stream byte ceilings and
//! the outcome of a finished run. Spawning, piping and the deadline race are
//! left to the caller, which feeds chunks in and hands the results back.
use vstd::prelude::*;

use crate::protocol::{preview_bytes, preview_spec, stream_limit_spec, OutputStream, TranslationError};

verus! {

/// Bytes read from one output stream, kept under that stream's ceiling.
pub struct LimitedOutput {
    stream: OutputStream,
    limit_bytes: usize,
    buf: Vec<u8>,
}

impl LimitedOutput {
    pub closed spec fn stream_spec(&self) -> OutputStream {
        self.stream
    }

    pub closed spec fn limit_spec(&self) -> usize {
        self.limit_bytes
    }

    pub closed spec fn bytes_spec(&self) -> Seq<u8> {
        self.buf@
    }

    /// What is kept never exceeds the ceiling.
    pub closed spec fn wf(&self) -> bool {
        self.buf@.len() <= self.limit_bytes
    }

    /// An empty collector with the stream's own ceiling.
    pub fn new(stream: OutputStream) -> (r: Self)
        ensures
            r.wf(),
            r.stream_spec() == stream,
            r.limit_spec() == stream_limit_spec(stream),
            r.bytes_spec() == Seq::<u8>::empty(),
    {
        LimitedOutput { stream, limit_bytes: stream.limit_bytes(), buf: Vec::new() }
    }

    /// An empty collector with a ceiling of `limit_bytes`.
    pub fn with_limit(stream: OutputStream, limit_bytes: usize) -> (r: Self)
        ensures
            r.wf(),
            r.stream_spec() == stream,
            r.limit_spec() == limit_bytes,
            r.bytes_spec() == Seq::<u8>::empty(),
    {
        LimitedOutput { stream, limit_bytes, buf: Vec::new() }
    }

    /// Takes one chunk read from the stream. A chunk that would carry the
    /// total past the ceiling fails `OutputTooLarge` and is not kept.
    pub fn push_chunk(&mut self, chunk: &[u8]) -> (r: Result<(), TranslationError>)
        requires
            old(self).wf(),
        ensures
            final(self).wf(),
            final(self).stream_spec() == old(self).stream_spec(),
            final(self).limit_spec() == old(self).limit_spec(),
            old(self).bytes_spec().len() + chunk@.len() > old(self).limit_spec() ==> {
                &&& r matches Err(TranslationError::OutputTooLarge { stream, limit_bytes })
                &&& stream == old(self).stream_spec()
                &&& limit_bytes == old(self).limit_spec()
                &&& final(self).bytes_spec() == old(self).bytes_spec()
            },
            old(self).bytes_spec().len() + chunk@.len() <= old(self).limit_spec() ==> {
                &&& r is Ok
                &&& final(self).bytes_spec() == old(self).bytes_spec() + chunk@
            },
    {
        if chunk.len() > self.limit_bytes - self.buf.len() {
            return Err(
                TranslationError::OutputTooLarge {
                    stream: self.stream,
                    limit_bytes: self.limit_bytes,
                },
            );
        }
        let mut k: usize = 0;
        let ghost start = self.buf@;
        while k < chunk.len()
            invariant
                k <= chunk@.len(),
                self.buf@ == start + chunk@.subrange(0, k as int),
                start.len() + chunk@.len() <= self.limit_bytes,
                self.stream == old(self).stream,
                self.limit_bytes == old(self).limit_bytes,
            decreases chunk@.len() - k,
        {
            self.buf.push(chunk[k]);
            k = k + 1;
            assert(self.buf@ =~= start + chunk@.subrange(0, k as int));
        }
        assert(chunk@.subrange(0, chunk@.len() as int) =~= chunk@);
        Ok(())
    }

    /// The bytes collected so far.
    pub fn into_bytes(self) -> (r: Vec<u8>)
        ensures
            r@ == self.bytes_spec(),
    {
        self.buf
    }
}

/// Fails `EmptyCommand` when there is no program to run.
pub fn check_command(command: &Vec<String>) -> (r: Result<(), TranslationError>)
    ensures
        command@.len() == 0 <==> r matches Err(TranslationError::EmptyCommand),
        command@.len() > 0 <==> r is Ok,
{
    if command.len() == 0 {
        Err(TranslationError::EmptyCommand)
    } else {
        Ok(())
    }
}

/// The outcome of a run whose process exited with `exit_code` (`None` when
/// a signal ended it) and whose streams were drained with the given results.
/// A stream failure comes first, stdout's before stderr's, whatever the exit
/// code; then a non-zero exit fails with previews of both streams; else the
/// stdout bytes are the outcome.
pub fn command_outcome(
    exit_code: Option<i32>,
    stdout: Result<Vec<u8>, TranslationError>,
    stderr: Result<Vec<u8>, TranslationError>,
) -> (r: Result<Vec<u8>, TranslationError>)
    ensures
        match (stdout, stderr) {
            (Err(e), _) => r == Err::<Vec<u8>, TranslationError>(e),
            (Ok(_), Err(e)) => r == Err::<Vec<u8>, TranslationError>(e),
            (Ok(out), Ok(err)) => if exit_code == Some(0i32) {
                r matches Ok(o) && o@ == out@
            } else {
                &&& r matches Err(
                    TranslationError::NonZeroExit { code, stderr_preview, stdout_preview },
                )
                &&& code == exit_code
                &&& stderr_preview@ == preview_spec(err@)
                &&& stdout_preview@ == preview_spec(out@)
            },
        },
{
    let out = match stdout {
        Ok(o) => o,
        Err(e) => return Err(e),
    };
    let err = match stderr {
        Ok(b) => b,
        Err(e) => return Err(e),
    };
    match exit_code {
        Some(0i32) => Ok(out),
        _ => Err(
            TranslationError::NonZeroExit {
                code: exit_code,
                stderr_preview: preview_bytes(err.as_slice()),
                stdout_preview: preview_bytes(out.as_slice()),
            },
        ),
    }
}

} // verus!

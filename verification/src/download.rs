use vstd::prelude::*;

use crate::error::YouDlError;

verus! {

/// Where one transfer stands: the stream request was issued (`Opening`), the
/// destination file is being created (`CreatingFile`), body chunks alternate
/// between arriving (`Receiving`) and being appended to the file
/// (`Writing`), and the transfer ends in `Completed` or `Failed`. There is
/// no retry and no cancellation transition.
#[derive(Debug, Clone, Copy, PartialEq, Eq, Structural)]
pub enum DownloadPhase {
    Opening,
    CreatingFile,
    Receiving,
    Writing,
    Completed,
    Failed,
}

/// What the outside world reports to the transfer: the response head with
/// its optional declared content length, the outcome of creating the
/// destination file, one body chunk (its byte length) or the failure to read
/// it, the outcome of appending it, and the end of the body.
pub enum DownloadEvent {
    Opened { content_length: Option<u64> },
    OpenFailed { detail: String },
    FileCreated,
    FileCreateFailed { detail: String },
    ChunkReceived { len: u64 },
    ChunkFailed { detail: String },
    ChunkWritten,
    WriteFailed { detail: String },
    BodyEnded,
}

/// What the caller must do next: create the destination file, read the next
/// chunk, append the received chunk, report success, or surface the error.
#[derive(Debug, Clone, Copy, PartialEq, Eq, Structural)]
pub enum DownloadAction {
    CreateFile,
    ReadChunk,
    WriteChunk,
    Finish,
    Abort,
}

/// The progress accounting and failure classification of one chunked
/// network-to-disk transfer. `total` is the declared content length when the
/// response carried one, and the unbounded sentinel `u64::MAX` otherwise —
/// `length_known` records which, so the sentinel is never mistaken for a
/// real length. `received` advances by each arriving chunk's byte length.
pub struct StreamingDownloader {
    pub title: String,
    pub phase: DownloadPhase,
    pub length_known: bool,
    pub total: u64,
    pub received: u64,
    pub error: Option<YouDlError>,
}

/// Which events can arrive in which phase; the two terminal phases accept
/// none.
pub open spec fn event_fits(phase: DownloadPhase, e: DownloadEvent) -> bool {
    match e {
        DownloadEvent::Opened { .. } => phase is Opening,
        DownloadEvent::OpenFailed { .. } => phase is Opening,
        DownloadEvent::FileCreated => phase is CreatingFile,
        DownloadEvent::FileCreateFailed { .. } => phase is CreatingFile,
        DownloadEvent::ChunkReceived { .. } => phase is Receiving,
        DownloadEvent::ChunkFailed { .. } => phase is Receiving,
        DownloadEvent::BodyEnded => phase is Receiving,
        DownloadEvent::ChunkWritten => phase is Writing,
        DownloadEvent::WriteFailed { .. } => phase is Writing,
    }
}

/// `a + b`, saturating at the sentinel.
pub open spec fn sat_add(a: u64, b: u64) -> u64 {
    if a + b <= u64::MAX {
        (a + b) as u64
    } else {
        u64::MAX
    }
}

/// The transfer state after `e`: network-layer failures (opening the stream,
/// reading a chunk) classify as `InvalidResponse`, local-environment
/// failures (creating the file, appending to it) as `Application`; a chunk's
/// arrival advances `received` by its length.
pub open spec fn spec_step(pre: StreamingDownloader, e: DownloadEvent) -> StreamingDownloader {
    match e {
        DownloadEvent::Opened { content_length } => StreamingDownloader {
            phase: DownloadPhase::CreatingFile,
            length_known: content_length is Some,
            total: match content_length {
                Some(n) => n,
                None => u64::MAX,
            },
            ..pre
        },
        DownloadEvent::OpenFailed { detail } => StreamingDownloader {
            phase: DownloadPhase::Failed,
            error: Some(YouDlError::InvalidResponse(detail)),
            ..pre
        },
        DownloadEvent::FileCreated => StreamingDownloader { phase: DownloadPhase::Receiving, ..pre },
        DownloadEvent::FileCreateFailed { detail } => StreamingDownloader {
            phase: DownloadPhase::Failed,
            error: Some(YouDlError::Application(detail)),
            ..pre
        },
        DownloadEvent::ChunkReceived { len } => StreamingDownloader {
            phase: DownloadPhase::Writing,
            received: sat_add(pre.received, len),
            ..pre
        },
        DownloadEvent::ChunkFailed { detail } => StreamingDownloader {
            phase: DownloadPhase::Failed,
            error: Some(YouDlError::InvalidResponse(detail)),
            ..pre
        },
        DownloadEvent::ChunkWritten => StreamingDownloader { phase: DownloadPhase::Receiving, ..pre },
        DownloadEvent::WriteFailed { detail } => StreamingDownloader {
            phase: DownloadPhase::Failed,
            error: Some(YouDlError::Application(detail)),
            ..pre
        },
        DownloadEvent::BodyEnded => StreamingDownloader { phase: DownloadPhase::Completed, ..pre },
    }
}

/// What the caller must do after `e`.
pub open spec fn spec_action(e: DownloadEvent) -> DownloadAction {
    match e {
        DownloadEvent::Opened { .. } => DownloadAction::CreateFile,
        DownloadEvent::OpenFailed { .. } => DownloadAction::Abort,
        DownloadEvent::FileCreated => DownloadAction::ReadChunk,
        DownloadEvent::FileCreateFailed { .. } => DownloadAction::Abort,
        DownloadEvent::ChunkReceived { .. } => DownloadAction::WriteChunk,
        DownloadEvent::ChunkFailed { .. } => DownloadAction::Abort,
        DownloadEvent::ChunkWritten => DownloadAction::ReadChunk,
        DownloadEvent::WriteFailed { .. } => DownloadAction::Abort,
        DownloadEvent::BodyEnded => DownloadAction::Finish,
    }
}

impl StreamingDownloader {
    /// An error is recorded exactly in the `Failed` phase.
    pub open spec fn wf(self) -> bool {
        self.error is Some <==> self.phase is Failed
    }

    /// A fresh transfer for the video named `title`, before the response
    /// head has been seen.
    pub fn start(title: &str) -> (d: StreamingDownloader)
        ensures
            d.title@ == title@,
            d.phase is Opening,
            !d.length_known,
            d.total == u64::MAX,
            d.received == 0,
            d.error is None,
            d.wf(),
    {
        StreamingDownloader {
            title: title.to_owned(),
            phase: DownloadPhase::Opening,
            length_known: false,
            total: u64::MAX,
            received: 0,
            error: None,
        }
    }

    /// Advances the transfer by one event and says what to do next.
    pub fn step(&mut self, e: DownloadEvent) -> (a: DownloadAction)
        requires
            event_fits(old(self).phase, e),
        ensures
            *final(self) == spec_step(*old(self), e),
            a == spec_action(e),
    {
        match e {
            DownloadEvent::Opened { content_length } => {
                self.phase = DownloadPhase::CreatingFile;
                self.length_known = content_length.is_some();
                self.total = match content_length {
                    Some(n) => n,
                    None => u64::MAX,
                };
                DownloadAction::CreateFile
            },
            DownloadEvent::OpenFailed { detail } => {
                self.phase = DownloadPhase::Failed;
                self.error = Some(YouDlError::InvalidResponse(detail));
                DownloadAction::Abort
            },
            DownloadEvent::FileCreated => {
                self.phase = DownloadPhase::Receiving;
                DownloadAction::ReadChunk
            },
            DownloadEvent::FileCreateFailed { detail } => {
                self.phase = DownloadPhase::Failed;
                self.error = Some(YouDlError::Application(detail));
                DownloadAction::Abort
            },
            DownloadEvent::ChunkReceived { len } => {
                self.phase = DownloadPhase::Writing;
                self.received = match self.received.checked_add(len) {
                    Some(s) => s,
                    None => u64::MAX,
                };
                DownloadAction::WriteChunk
            },
            DownloadEvent::ChunkFailed { detail } => {
                self.phase = DownloadPhase::Failed;
                self.error = Some(YouDlError::InvalidResponse(detail));
                DownloadAction::Abort
            },
            DownloadEvent::ChunkWritten => {
                self.phase = DownloadPhase::Receiving;
                DownloadAction::ReadChunk
            },
            DownloadEvent::WriteFailed { detail } => {
                self.phase = DownloadPhase::Failed;
                self.error = Some(YouDlError::Application(detail));
                DownloadAction::Abort
            },
            DownloadEvent::BodyEnded => {
                self.phase = DownloadPhase::Completed;
                DownloadAction::Finish
            },
        }
    }

    /// The success message reported once the body has ended.
    pub fn success_message(&self) -> (r: String)
        ensures
            r@ == "Successfully downloaded: "@ + self.title@,
    {
        let mut m = String::from_str("Successfully downloaded: ");
        m.append(self.title.as_str());
        m
    }
}

/// A legal step keeps the transfer well-formed.
pub proof fn lemma_step_wf(pre: StreamingDownloader, e: DownloadEvent)
    requires
        pre.wf(),
        event_fits(pre.phase, e),
    ensures
        spec_step(pre, e).wf(),
{
}

/// The total byte length of a chunk sequence.
pub open spec fn sum(lens: Seq<u64>) -> int
    decreases lens.len(),
{
    if lens.len() == 0 {
        0
    } else {
        lens[0] + sum(lens.skip(1))
    }
}

pub proof fn lemma_sum_nonneg(lens: Seq<u64>)
    ensures
        sum(lens) >= 0,
    decreases lens.len(),
{
    if lens.len() > 0 {
        lemma_sum_nonneg(lens.skip(1));
    }
}

/// The transfer state after each chunk of `lens` has arrived and been
/// written, in order.
pub open spec fn run_chunks(pre: StreamingDownloader, lens: Seq<u64>) -> StreamingDownloader
    decreases lens.len(),
{
    if lens.len() == 0 {
        pre
    } else {
        run_chunks(
            spec_step(
                spec_step(pre, DownloadEvent::ChunkReceived { len: lens[0] }),
                DownloadEvent::ChunkWritten,
            ),
            lens.skip(1),
        )
    }
}

/// A transfer whose body arrives as any sequence of chunks summing to `N`
/// bytes accounts for exactly `N` bytes, stays in `Receiving` between
/// chunks, and completes on the end of the body with `received == N` — with
/// no hypothesis on `total` or `length_known`, so a response without a
/// content length completes the same way and its sentinel total is never
/// read as a real length.
pub proof fn lemma_progress_accounts_all_bytes(pre: StreamingDownloader, lens: Seq<u64>)
    requires
        pre.phase is Receiving,
        pre.received + sum(lens) <= u64::MAX,
    ensures
        run_chunks(pre, lens).phase is Receiving,
        run_chunks(pre, lens).received == pre.received + sum(lens),
        run_chunks(pre, lens).title == pre.title,
        run_chunks(pre, lens).total == pre.total,
        run_chunks(pre, lens).length_known == pre.length_known,
        run_chunks(pre, lens).error == pre.error,
        spec_step(run_chunks(pre, lens), DownloadEvent::BodyEnded).phase is Completed,
        spec_step(run_chunks(pre, lens), DownloadEvent::BodyEnded).received == pre.received + sum(
            lens,
        ),
    decreases lens.len(),
{
    if lens.len() > 0 {
        lemma_sum_nonneg(lens.skip(1));
        let mid = spec_step(
            spec_step(pre, DownloadEvent::ChunkReceived { len: lens[0] }),
            DownloadEvent::ChunkWritten,
        );
        assert(mid.received == pre.received + lens[0]);
        lemma_progress_accounts_all_bytes(mid, lens.skip(1));
    }
}

} // verus!

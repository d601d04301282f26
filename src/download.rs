use vstd::prelude::*;
use crate::error::TransferError;
use crate::progress::{ProgressCounter, ProgressPayload};

verus! {

/// Where a download stands.
#[derive(Clone, Copy, Debug, PartialEq, Eq, Structural)]
pub enum DownloadState {
    /// The GET request has been issued; no response yet.
    AwaitingResponse,
    /// The response declared `total` bytes; the destination is being created.
    CreatingFile { total: u64 },
    /// The body is streaming into the destination.
    Receiving { progress: ProgressCounter },
    /// The body was consumed without error.
    Finished,
    /// The download stopped with `error`.
    Failed { error: TransferError },
}

/// What the host observed since the last step.
#[derive(Clone, Copy, Debug, PartialEq, Eq, Structural)]
pub enum DownloadEvent {
    /// The request could not be issued or was answered with an error status.
    RequestFailed,
    /// A response arrived, declaring `content_length` if it had one.
    ResponseReceived { content_length: Option<u64> },
    /// The destination file was created or truncated.
    FileCreated,
    /// The destination file could not be created.
    FileCreateFailed,
    /// A chunk of `len` bytes was read and appended to the destination.
    ChunkWritten { len: u64 },
    /// Reading the next chunk of the body failed.
    ChunkFailed,
    /// Appending a chunk to the destination failed.
    WriteFailed,
    /// The body has no more chunks.
    StreamEnded,
}

/// What the host must do next.
#[derive(Clone, Copy, Debug, PartialEq, Eq, Structural)]
pub enum DownloadAction {
    /// Create or truncate the destination file.
    CreateFile,
    /// Emit `payload` on the transfer's event, then read the next chunk.
    Emit { payload: ProgressPayload },
    /// Return success to the caller.
    Succeed,
    /// Return `error` to the caller; nothing more is read or written.
    Fail { error: TransferError },
    /// The event does not apply in this state; do nothing.
    Ignore,
}

impl DownloadState {
    pub open spec fn wf(&self) -> bool {
        match *self {
            DownloadState::Receiving { progress } => progress.wf(),
            _ => true,
        }
    }

    pub open spec fn is_terminal(&self) -> bool {
        self is Finished || self is Failed
    }
}

/// The transition of a download on one event.
pub open spec fn download_step(s: DownloadState, e: DownloadEvent) -> (DownloadState, DownloadAction) {
    match (s, e) {
        (DownloadState::AwaitingResponse, DownloadEvent::RequestFailed) => (
            DownloadState::Failed { error: TransferError::ConnectFailed },
            DownloadAction::Fail { error: TransferError::ConnectFailed },
        ),
        (DownloadState::AwaitingResponse, DownloadEvent::ResponseReceived { content_length }) => {
            match content_length {
                Some(total) => (DownloadState::CreatingFile { total }, DownloadAction::CreateFile),
                None => (
                    DownloadState::Failed { error: TransferError::UnknownSize },
                    DownloadAction::Fail { error: TransferError::UnknownSize },
                ),
            }
        },
        (DownloadState::CreatingFile { total }, DownloadEvent::FileCreated) => (
            DownloadState::Receiving { progress: ProgressCounter { total, current: 0 } },
            DownloadAction::Emit { payload: ProgressPayload { total, current: 0 } },
        ),
        (DownloadState::CreatingFile { .. }, DownloadEvent::FileCreateFailed) => (
            DownloadState::Failed { error: TransferError::FileCreateFailed },
            DownloadAction::Fail { error: TransferError::FileCreateFailed },
        ),
        (DownloadState::Receiving { progress }, DownloadEvent::ChunkWritten { len }) => {
            let current = crate::progress::advanced(progress.current, len, progress.total);
            (
                DownloadState::Receiving { progress: ProgressCounter { total: progress.total, current } },
                DownloadAction::Emit { payload: ProgressPayload { total: progress.total, current } },
            )
        },
        (DownloadState::Receiving { .. }, DownloadEvent::ChunkFailed) => (
            DownloadState::Failed { error: TransferError::ConnectFailed },
            DownloadAction::Fail { error: TransferError::ConnectFailed },
        ),
        (DownloadState::Receiving { .. }, DownloadEvent::WriteFailed) => (
            DownloadState::Failed { error: TransferError::WriteFailed },
            DownloadAction::Fail { error: TransferError::WriteFailed },
        ),
        (DownloadState::Receiving { .. }, DownloadEvent::StreamEnded) => (
            DownloadState::Finished,
            DownloadAction::Succeed,
        ),
        _ => (s, DownloadAction::Ignore),
    }
}

/// The actions a download takes from `s` on the events `evs`, in order.
pub open spec fn download_run(s: DownloadState, evs: Seq<DownloadEvent>) -> Seq<DownloadAction>
    decreases evs.len(),
{
    if evs.len() == 0 {
        Seq::empty()
    } else {
        let (next, a) = download_step(s, evs[0]);
        seq![a] + download_run(next, evs.drop_first())
    }
}

impl DownloadState {
    /// A download whose request has just been issued.
    pub fn new() -> (r: DownloadState)
        ensures
            r == DownloadState::AwaitingResponse,
    {
        DownloadState::AwaitingResponse
    }

    /// Takes the download through event `e` and returns what the host must do.
    pub fn step(&mut self, e: DownloadEvent) -> (r: DownloadAction)
        requires
            old(self).wf(),
        ensures
            final(self).wf(),
            (*final(self), r) == download_step(*old(self), e),
    {
        match (*self, e) {
            (DownloadState::AwaitingResponse, DownloadEvent::RequestFailed) => {
                *self = DownloadState::Failed { error: TransferError::ConnectFailed };
                DownloadAction::Fail { error: TransferError::ConnectFailed }
            },
            (DownloadState::AwaitingResponse, DownloadEvent::ResponseReceived { content_length }) => {
                match content_length {
                    Some(total) => {
                        *self = DownloadState::CreatingFile { total };
                        DownloadAction::CreateFile
                    },
                    None => {
                        *self = DownloadState::Failed { error: TransferError::UnknownSize };
                        DownloadAction::Fail { error: TransferError::UnknownSize }
                    },
                }
            },
            (DownloadState::CreatingFile { total }, DownloadEvent::FileCreated) => {
                let progress = ProgressCounter::new(total);
                *self = DownloadState::Receiving { progress };
                DownloadAction::Emit { payload: progress.payload() }
            },
            (DownloadState::CreatingFile { .. }, DownloadEvent::FileCreateFailed) => {
                *self = DownloadState::Failed { error: TransferError::FileCreateFailed };
                DownloadAction::Fail { error: TransferError::FileCreateFailed }
            },
            (DownloadState::Receiving { progress }, DownloadEvent::ChunkWritten { len }) => {
                let mut progress = progress;
                let payload = progress.advance(len);
                *self = DownloadState::Receiving { progress };
                DownloadAction::Emit { payload }
            },
            (DownloadState::Receiving { .. }, DownloadEvent::ChunkFailed) => {
                *self = DownloadState::Failed { error: TransferError::ConnectFailed };
                DownloadAction::Fail { error: TransferError::ConnectFailed }
            },
            (DownloadState::Receiving { .. }, DownloadEvent::WriteFailed) => {
                *self = DownloadState::Failed { error: TransferError::WriteFailed };
                DownloadAction::Fail { error: TransferError::WriteFailed }
            },
            (DownloadState::Receiving { .. }, DownloadEvent::StreamEnded) => {
                *self = DownloadState::Finished;
                DownloadAction::Succeed
            },
            _ => DownloadAction::Ignore,
        }
    }
}

/// Within the actions `acts`, every emitted `current` stays within its
/// `total`, all emissions carry the same `total`, and no later emission has a
/// smaller `current` than an earlier one.
pub open spec fn progress_monotone(acts: Seq<DownloadAction>) -> bool {
    &&& forall|i: int|
        0 <= i < acts.len() && (#[trigger] acts[i]) is Emit ==> acts[i]->payload.current
            <= acts[i]->payload.total
    &&& forall|i: int, j: int|
        0 <= i < j < acts.len() && (#[trigger] acts[i]) is Emit && (#[trigger] acts[j]) is Emit
            ==> acts[i]->payload.current <= acts[j]->payload.current && acts[i]->payload.total
            == acts[j]->payload.total
}

proof fn lemma_step_wf(s: DownloadState, e: DownloadEvent)
    requires
        s.wf(),
    ensures
        download_step(s, e).0.wf(),
{
}

proof fn lemma_terminal_ignores(s: DownloadState, evs: Seq<DownloadEvent>)
    requires
        s.is_terminal(),
    ensures
        forall|i: int|
            0 <= i < download_run(s, evs).len() ==> #[trigger] download_run(s, evs)[i]
                == DownloadAction::Ignore,
        download_run(s, evs).len() == evs.len(),
    decreases evs.len(),
{
    if evs.len() > 0 {
        lemma_terminal_ignores(s, evs.drop_first());
    }
}

proof fn lemma_receiving_bound(p: ProgressCounter, evs: Seq<DownloadEvent>)
    requires
        p.wf(),
    ensures
        forall|i: int|
            0 <= i < download_run(DownloadState::Receiving { progress: p }, evs).len()
                && (#[trigger] download_run(DownloadState::Receiving { progress: p }, evs)[i]) is Emit
                ==> download_run(DownloadState::Receiving { progress: p }, evs)[i]->payload.total
                == p.total && p.current <= download_run(
                DownloadState::Receiving { progress: p },
                evs,
            )[i]->payload.current,
    decreases evs.len(),
{
    let s = DownloadState::Receiving { progress: p };
    if evs.len() > 0 {
        let (next, a) = download_step(s, evs[0]);
        let rest = download_run(next, evs.drop_first());
        assert(download_run(s, evs) == seq![a] + rest);
        match next {
            DownloadState::Receiving { progress } => {
                lemma_receiving_bound(progress, evs.drop_first());
            },
            _ => {
                lemma_terminal_ignores(next, evs.drop_first());
            },
        }
        assert forall|i: int|
            0 <= i < download_run(s, evs).len() && (#[trigger] download_run(s, evs)[i]) is Emit
                implies download_run(s, evs)[i]->payload.total == p.total && p.current
                <= download_run(s, evs)[i]->payload.current by {
            if i > 0 {
                assert(download_run(s, evs)[i] == rest[i - 1]);
            }
        }
    }
}

proof fn lemma_monotone_from(s: DownloadState, evs: Seq<DownloadEvent>)
    requires
        s.wf(),
    ensures
        progress_monotone(download_run(s, evs)),
    decreases evs.len(),
{
    if evs.len() > 0 {
        let (next, a) = download_step(s, evs[0]);
        let rest = download_run(next, evs.drop_first());
        let acts = download_run(s, evs);
        assert(acts == seq![a] + rest);
        lemma_step_wf(s, evs[0]);
        lemma_monotone_from(next, evs.drop_first());
        if a is Emit {
            lemma_receiving_bound(next->progress, evs.drop_first());
        }
        assert forall|i: int|
            0 <= i < acts.len() && (#[trigger] acts[i]) is Emit implies acts[i]->payload.current
                <= acts[i]->payload.total by {
            if i > 0 {
                assert(acts[i] == rest[i - 1]);
            }
        }
        assert forall|i: int, j: int|
            0 <= i < j < acts.len() && (#[trigger] acts[i]) is Emit && (#[trigger] acts[j]) is Emit
                implies acts[i]->payload.current <= acts[j]->payload.current
                && acts[i]->payload.total == acts[j]->payload.total by {
            assert(acts[j] == rest[j - 1]);
            if i > 0 {
                assert(acts[i] == rest[i - 1]);
            }
        }
    }
}

/// Whatever the host reports, the progress a download emits never goes back
/// and never passes the total announced by its first emission, which every
/// later emission repeats.
pub proof fn download_progress_is_monotone(evs: Seq<DownloadEvent>)
    ensures
        progress_monotone(download_run(DownloadState::AwaitingResponse, evs)),
{
    lemma_monotone_from(DownloadState::AwaitingResponse, evs);
}

/// A download whose response declares no length fails with `UnknownSize`
/// at once; afterwards it neither creates the destination nor emits
/// progress, whatever else is reported.
pub proof fn download_without_length_fails(rest: Seq<DownloadEvent>)
    ensures
        ({
            let acts = download_run(
                DownloadState::AwaitingResponse,
                seq![DownloadEvent::ResponseReceived { content_length: None }] + rest,
            );
            &&& acts.len() == rest.len() + 1
            &&& acts[0] == DownloadAction::Fail { error: TransferError::UnknownSize }
            &&& forall|i: int| 1 <= i < acts.len() ==> #[trigger] acts[i] == DownloadAction::Ignore
        }),
{
    let evs = seq![DownloadEvent::ResponseReceived { content_length: None }] + rest;
    let failed = DownloadState::Failed { error: TransferError::UnknownSize };
    assert(evs.drop_first() =~= rest);
    lemma_terminal_ignores(failed, rest);
    let acts = download_run(DownloadState::AwaitingResponse, evs);
    assert(acts == seq![DownloadAction::Fail { error: TransferError::UnknownSize }]
        + download_run(failed, rest));
    assert forall|i: int| 1 <= i < acts.len() implies #[trigger] acts[i] == DownloadAction::Ignore by {
        assert(acts[i] == download_run(failed, rest)[i - 1]);
    }
}

} // verus!

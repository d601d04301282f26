use vstd::prelude::*;
use crate::error::TransferError;
use crate::progress::{ProgressCounter, ProgressPayload};

verus! {

/// Where an upload stands.
pub enum UploadState {
    /// The source file is being opened and measured.
    OpeningFile,
    /// The PUT request is streaming the file; `progress` counts what was read.
    Sending { progress: ProgressCounter },
    /// The server answered with a success status; its body is being read.
    ReadingBody,
    /// The upload completed.
    Finished,
    /// The upload stopped with `error`.
    Failed { error: TransferError },
}

/// What the host observed since the last step.
pub enum UploadEvent {
    /// The source file was opened; it holds `size` bytes.
    FileOpened { size: u64 },
    /// The source file could not be opened or measured.
    FileOpenFailed,
    /// A chunk of `len` bytes was read from the file into the request body.
    ChunkRead { len: u64 },
    /// The server answered; `success` tells whether the status was a success.
    ResponseReceived { success: bool },
    /// The request could not be sent.
    RequestFailed,
    /// The response body was read in full.
    BodyRead { body: String },
    /// The response body could not be read.
    BodyFailed,
}

/// What the host must do next.
pub enum UploadAction {
    /// Send a PUT carrying the file, with `Content-Length: content_length`
    /// and every caller-supplied header.
    SendRequest { content_length: u64 },
    /// Emit `payload` on the transfer's event.
    Emit { payload: ProgressPayload },
    /// Read the response body.
    ReadBody,
    /// Return `body` to the caller.
    Succeed { body: String },
    /// Return `error` to the caller.
    Fail { error: TransferError },
    /// The event does not apply in this state; do nothing.
    Ignore,
}

impl UploadState {
    pub open spec fn wf(&self) -> bool {
        match *self {
            UploadState::Sending { progress } => progress.wf(),
            _ => true,
        }
    }
}

/// The transition of an upload on one event.
///
/// The count of bytes sent stops at the size measured when the file was
/// opened, as for downloads, so a file that grows meanwhile never reports
/// more than its announced total.
pub open spec fn upload_step(s: UploadState, e: UploadEvent) -> (UploadState, UploadAction) {
    match (s, e) {
        (UploadState::OpeningFile, UploadEvent::FileOpened { size }) => (
            UploadState::Sending { progress: ProgressCounter { total: size, current: 0 } },
            UploadAction::SendRequest { content_length: size },
        ),
        (UploadState::OpeningFile, UploadEvent::FileOpenFailed) => (
            UploadState::Failed { error: TransferError::FileOpenFailed },
            UploadAction::Fail { error: TransferError::FileOpenFailed },
        ),
        (UploadState::Sending { progress }, UploadEvent::ChunkRead { len }) => {
            let current = crate::progress::advanced(progress.current, len, progress.total);
            (
                UploadState::Sending { progress: ProgressCounter { total: progress.total, current } },
                UploadAction::Emit { payload: ProgressPayload { total: progress.total, current } },
            )
        },
        (UploadState::Sending { .. }, UploadEvent::ResponseReceived { success }) => {
            if success {
                (UploadState::ReadingBody, UploadAction::ReadBody)
            } else {
                (
                    UploadState::Failed { error: TransferError::UploadFailed },
                    UploadAction::Fail { error: TransferError::UploadFailed },
                )
            }
        },
        (UploadState::Sending { .. }, UploadEvent::RequestFailed) => (
            UploadState::Failed { error: TransferError::UploadFailed },
            UploadAction::Fail { error: TransferError::UploadFailed },
        ),
        (UploadState::ReadingBody, UploadEvent::BodyRead { body }) => (
            UploadState::Finished,
            UploadAction::Succeed { body },
        ),
        (UploadState::ReadingBody, UploadEvent::BodyFailed) => (
            UploadState::Failed { error: TransferError::UploadFailed },
            UploadAction::Fail { error: TransferError::UploadFailed },
        ),
        _ => (s, UploadAction::Ignore),
    }
}

/// The actions an upload takes from `s` on the events `evs`, in order.
pub open spec fn upload_run(s: UploadState, evs: Seq<UploadEvent>) -> Seq<UploadAction>
    decreases evs.len(),
{
    if evs.len() == 0 {
        Seq::empty()
    } else {
        let (next, a) = upload_step(s, evs[0]);
        seq![a] + upload_run(next, evs.drop_first())
    }
}

impl UploadState {
    /// An upload about to open its source file.
    pub fn new() -> (r: UploadState)
        ensures
            r == UploadState::OpeningFile,
    {
        UploadState::OpeningFile
    }

    /// Takes the upload through event `e`: returns the next state and what
    /// the host must do.
    pub fn step(self, e: UploadEvent) -> (r: (UploadState, UploadAction))
        requires
            self.wf(),
        ensures
            r.0.wf(),
            r == upload_step(self, e),
    {
        match (self, e) {
            (UploadState::OpeningFile, UploadEvent::FileOpened { size }) => (
                UploadState::Sending { progress: ProgressCounter::new(size) },
                UploadAction::SendRequest { content_length: size },
            ),
            (UploadState::OpeningFile, UploadEvent::FileOpenFailed) => (
                UploadState::Failed { error: TransferError::FileOpenFailed },
                UploadAction::Fail { error: TransferError::FileOpenFailed },
            ),
            (UploadState::Sending { progress }, UploadEvent::ChunkRead { len }) => {
                let mut progress = progress;
                let payload = progress.advance(len);
                (UploadState::Sending { progress }, UploadAction::Emit { payload })
            },
            (UploadState::Sending { .. }, UploadEvent::ResponseReceived { success }) => {
                if success {
                    (UploadState::ReadingBody, UploadAction::ReadBody)
                } else {
                    (
                        UploadState::Failed { error: TransferError::UploadFailed },
                        UploadAction::Fail { error: TransferError::UploadFailed },
                    )
                }
            },
            (UploadState::Sending { .. }, UploadEvent::RequestFailed) => (
                UploadState::Failed { error: TransferError::UploadFailed },
                UploadAction::Fail { error: TransferError::UploadFailed },
            ),
            (UploadState::ReadingBody, UploadEvent::BodyRead { body }) => (
                UploadState::Finished,
                UploadAction::Succeed { body },
            ),
            (UploadState::ReadingBody, UploadEvent::BodyFailed) => (
                UploadState::Failed { error: TransferError::UploadFailed },
                UploadAction::Fail { error: TransferError::UploadFailed },
            ),
            (s, _) => (s, UploadAction::Ignore),
        }
    }
}

/// The sum of the chunk lengths `lens`.
pub open spec fn chunk_total(lens: Seq<u64>) -> nat
    decreases lens.len(),
{
    if lens.len() == 0 {
        0
    } else {
        (lens[0] + chunk_total(lens.drop_first())) as nat
    }
}

/// One `ChunkRead` event for each of the chunk lengths `lens`.
pub open spec fn chunk_events(lens: Seq<u64>) -> Seq<UploadEvent> {
    Seq::new(lens.len(), |i: int| UploadEvent::ChunkRead { len: lens[i] })
}

proof fn lemma_sending_chunks(p: ProgressCounter, lens: Seq<u64>)
    requires
        p.wf(),
        p.current + chunk_total(lens) <= p.total,
    ensures
        ({
            let acts = upload_run(UploadState::Sending { progress: p }, chunk_events(lens));
            &&& acts.len() == lens.len()
            &&& forall|i: int|
                0 <= i < acts.len() ==> (#[trigger] acts[i]) is Emit && acts[i]->payload.total
                    == p.total
            &&& lens.len() > 0 ==> acts.last()->payload.current == p.current + chunk_total(lens)
        }),
    decreases lens.len(),
{
    let evs = chunk_events(lens);
    if lens.len() > 0 {
        let next = ProgressCounter { total: p.total, current: (p.current + lens[0]) as u64 };
        assert(evs.drop_first() =~= chunk_events(lens.drop_first()));
        lemma_sending_chunks(next, lens.drop_first());
        let rest = upload_run(UploadState::Sending { progress: next }, chunk_events(lens.drop_first()));
        let acts = upload_run(UploadState::Sending { progress: p }, evs);
        assert(acts == seq![UploadAction::Emit { payload: ProgressPayload { total: p.total, current: next.current } }] + rest);
        assert forall|i: int| 0 <= i < acts.len() implies (#[trigger] acts[i]) is Emit
            && acts[i]->payload.total == p.total by {
            if i > 0 {
                assert(acts[i] == rest[i - 1]);
            }
        }
        if lens.len() > 1 {
            assert(acts.last() == rest.last());
        } else {
            assert(chunk_total(lens.drop_first()) == 0);
        }
    }
}

/// Uploading a file of `size` bytes read in chunks of lengths `lens` that sum
/// to `size` sends the request with that length, then emits once per chunk,
/// always out of `size`, the last emission reaching `size`.
pub proof fn upload_reports_every_chunk(size: u64, lens: Seq<u64>)
    requires
        chunk_total(lens) == size,
    ensures
        ({
            let acts = upload_run(
                UploadState::OpeningFile,
                seq![UploadEvent::FileOpened { size }] + chunk_events(lens),
            );
            &&& acts.len() == lens.len() + 1
            &&& acts[0] == UploadAction::SendRequest { content_length: size }
            &&& forall|i: int|
                1 <= i < acts.len() ==> (#[trigger] acts[i]) is Emit && acts[i]->payload.total
                    == size
            &&& lens.len() > 0 ==> acts.last() == UploadAction::Emit {
                payload: ProgressPayload { total: size, current: size },
            }
        }),
{
    let evs = seq![UploadEvent::FileOpened { size }] + chunk_events(lens);
    let p = ProgressCounter { total: size, current: 0 };
    assert(evs.drop_first() =~= chunk_events(lens));
    lemma_sending_chunks(p, lens);
    let rest = upload_run(UploadState::Sending { progress: p }, chunk_events(lens));
    let acts = upload_run(UploadState::OpeningFile, evs);
    assert(acts == seq![UploadAction::SendRequest { content_length: size }] + rest);
    assert forall|i: int| 1 <= i < acts.len() implies (#[trigger] acts[i]) is Emit
        && acts[i]->payload.total == size by {
        assert(acts[i] == rest[i - 1]);
    }
    if lens.len() > 0 {
        assert(acts.last() == rest.last());
    }
}

} // verus!

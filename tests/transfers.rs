use game_launcher::download::{DownloadAction, DownloadEvent, DownloadState};
use game_launcher::error::TransferError;
use game_launcher::progress::{event_id, ProgressCounter, ProgressPayload, PROGRESS_EVENT_PREFIX};
use game_launcher::upload::{UploadAction, UploadEvent, UploadState};

fn emitted(total: u64, current: u64) -> DownloadAction {
    DownloadAction::Emit { payload: ProgressPayload { total, current } }
}

fn run_download(events: Vec<DownloadEvent>) -> Vec<DownloadAction> {
    let mut state = DownloadState::new();
    let mut actions = Vec::new();
    for e in events {
        actions.push(state.step(e));
    }
    actions
}

fn run_upload(events: Vec<UploadEvent>) -> Vec<UploadAction> {
    let mut state = UploadState::new();
    let mut actions = Vec::new();
    for e in events {
        let (next, action) = state.step(e);
        state = next;
        actions.push(action);
    }
    actions
}

#[test]
fn event_id_prefixes_the_correlation_id() {
    assert_eq!(PROGRESS_EVENT_PREFIX, "__progress__");
    assert_eq!(event_id("abc"), "__progress__abc");
    assert_eq!(event_id(""), "__progress__");
}

#[test]
fn distinct_correlation_ids_give_distinct_events() {
    assert_ne!(event_id("a"), event_id("b"));
    assert_ne!(event_id("1"), event_id("12"));
}

#[test]
fn counter_clamps_at_total() {
    let mut c = ProgressCounter::new(100);
    assert_eq!(c.advance(60), ProgressPayload { total: 100, current: 60 });
    assert_eq!(c.advance(60), ProgressPayload { total: 100, current: 100 });
    assert_eq!(c.advance(u64::MAX), ProgressPayload { total: 100, current: 100 });
    assert_eq!(c.payload(), ProgressPayload { total: 100, current: 100 });
}

#[test]
fn download_of_five_chunks_emits_six_times() {
    let mut events = vec![
        DownloadEvent::ResponseReceived { content_length: Some(10000) },
        DownloadEvent::FileCreated,
    ];
    for _ in 0..5 {
        events.push(DownloadEvent::ChunkWritten { len: 2000 });
    }
    events.push(DownloadEvent::StreamEnded);
    let actions = run_download(events);
    assert_eq!(
        actions,
        vec![
            DownloadAction::CreateFile,
            emitted(10000, 0),
            emitted(10000, 2000),
            emitted(10000, 4000),
            emitted(10000, 6000),
            emitted(10000, 8000),
            emitted(10000, 10000),
            DownloadAction::Succeed,
        ]
    );
}

#[test]
fn download_progress_never_goes_back() {
    let actions = run_download(vec![
        DownloadEvent::ResponseReceived { content_length: Some(10) },
        DownloadEvent::FileCreated,
        DownloadEvent::ChunkWritten { len: 4 },
        DownloadEvent::ChunkWritten { len: 0 },
        DownloadEvent::ChunkWritten { len: 9 },
        DownloadEvent::ChunkWritten { len: 3 },
        DownloadEvent::StreamEnded,
    ]);
    let currents: Vec<u64> = actions
        .iter()
        .filter_map(|a| match a {
            DownloadAction::Emit { payload } => {
                assert_eq!(payload.total, 10);
                Some(payload.current)
            }
            _ => None,
        })
        .collect();
    assert_eq!(currents, vec![0, 4, 4, 10, 10]);
}

#[test]
fn download_that_under_delivers_still_succeeds() {
    let actions = run_download(vec![
        DownloadEvent::ResponseReceived { content_length: Some(10) },
        DownloadEvent::FileCreated,
        DownloadEvent::ChunkWritten { len: 3 },
        DownloadEvent::StreamEnded,
    ]);
    assert_eq!(actions[2], emitted(10, 3));
    assert_eq!(actions[3], DownloadAction::Succeed);
}

#[test]
fn download_without_length_fails_with_unknown_size() {
    let actions = run_download(vec![
        DownloadEvent::ResponseReceived { content_length: None },
        DownloadEvent::FileCreated,
        DownloadEvent::ChunkWritten { len: 5 },
        DownloadEvent::StreamEnded,
    ]);
    assert_eq!(actions[0], DownloadAction::Fail { error: TransferError::UnknownSize });
    assert!(actions[1..].iter().all(|a| *a == DownloadAction::Ignore));
    assert_eq!(TransferError::UnknownSize.message(), "Failed to get content length");
}

#[test]
fn download_errors() {
    assert_eq!(
        run_download(vec![DownloadEvent::RequestFailed])[0],
        DownloadAction::Fail { error: TransferError::ConnectFailed }
    );
    let created = vec![
        DownloadEvent::ResponseReceived { content_length: Some(8) },
        DownloadEvent::FileCreateFailed,
    ];
    assert_eq!(
        run_download(created)[1],
        DownloadAction::Fail { error: TransferError::FileCreateFailed }
    );
    let write = vec![
        DownloadEvent::ResponseReceived { content_length: Some(8) },
        DownloadEvent::FileCreated,
        DownloadEvent::WriteFailed,
        DownloadEvent::ChunkWritten { len: 1 },
    ];
    let actions = run_download(write);
    assert_eq!(actions[2], DownloadAction::Fail { error: TransferError::WriteFailed });
    assert_eq!(actions[3], DownloadAction::Ignore);
    let broken = vec![
        DownloadEvent::ResponseReceived { content_length: Some(8) },
        DownloadEvent::FileCreated,
        DownloadEvent::ChunkFailed,
    ];
    assert_eq!(
        run_download(broken)[2],
        DownloadAction::Fail { error: TransferError::ConnectFailed }
    );
}

#[test]
fn error_messages() {
    assert_eq!(TransferError::ConnectFailed.message(), "Failed to GET from");
    assert_eq!(TransferError::FileCreateFailed.message(), "Failed to create file");
    assert_eq!(TransferError::FileOpenFailed.message(), "Failed to open file");
    assert_eq!(TransferError::WriteFailed.message(), "Error while writing to file");
    assert_eq!(TransferError::UploadFailed.message(), "Failed to PUT file");
}

#[test]
fn upload_of_500_bytes_returns_the_body() {
    let actions = run_upload(vec![
        UploadEvent::FileOpened { size: 500 },
        UploadEvent::ChunkRead { len: 500 },
        UploadEvent::ResponseReceived { success: true },
        UploadEvent::BodyRead { body: "OK".to_string() },
    ]);
    assert_eq!(actions.len(), 4);
    assert!(matches!(actions[0], UploadAction::SendRequest { content_length: 500 }));
    assert!(matches!(
        actions[1],
        UploadAction::Emit { payload: ProgressPayload { total: 500, current: 500 } }
    ));
    assert!(matches!(actions[2], UploadAction::ReadBody));
    match &actions[3] {
        UploadAction::Succeed { body } => assert_eq!(body, "OK"),
        _ => panic!("upload did not succeed"),
    }
}

#[test]
fn upload_emits_once_per_chunk() {
    let lens = [100u64, 7, 0, 393];
    let mut events = vec![UploadEvent::FileOpened { size: 500 }];
    for len in lens {
        events.push(UploadEvent::ChunkRead { len });
    }
    let actions = run_upload(events);
    let currents: Vec<u64> = actions[1..]
        .iter()
        .map(|a| match a {
            UploadAction::Emit { payload } => {
                assert_eq!(payload.total, 500);
                payload.current
            }
            _ => panic!("expected an emission"),
        })
        .collect();
    assert_eq!(currents, vec![100, 107, 107, 500]);
}

#[test]
fn upload_of_a_growing_file_stops_at_its_size() {
    let actions = run_upload(vec![
        UploadEvent::FileOpened { size: 10 },
        UploadEvent::ChunkRead { len: 8 },
        UploadEvent::ChunkRead { len: 8 },
    ]);
    assert!(matches!(
        actions[2],
        UploadAction::Emit { payload: ProgressPayload { total: 10, current: 10 } }
    ));
}

#[test]
fn upload_errors() {
    let actions = run_upload(vec![UploadEvent::FileOpenFailed, UploadEvent::ChunkRead { len: 1 }]);
    assert!(matches!(actions[0], UploadAction::Fail { error: TransferError::FileOpenFailed }));
    assert!(matches!(actions[1], UploadAction::Ignore));
    let actions = run_upload(vec![
        UploadEvent::FileOpened { size: 3 },
        UploadEvent::ResponseReceived { success: false },
    ]);
    assert!(matches!(actions[1], UploadAction::Fail { error: TransferError::UploadFailed }));
    let actions = run_upload(vec![UploadEvent::FileOpened { size: 3 }, UploadEvent::RequestFailed]);
    assert!(matches!(actions[1], UploadAction::Fail { error: TransferError::UploadFailed }));
    let actions = run_upload(vec![
        UploadEvent::FileOpened { size: 3 },
        UploadEvent::ResponseReceived { success: true },
        UploadEvent::BodyFailed,
    ]);
    assert!(matches!(actions[2], UploadAction::Fail { error: TransferError::UploadFailed }));
}

#[test]
fn empty_upload_sends_zero_length() {
    let actions = run_upload(vec![
        UploadEvent::FileOpened { size: 0 },
        UploadEvent::ResponseReceived { success: true },
        UploadEvent::BodyRead { body: String::new() },
    ]);
    assert!(matches!(actions[0], UploadAction::SendRequest { content_length: 0 }));
    assert!(matches!(actions[1], UploadAction::ReadBody));
}

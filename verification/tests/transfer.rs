use you_dl::{DownloadAction, DownloadEvent, DownloadPhase, StreamingDownloader, YouDlError};

#[test]
fn chunked_transfer_accounts_every_byte() {
    let mut d = StreamingDownloader::start("My Video");
    let a = d.step(DownloadEvent::Opened { content_length: Some(10) });
    assert_eq!(a, DownloadAction::CreateFile);
    assert!(d.length_known);
    assert_eq!(d.total, 10);
    let a = d.step(DownloadEvent::FileCreated);
    assert_eq!(a, DownloadAction::ReadChunk);
    for len in [4u64, 3, 3] {
        let a = d.step(DownloadEvent::ChunkReceived { len });
        assert_eq!(a, DownloadAction::WriteChunk);
        let a = d.step(DownloadEvent::ChunkWritten);
        assert_eq!(a, DownloadAction::ReadChunk);
    }
    assert_eq!(d.received, 10);
    let a = d.step(DownloadEvent::BodyEnded);
    assert_eq!(a, DownloadAction::Finish);
    assert_eq!(d.phase, DownloadPhase::Completed);
    assert_eq!(d.received, d.total);
    assert_eq!(d.success_message(), "Successfully downloaded: My Video");
}

#[test]
fn missing_content_length_still_completes() {
    let mut d = StreamingDownloader::start("Unbounded");
    d.step(DownloadEvent::Opened { content_length: None });
    assert!(!d.length_known);
    assert_eq!(d.total, u64::MAX);
    d.step(DownloadEvent::FileCreated);
    for len in [5u64, 7] {
        d.step(DownloadEvent::ChunkReceived { len });
        d.step(DownloadEvent::ChunkWritten);
    }
    d.step(DownloadEvent::BodyEnded);
    assert_eq!(d.phase, DownloadPhase::Completed);
    assert_eq!(d.received, 12);
    // The sentinel total is not a real length and was never treated as one.
    assert!(!d.length_known);
    assert_ne!(d.received, d.total);
}

#[test]
fn file_creation_failure_is_application() {
    let mut d = StreamingDownloader::start("Denied");
    d.step(DownloadEvent::Opened { content_length: Some(5) });
    let a = d.step(DownloadEvent::FileCreateFailed {
        detail: String::from("permission denied"),
    });
    assert_eq!(a, DownloadAction::Abort);
    assert_eq!(d.phase, DownloadPhase::Failed);
    assert_eq!(
        d.error,
        Some(YouDlError::Application(String::from("permission denied")))
    );
}

#[test]
fn write_failure_is_application() {
    let mut d = StreamingDownloader::start("Full Disk");
    d.step(DownloadEvent::Opened { content_length: Some(5) });
    d.step(DownloadEvent::FileCreated);
    d.step(DownloadEvent::ChunkReceived { len: 5 });
    let a = d.step(DownloadEvent::WriteFailed { detail: String::from("no space") });
    assert_eq!(a, DownloadAction::Abort);
    assert_eq!(d.phase, DownloadPhase::Failed);
    assert_eq!(d.error, Some(YouDlError::Application(String::from("no space"))));
}

#[test]
fn network_failures_are_invalid_response() {
    let mut d = StreamingDownloader::start("Flaky");
    let a = d.step(DownloadEvent::OpenFailed { detail: String::from("unreachable") });
    assert_eq!(a, DownloadAction::Abort);
    assert_eq!(d.phase, DownloadPhase::Failed);
    assert_eq!(
        d.error,
        Some(YouDlError::InvalidResponse(String::from("unreachable")))
    );

    let mut d = StreamingDownloader::start("Flaky Too");
    d.step(DownloadEvent::Opened { content_length: None });
    d.step(DownloadEvent::FileCreated);
    d.step(DownloadEvent::ChunkReceived { len: 3 });
    d.step(DownloadEvent::ChunkWritten);
    d.step(DownloadEvent::ChunkFailed { detail: String::from("reset") });
    assert_eq!(d.phase, DownloadPhase::Failed);
    assert_eq!(d.error, Some(YouDlError::InvalidResponse(String::from("reset"))));
}

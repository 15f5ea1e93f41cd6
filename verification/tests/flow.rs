use you_dl::{Pipeline, PipelineAction, PipelineEvent, PipelineState, YouDlError};

fn sample_body() -> String {
    let json = "{\"videoDetails\":{\"title\":\"Clip\"},\"streamingData\":{\"formats\":[{\"itag\":18,\"url\":\"http://dl.example/v\",\"qualityLabel\":\"360p\",\"mimeType\":\"video/mp4\"}]}}";
    format!("player_response={}", json)
}

#[test]
fn pipeline_runs_to_completion() {
    let p = Pipeline::launch(String::from("https://youtu.be/abc123"), false);
    let (p, a) = p.step(PipelineEvent::Advance);
    match &a {
        PipelineAction::FetchMetadata { url } => {
            assert_eq!(url.as_str(), "https://www.youtube.com/get_video_info?video_id=abc123");
        }
        other => panic!("expected FetchMetadata, got {:?}", label_of(other)),
    }
    let (p, a) = p.step(PipelineEvent::MetadataBody { body: sample_body() });
    assert!(matches!(a, PipelineAction::Continue));
    let (p, a) = p.step(PipelineEvent::Advance);
    assert!(matches!(a, PipelineAction::ChooseFormat));
    let (p, a) = p.step(PipelineEvent::FormatChosen { index: 0 });
    assert!(matches!(a, PipelineAction::Continue));
    let (p, a) = p.step(PipelineEvent::Advance);
    match a {
        PipelineAction::StartDownload { option } => {
            assert_eq!(option.itag, 18);
            assert_eq!(option.url, "http://dl.example/v");
            assert_eq!(option.file_name, "Clip.mp4");
        }
        other => panic!("expected StartDownload, got {:?}", label_of(&other)),
    }
    let (p, a) = p.step(PipelineEvent::DownloadCompleted);
    assert!(matches!(a, PipelineAction::Done));
    assert!(matches!(p.state, PipelineState::Completed));
}

#[test]
fn unrecognized_url_fails_the_pipeline() {
    let p = Pipeline::launch(String::from("ftp://nowhere"), false);
    let (p, a) = p.step(PipelineEvent::Advance);
    assert!(matches!(a, PipelineAction::Surface));
    match p.state {
        PipelineState::Failed { error } => assert_eq!(error, YouDlError::InvalidUrl),
        _ => panic!("expected Failed state"),
    }
}

#[test]
fn metadata_failure_is_invalid_response() {
    let p = Pipeline::launch(String::from("https://youtu.be/abc123"), false);
    let (p, _) = p.step(PipelineEvent::Advance);
    let (p, a) = p.step(PipelineEvent::MetadataFailed { detail: String::from("timed out") });
    assert!(matches!(a, PipelineAction::Surface));
    match p.state {
        PipelineState::Failed { error } => {
            assert_eq!(error, YouDlError::InvalidResponse(String::from("timed out")));
        }
        _ => panic!("expected Failed state"),
    }
}

#[test]
fn download_failure_is_recorded_as_reported() {
    let p = Pipeline::launch(String::from("https://youtu.be/abc123"), false);
    let (p, _) = p.step(PipelineEvent::Advance);
    let (p, _) = p.step(PipelineEvent::MetadataBody { body: sample_body() });
    let (p, _) = p.step(PipelineEvent::Advance);
    let (p, _) = p.step(PipelineEvent::FormatChosen { index: 0 });
    let (p, _) = p.step(PipelineEvent::Advance);
    let (p, a) = p.step(PipelineEvent::DownloadFailed {
        error: YouDlError::Application(String::from("permission denied")),
    });
    assert!(matches!(a, PipelineAction::Surface));
    match p.state {
        PipelineState::Failed { error } => {
            assert_eq!(error, YouDlError::Application(String::from("permission denied")));
        }
        _ => panic!("expected Failed state"),
    }
}

fn label_of(a: &PipelineAction) -> &'static str {
    match a {
        PipelineAction::FetchMetadata { .. } => "FetchMetadata",
        PipelineAction::Continue => "Continue",
        PipelineAction::ChooseFormat => "ChooseFormat",
        PipelineAction::StartDownload { .. } => "StartDownload",
        PipelineAction::Done => "Done",
        PipelineAction::Surface => "Surface",
    }
}

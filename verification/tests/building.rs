use you_dl::{decode_player_response, DownloadOptions, PlayerResponse, StreamFormat, YouDlError};

fn sample_body() -> String {
    // Two progressive streams (the first direct, the second cipher-protected)
    // and one direct adaptive stream, inside the host's envelope: a query
    // string whose player_response field carries the JSON document.
    let json = "{\"videoDetails\":{\"title\":\"My: Video/Title?\"},\"streamingData\":{\"formats\":[{\"itag\":18,\"url\":\"http://dl.example/1\",\"qualityLabel\":\"360p\",\"mimeType\":\"video/mp4; codecs=avc1\"},{\"itag\":22,\"signatureCipher\":\"s=abc\",\"qualityLabel\":\"720p\",\"mimeType\":\"video/mp4\"}],\"adaptiveFormats\":[{\"itag\":140,\"url\":\"http://dl.example/2\",\"qualityLabel\":\"\",\"mimeType\":\"audio/mp4; codecs=mp4a\"}]}}";
    format!("status=ok&player_response={}", json)
}

#[test]
fn decode_reads_title_and_streams() {
    let response = decode_player_response(&sample_body()).unwrap();
    assert_eq!(response.title, "My: Video/Title?");
    assert_eq!(response.formats.len(), 2);
    assert_eq!(response.adaptive_formats.len(), 1);
    assert_eq!(response.formats[0].itag, 18);
    assert!(response.formats[0].url.is_some());
    assert!(response.formats[1].signature_cipher.is_some());
    assert_eq!(response.adaptive_formats[0].itag, 140);
}

#[test]
fn decode_without_field_is_invalid_response() {
    let r = decode_player_response("status=ok&other=1");
    match r {
        Err(YouDlError::InvalidResponse(_)) => {}
        other => panic!("expected InvalidResponse, got {:?}", other),
    }
}

#[test]
fn decode_malformed_json_is_invalid_response() {
    let r = decode_player_response("player_response={not json");
    match r {
        Err(YouDlError::InvalidResponse(_)) => {}
        other => panic!("expected InvalidResponse, got {:?}", other),
    }
}

#[test]
fn progressive_only_policy_excludes_adaptive_and_cipher() {
    let response = decode_player_response(&sample_body()).unwrap();
    let options = DownloadOptions::build(&response, false).unwrap();
    assert_eq!(options.len(), 1);
    assert_eq!(options.0[0].itag, 18);
    assert_eq!(options.0[0].url, "http://dl.example/1");
    assert_eq!(options.0[0].title, "My: Video/Title?");
    assert_eq!(options.0[0].file_name, "My_ Video_Title_.mp4");
}

#[test]
fn adaptive_policy_includes_both_direct_streams() {
    let response = decode_player_response(&sample_body()).unwrap();
    let options = DownloadOptions::build(&response, true).unwrap();
    assert_eq!(options.len(), 2);
    assert_eq!(options.0[0].itag, 18);
    assert_eq!(options.0[1].itag, 140);
    assert_eq!(options.0[1].file_name, "My_ Video_Title_.mp4");
}

#[test]
fn all_cipher_streams_are_unsupported() {
    let response = PlayerResponse {
        title: String::from("Locked"),
        formats: vec![
            StreamFormat {
                itag: 22,
                url: None,
                signature_cipher: Some(String::from("s=abc")),
                quality_label: String::from("720p"),
                mime_type: String::from("video/mp4"),
            },
            StreamFormat {
                itag: 18,
                url: None,
                signature_cipher: Some(String::from("s=def")),
                quality_label: String::from("360p"),
                mime_type: String::from("video/mp4"),
            },
        ],
        adaptive_formats: vec![],
    };
    match DownloadOptions::build(&response, true) {
        Err(YouDlError::Unsupported(message)) => {
            assert!(message.contains("Locked"));
            assert!(message.contains("-w"));
        }
        other => panic!("expected Unsupported, got {:?}", other),
    }
}

#[test]
fn zero_declared_streams_are_unsupported() {
    let response = PlayerResponse {
        title: String::from("Empty"),
        formats: vec![],
        adaptive_formats: vec![],
    };
    assert!(matches!(
        DownloadOptions::build(&response, true),
        Err(YouDlError::Unsupported(_))
    ));
}

#[test]
fn chosen_option_is_removed_from_the_list() {
    let response = decode_player_response(&sample_body()).unwrap();
    let mut options = DownloadOptions::build(&response, true).unwrap();
    assert_eq!(options.get_title(), "My: Video/Title?");
    let chosen = options.remove_chosen(1);
    assert_eq!(chosen.itag, 140);
    assert_eq!(options.len(), 1);
    assert_eq!(options.0[0].itag, 18);
}

#[test]
fn fetchability_classification() {
    let direct = StreamFormat {
        itag: 18,
        url: Some(String::from("http://dl.example/1")),
        signature_cipher: None,
        quality_label: String::from("360p"),
        mime_type: String::from("video/mp4"),
    };
    let ciphered = StreamFormat {
        itag: 22,
        url: Some(String::from("http://dl.example/2")),
        signature_cipher: Some(String::from("s=abc")),
        quality_label: String::from("720p"),
        mime_type: String::from("video/mp4"),
    };
    let bare = StreamFormat {
        itag: 37,
        url: None,
        signature_cipher: None,
        quality_label: String::from("1080p"),
        mime_type: String::from("video/mp4"),
    };
    assert!(direct.is_fetchable());
    assert!(!ciphered.is_fetchable());
    assert!(!bare.is_fetchable());
}

#[test]
fn error_detail_accessor() {
    assert_eq!(YouDlError::InvalidUrl.detail(), "");
    assert_eq!(
        YouDlError::InvalidResponse(String::from("bad json")).detail(),
        "bad json"
    );
    assert_eq!(
        YouDlError::Application(String::from("denied")).detail(),
        "denied"
    );
}

#[test]
fn missing_field_detail_is_exact() {
    match decode_player_response("status=ok&other=1") {
        Err(YouDlError::InvalidResponse(detail)) => {
            assert_eq!(detail, "missing value for player_response");
        }
        other => panic!("expected InvalidResponse, got {:?}", other),
    }
}

#[test]
fn non_ascii_body_is_invalid_response() {
    match decode_player_response("player_response=\u{e9}clair") {
        Err(YouDlError::InvalidResponse(_)) => {}
        other => panic!("expected InvalidResponse, got {:?}", other),
    }
    match decode_player_response("a=b&\u{e9}=x") {
        Err(YouDlError::InvalidResponse(_)) => {}
        other => panic!("expected InvalidResponse, got {:?}", other),
    }
}

#[test]
fn entry_without_itag_is_dropped() {
    let body = "player_response={\"videoDetails\":{\"title\":\"T\"},\"streamingData\":{\"formats\":[{\"url\":\"http://dl.example/1\"},{\"itag\":18,\"url\":\"http://dl.example/2\",\"mimeType\":\"video/mp4\"}]}}";
    let response = decode_player_response(body).unwrap();
    assert_eq!(response.formats.len(), 1);
    assert_eq!(response.formats[0].itag, 18);
}

#[test]
fn missing_title_is_invalid_response() {
    let body = "player_response={\"streamingData\":{\"formats\":[]}}";
    match decode_player_response(body) {
        Err(YouDlError::InvalidResponse(detail)) => {
            assert!(detail.contains("required field"));
        }
        other => panic!("expected InvalidResponse, got {:?}", other),
    }
}

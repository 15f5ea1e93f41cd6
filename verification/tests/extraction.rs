use you_dl::{extract_video_id, YouDlError};

#[test]
fn watch_and_short_forms_agree() {
    let watch = extract_video_id("https://www.youtube.com/watch?v=dQw4w9WgXcQ").unwrap();
    let short = extract_video_id("https://youtu.be/dQw4w9WgXcQ").unwrap();
    assert_eq!(watch, "dQw4w9WgXcQ");
    assert_eq!(watch, short);
}

#[test]
fn watch_form_with_more_parameters() {
    let id = extract_video_id("https://www.youtube.com/watch?v=abc123&t=10").unwrap();
    assert_eq!(id, "abc123");
    let id = extract_video_id("https://www.youtube.com/watch?t=10&v=abc123").unwrap();
    assert_eq!(id, "abc123");
}

#[test]
fn short_form_with_query_suffix() {
    let id = extract_video_id("https://youtu.be/abc123?t=10").unwrap();
    assert_eq!(id, "abc123");
}

#[test]
fn unrecognized_shapes_are_invalid_url() {
    assert_eq!(
        extract_video_id("https://example.com/watch?v=abc"),
        Err(YouDlError::InvalidUrl)
    );
    assert_eq!(extract_video_id("not a url"), Err(YouDlError::InvalidUrl));
    assert_eq!(extract_video_id(""), Err(YouDlError::InvalidUrl));
}

#[test]
fn missing_or_empty_identifier_is_invalid_url() {
    assert_eq!(
        extract_video_id("https://www.youtube.com/watch?t=10"),
        Err(YouDlError::InvalidUrl)
    );
    assert_eq!(
        extract_video_id("https://www.youtube.com/watch?v="),
        Err(YouDlError::InvalidUrl)
    );
    assert_eq!(
        extract_video_id("https://youtu.be/"),
        Err(YouDlError::InvalidUrl)
    );
    assert_eq!(
        extract_video_id("https://youtu.be/path/deeper"),
        Err(YouDlError::InvalidUrl)
    );
}

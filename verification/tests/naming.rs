use you_dl::options::file_name_for;

#[test]
fn illegal_characters_are_replaced() {
    let name = file_name_for("a/b:c?d*e\"f<g>h|i\\j", "video/mp4");
    assert_eq!(name, "a_b_c_d_e_f_g_h_i_j.mp4");
    for c in ['/', ':', '?', '*', '"', '<', '>', '|', '\\'] {
        assert!(!name.contains(c));
    }
}

#[test]
fn sanitization_is_deterministic() {
    let first = file_name_for("My: Video/Title?", "video/mp4; codecs=avc1");
    let second = file_name_for("My: Video/Title?", "video/mp4; codecs=avc1");
    assert_eq!(first, second);
    assert_eq!(first, "My_ Video_Title_.mp4");
}

#[test]
fn extension_follows_the_mime_subtype() {
    assert_eq!(file_name_for("t", "audio/webm"), "t.webm");
    assert_eq!(file_name_for("t", "audio/mp4; codecs=mp4a"), "t.mp4");
    assert_eq!(file_name_for("t", "nonsense"), "t.bin");
}

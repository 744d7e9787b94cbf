use playlistdl::download::sanitized_filename;

#[test]
fn plain_title_gets_extension() {
    assert_eq!(sanitized_filename("Song"), "Song.m4a");
}

#[test]
fn empty_title_is_just_extension() {
    assert_eq!(sanitized_filename(""), ".m4a");
}

#[test]
fn forbidden_characters_become_underscores() {
    assert_eq!(
        sanitized_filename("a/b?c<d>e\\f:g*h|i\"j"),
        "a_b_c_d_e_f_g_h_i_j.m4a"
    );
}

#[test]
fn control_characters_become_underscores() {
    // ASCII controls (below 0x20 and 0x7f) and Latin-1 controls
    // (0x80..0x9f) are all replaced.
    assert_eq!(sanitized_filename("a\tb\nc\u{1}d"), "a_b_c_d.m4a");
    assert_eq!(sanitized_filename("x\u{80}y\u{9f}z"), "x_y_z.m4a");
    assert_eq!(sanitized_filename("x\u{7f}y"), "x_y.m4a");
}

#[test]
fn long_title_is_truncated_to_36_characters() {
    let title = "abcdefghijklmnopqrstuvwxyz0123456789EXTRA";
    assert_eq!(
        sanitized_filename(title),
        "abcdefghijklmnopqrstuvwxyz0123456789.m4a"
    );
}

#[test]
fn truncation_counts_characters_not_bytes() {
    // 40 two-byte characters: truncation must keep 36 whole characters.
    let title: String = std::iter::repeat('é').take(40).collect();
    let expected: String = std::iter::repeat('é').take(36).collect::<String>() + ".m4a";
    assert_eq!(sanitized_filename(&title), expected);
}

#[test]
fn exactly_36_characters_are_kept_whole() {
    let title = "abcdefghijklmnopqrstuvwxyz0123456789";
    assert_eq!(
        sanitized_filename(title),
        "abcdefghijklmnopqrstuvwxyz0123456789.m4a"
    );
}

#[test]
fn sanitization_is_deterministic() {
    let a = sanitized_filename("Weird / Title?");
    let b = sanitized_filename("Weird / Title?");
    assert_eq!(a, b);
    assert_eq!(a, "Weird _ Title_.m4a");
}

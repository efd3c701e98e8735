use xnote_sync::utils::{
    extract_title_from_markdown, generate_unique_filename, get_mime_type_from_extension,
    sanitize_filename,
};

#[test]
fn sanitize_replaces_reserved_characters() {
    assert_eq!(sanitize_filename("a/b\\c:d*e?f\"g<h>i|j"), "a_b_c_d_e_f_g_h_i_j");
    assert_eq!(sanitize_filename("plain name.md"), "plain name.md");
    assert_eq!(sanitize_filename(""), "");
}

#[test]
fn unique_filename_counts_up() {
    assert_eq!(generate_unique_filename("/att", "pic", "png", &vec![]).unwrap(), "/att/pic.png");
    let taken = vec!["pic.png".to_string(), "pic_1.png".to_string()];
    assert_eq!(generate_unique_filename("/att/", "pic", "png", &taken).unwrap(), "/att/pic_2.png");
    assert_eq!(generate_unique_filename("/att", "a:b", "png", &vec![]).unwrap(), "/att/a_b.png");
}

#[test]
fn title_from_heading() {
    assert_eq!(extract_title_from_markdown("# Test Note\n\nThis is a test."), "Test Note");
    assert_eq!(extract_title_from_markdown("intro\n  ## Second  \nbody"), "Second");
    assert_eq!(extract_title_from_markdown("#\n# Real"), "Real");
}

#[test]
fn title_from_first_line_or_untitled() {
    assert_eq!(extract_title_from_markdown("\n  hello world  \n"), "hello world...");
    let long: String = std::iter::repeat('y').take(80).collect();
    let expected = format!("{}...", "y".repeat(50));
    assert_eq!(extract_title_from_markdown(&long), expected);
    assert_eq!(extract_title_from_markdown(""), "Untitled");
    assert_eq!(extract_title_from_markdown("   \n\t\n"), "Untitled");
}

#[test]
fn mime_types_ignore_case() {
    assert_eq!(get_mime_type_from_extension("png"), "image/png");
    assert_eq!(get_mime_type_from_extension("PNG"), "image/png");
    assert_eq!(get_mime_type_from_extension("JpEg"), "image/jpeg");
    assert_eq!(get_mime_type_from_extension("jpg"), "image/jpeg");
    assert_eq!(get_mime_type_from_extension("svg"), "image/svg+xml");
    assert_eq!(get_mime_type_from_extension("md"), "text/markdown");
    assert_eq!(get_mime_type_from_extension("XML"), "application/xml");
    assert_eq!(get_mime_type_from_extension("exe"), "application/octet-stream");
}

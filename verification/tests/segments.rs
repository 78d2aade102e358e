use aegis_orchestrator_core::application::tool_invocation_service::workflows::sanitize_segment;

#[test]
fn sanitize_segment_handles_empty_and_whitespace() {
    assert_eq!(sanitize_segment(""), "unversioned");
    assert_eq!(sanitize_segment("   "), "unversioned");
}

#[test]
fn sanitize_segment_blocks_traversal_patterns() {
    assert_eq!(sanitize_segment("."), "unversioned");
    assert_eq!(sanitize_segment(".."), "unversioned");
    assert_eq!(sanitize_segment("..hidden"), "unversioned");
    assert_eq!(sanitize_segment("hidden.."), "unversioned");
    assert_eq!(sanitize_segment("a..b"), "unversioned");
    assert_eq!(sanitize_segment("version..1"), "unversioned");
}

#[test]
fn sanitize_segment_replaces_special_characters() {
    assert_eq!(sanitize_segment("foo/bar"), "foo_bar");
    assert_eq!(sanitize_segment("foo\\bar"), "foo_bar");
    assert_eq!(sanitize_segment("foo:bar"), "foo_bar");
    assert_eq!(sanitize_segment("foo bar"), "foo_bar");
    assert_eq!(sanitize_segment("name@domain.com"), "name_domain.com");
}

#[test]
fn sanitize_segment_preserves_safe_mixed_alphanumeric() {
    assert_eq!(sanitize_segment("validName-123"), "validName-123");
    assert_eq!(sanitize_segment("v1.2.3-beta_01"), "v1.2.3-beta_01");
}

#[test]
fn sanitized_segments_stay_in_their_directory() {
    for input in ["/", "a/b/c", " ../x ", "\u{e9}t\u{e9}", ".env", "C:\\temp", "\t.\n"] {
        let segment = sanitize_segment(input);
        assert!(!segment.is_empty());
        assert!(!segment.contains('/') && !segment.contains('\\'));
        assert!(!segment.contains("..") && segment != ".");
    }
    assert_eq!(sanitize_segment("  1.0  "), "1.0");
    assert_eq!(sanitize_segment("\u{e9}t\u{e9}"), "_t_");
}

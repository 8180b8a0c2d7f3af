use sol_ast::header::{line_directive, DirectiveKind, DirectiveParser, HeaderError, TestProps};

#[test]
fn line_directive_extracts_revision_and_rest() {
    let parts = line_directive("//", "  //[rel] evm-version x").unwrap().unwrap();
    assert_eq!(parts.0, Some("rel"));
    assert_eq!(parts.1, "evm-version x");
}

#[test]
fn line_directive_without_revision_marker() {
    let parts = line_directive("//", "// evm-version x").unwrap().unwrap();
    assert_eq!(parts.0, None);
    assert_eq!(parts.1, "evm-version x");
}

#[test]
fn line_directive_ignores_non_comment_lines() {
    assert!(line_directive("//", "contract C {}").unwrap().is_none());
}

#[test]
fn line_directive_rejects_unterminated_marker() {
    let err = line_directive("//", "//[rel evm-version x").unwrap_err();
    assert_eq!(err, HeaderError::UnterminatedRevision);
}

#[test]
fn parse_directive_advances_past_known_keyword() {
    let mut parser = DirectiveParser::new("evm-version paris");
    parser.parse_directive();
    assert_eq!(parser.directive.kind, DirectiveKind::EvmVersion);
    assert!(!parser.directive.negative);
    assert_eq!(parser.line, " paris");
}

#[test]
fn parse_directive_records_negation() {
    let mut parser = DirectiveParser::new("no-evm-version paris");
    parser.parse_directive();
    assert_eq!(parser.directive.kind, DirectiveKind::EvmVersion);
    assert!(parser.directive.negative);
}

#[test]
fn parse_directive_leaves_unknown_lines_alone() {
    let mut parser = DirectiveParser::new("wibble wobble");
    parser.parse_directive();
    assert_eq!(parser.directive.kind, DirectiveKind::Dummy);
    assert_eq!(parser.line, "wibble wobble");
}

#[test]
fn space_separated_evm_version_matches() {
    let props = TestProps::load("// evm-version paris", None).unwrap();
    assert_eq!(props.evm_version, Some("paris".to_string()));
}

#[test]
fn colon_form_does_not_match() {
    let props = TestProps::load("// evm-version: paris", None).unwrap();
    assert_eq!(props.evm_version, None);
}

#[test]
fn revision_scoped_directive_applies_under_that_revision() {
    let props = TestProps::load("//[release] evm-version shanghai", Some("release")).unwrap();
    assert_eq!(props.evm_version, Some("shanghai".to_string()));
}

#[test]
fn revision_scoped_directive_skipped_under_another_revision() {
    let props = TestProps::load("//[release] evm-version shanghai", Some("debug")).unwrap();
    assert_eq!(props.evm_version, None);
}

#[test]
fn revision_scoped_directive_skipped_without_revision() {
    let props = TestProps::load("//[release] evm-version shanghai", None).unwrap();
    assert_eq!(props.evm_version, None);
}

#[test]
fn first_revisions_line_wins() {
    let text = "// revisions: a b c\n// some other line\n// revisions: x y\n";
    let revisions = TestProps::load_revisions(text).unwrap();
    assert_eq!(revisions, ["a", "b", "c"]);
}

#[test]
fn revisions_line_inside_revision_scope_is_ignored() {
    let revisions = TestProps::load_revisions("//[rel] revisions: a b\n").unwrap();
    assert!(revisions.is_empty());
}

#[test]
fn revisions_of_empty_text_are_empty() {
    let revisions = TestProps::load_revisions("").unwrap();
    assert!(revisions.is_empty());
}

#[test]
fn last_evm_version_directive_wins() {
    let text = "// evm-version paris\n// evm-version shanghai\n";
    let props = TestProps::load(text, None).unwrap();
    assert_eq!(props.evm_version, Some("shanghai".to_string()));
}

#[test]
fn empty_text_yields_defaults() {
    let props = TestProps::load("", None).unwrap();
    assert_eq!(props.evm_version, None);
    assert!(props.expected_errors.is_empty());
    assert!(props.normalize_stdout.is_empty());
    assert!(props.normalize_stderr.is_empty());
    assert!(!props.dont_check_compiler_stdout);
    assert!(!props.dont_check_compiler_stderr);
    assert!(!props.compare_output_lines_by_subset);
}

#[test]
fn unterminated_revision_marker_is_fatal() {
    let err = TestProps::load("//[release evm-version paris", None).unwrap_err();
    assert_eq!(err, HeaderError::UnterminatedRevision);
}

#[test]
fn unterminated_revision_marker_is_fatal_for_revisions_too() {
    let err = TestProps::load_revisions("//[oops\n").unwrap_err();
    assert_eq!(err, HeaderError::UnterminatedRevision);
}

#[test]
fn negation_on_value_directive_is_fatal() {
    let err = TestProps::load("// no-evm-version paris", None).unwrap_err();
    assert_eq!(err, HeaderError::NegativeValueDirective);
}

#[test]
fn negation_on_unknown_directive_is_a_no_op() {
    let props = TestProps::load("// no-such-directive paris", None).unwrap();
    assert_eq!(props.evm_version, None);
}

#[test]
fn bare_evm_version_without_value_is_a_no_op() {
    let props = TestProps::load("// evm-version", None).unwrap();
    assert_eq!(props.evm_version, None);
}

#[test]
fn non_comment_lines_are_ignored() {
    let text = "evm-version paris\ncontract C {}\n";
    let props = TestProps::load(text, None).unwrap();
    assert_eq!(props.evm_version, None);
}

#[test]
fn leading_whitespace_and_crlf_are_tolerated() {
    let text = "   //\tevm-version paris\r\n";
    let props = TestProps::load(text, None).unwrap();
    assert_eq!(props.evm_version, Some("paris".to_string()));
}

#[test]
fn revision_marker_without_space_before_directive() {
    let props = TestProps::load("//[release]evm-version shanghai", Some("release")).unwrap();
    assert_eq!(props.evm_version, Some("shanghai".to_string()));
}

#[test]
fn only_the_first_word_becomes_the_value() {
    let props = TestProps::load("// evm-version paris extra words", None).unwrap();
    assert_eq!(props.evm_version, Some("paris".to_string()));
}

#[test]
fn unrecognized_directives_are_no_ops() {
    let text = "// check-stdout yes\n// evm-version osaka\n";
    let props = TestProps::load(text, None).unwrap();
    assert_eq!(props.evm_version, Some("osaka".to_string()));
}

#[test]
fn unscoped_directive_applies_under_any_revision() {
    let props = TestProps::load("// evm-version paris", Some("release")).unwrap();
    assert_eq!(props.evm_version, Some("paris".to_string()));
}

#[test]
fn new_and_default_agree() {
    let a = TestProps::new();
    let b = TestProps::default();
    assert_eq!(a.evm_version, b.evm_version);
    assert_eq!(a.expected_errors.len(), b.expected_errors.len());
    assert_eq!(a.dont_check_compiler_stdout, b.dont_check_compiler_stdout);
}

#[test]
fn load_solc_yields_defaults() {
    let props = TestProps::load_solc("// evm-version paris", None);
    assert_eq!(props.evm_version, None);
    assert!(props.expected_errors.is_empty());
}

#[test]
fn directive_kind_from_str_recognizes_only_evm_version() {
    assert_eq!(DirectiveKind::from_str_("evm-version"), Some(DirectiveKind::EvmVersion));
    assert_eq!(DirectiveKind::from_str_("evm-versions"), None);
    assert_eq!(DirectiveKind::from_str_(""), None);
    assert_eq!(DirectiveKind::from_str_("revisions"), None);
}

#[test]
fn revisions_split_on_runs_of_whitespace() {
    let revisions = TestProps::load_revisions("// revisions:  a\t b  \n").unwrap();
    assert_eq!(revisions, ["a", "b"]);
}

#[test]
fn empty_revisions_line_lets_a_later_one_count() {
    let text = "// revisions:\n// revisions: x y\n";
    let revisions = TestProps::load_revisions(text).unwrap();
    assert_eq!(revisions, ["x", "y"]);
}

use topgrade::osrelease::OsReleaseInfo;
use topgrade::text::{split_lines, split_ws, trim_str, unquote_str};
use topgrade::TopgradeError;

#[test]
fn parse_reads_the_recognised_keys() {
    let rec = OsReleaseInfo::parse(
        "ID=fedora\nNAME=\"Fedora Linux\"\nVARIANT=\"Silverblue\"\nID_LIKE=\"rhel centos\"\n",
    )
    .unwrap();
    assert_eq!(rec.id.as_deref(), Some("fedora"));
    assert_eq!(rec.name.as_deref(), Some("Fedora Linux"));
    assert_eq!(rec.variant.as_deref(), Some("Silverblue"));
    assert_eq!(rec.id_like.as_deref(), Some("rhel centos"));
    assert!(rec.has_entries());
}

#[test]
fn parse_strips_single_and_double_quotes() {
    let rec = OsReleaseInfo::parse("ID='alpine'\nNAME=\"Alpine Linux\"\n").unwrap();
    assert_eq!(rec.id.as_deref(), Some("alpine"));
    assert_eq!(rec.name.as_deref(), Some("Alpine Linux"));
}

#[test]
fn parse_skips_blank_lines_and_comments() {
    let rec =
        OsReleaseInfo::parse("\n# a comment\n; another comment\n  \nID=debian\n").unwrap();
    assert_eq!(rec.id.as_deref(), Some("debian"));
}

#[test]
fn parse_later_assignment_overrides_earlier() {
    let rec = OsReleaseInfo::parse("ID=debian\nID=ubuntu\n").unwrap();
    assert_eq!(rec.id.as_deref(), Some("ubuntu"));
}

#[test]
fn parse_section_ends_the_primary_section() {
    let rec = OsReleaseInfo::parse("ID=debian\n[other]\nID=arch\n").unwrap();
    assert_eq!(rec.id.as_deref(), Some("debian"));
}

#[test]
fn parse_empty_file_has_no_entries() {
    let rec = OsReleaseInfo::parse("").unwrap();
    assert!(!rec.has_entries());
    assert_eq!(rec.id, None);
}

#[test]
fn parse_malformed_line_is_an_error() {
    assert_eq!(
        OsReleaseInfo::parse("ID=debian\nnot an assignment\n").unwrap_err(),
        TopgradeError::InvalidOsRelease
    );
}

#[test]
fn parse_handles_crlf_line_endings() {
    let rec = OsReleaseInfo::parse("ID=debian\r\nNAME=\"Debian GNU/Linux\"\r\n").unwrap();
    assert_eq!(rec.id.as_deref(), Some("debian"));
    assert_eq!(rec.name.as_deref(), Some("Debian GNU/Linux"));
}

#[test]
fn parse_trims_around_keys_and_values() {
    let rec = OsReleaseInfo::parse("  ID  =  debian  \n").unwrap();
    assert_eq!(rec.id.as_deref(), Some("debian"));
}

#[test]
fn parse_keeps_unrecognised_keys_out_of_the_record() {
    let rec = OsReleaseInfo::parse("PRETTY_NAME=\"Something\"\nVERSION_ID=1\n").unwrap();
    assert_eq!(rec.id, None);
    assert_eq!(rec.name, None);
    assert!(rec.has_entries());
}

#[test]
fn parse_empty_value_is_kept_empty() {
    let rec = OsReleaseInfo::parse("ID=\nNAME=\"\"\n").unwrap();
    assert_eq!(rec.id.as_deref(), Some(""));
    assert_eq!(rec.name.as_deref(), Some(""));
}

#[test]
fn trim_removes_surrounding_whitespace() {
    assert_eq!(trim_str("  hello world \t\r\n"), "hello world");
    assert_eq!(trim_str("   "), "");
    assert_eq!(trim_str(""), "");
    assert_eq!(trim_str("x"), "x");
}

#[test]
fn split_ws_tokenises_on_any_whitespace_run() {
    assert_eq!(split_ws("debian  ubuntu\tmint"), ["debian", "ubuntu", "mint"]);
    assert_eq!(split_ws("  lonely  "), ["lonely"]);
    assert!(split_ws("   ").is_empty());
    assert!(split_ws("").is_empty());
}

#[test]
fn split_lines_matches_line_semantics() {
    assert_eq!(split_lines("a\nb"), ["a", "b"]);
    assert_eq!(split_lines("a\nb\n"), ["a", "b"]);
    assert_eq!(split_lines("a\r\nb\r\n"), ["a", "b"]);
    assert_eq!(split_lines("\n"), [""]);
    assert!(split_lines("").is_empty());
}

#[test]
fn unquote_strips_only_matching_quotes() {
    assert_eq!(unquote_str("\"quoted\""), "quoted");
    assert_eq!(unquote_str("'quoted'"), "quoted");
    assert_eq!(unquote_str("\"mismatched'"), "\"mismatched'");
    assert_eq!(unquote_str("plain"), "plain");
    assert_eq!(unquote_str("\""), "\"");
}

use rebase_view::commit::Commit;

const FIELDS_MSG: &str = "Invalid commit data: expected author name, author email, author date, subject and body delimited by record separators";
const NUMSTAT_MSG: &str = "Invalid commit data: malformed numstat line, expected added count, removed count and file name delimited by tabs";

#[test]
fn well_formed_output_parses_to_all_fields() {
    let raw = "John Doe\u{1e}john@example.com\u{1e}Sat Jan 1 00:00:00 2000\u{1e}Fix the bug\u{1e}A longer body\u{1e}\n1\t2\tsrc/main.rs\n3\t0\tREADME.md\n";
    let c = Commit::new(raw).unwrap();
    assert_eq!(c.get_author_name(), "John Doe");
    assert_eq!(c.get_author_email(), "john@example.com");
    assert_eq!(c.get_date(), "Sat Jan 1 00:00:00 2000");
    assert_eq!(c.get_subject(), "Fix the bug");
    assert_eq!(c.get_body(), "A longer body");
    let stats = c.get_file_stats();
    assert_eq!(stats.len(), 2);
    assert_eq!(stats[0].get_added(), "1");
    assert_eq!(stats[0].get_removed(), "2");
    assert_eq!(stats[0].get_name(), "src/main.rs");
    assert_eq!(stats[1].get_added(), "3");
    assert_eq!(stats[1].get_removed(), "0");
    assert_eq!(stats[1].get_name(), "README.md");
}

#[test]
fn too_few_fields_fail_with_description() {
    let err = Commit::new("no separators at all").unwrap_err();
    assert_eq!(err, FIELDS_MSG);
}

#[test]
fn four_separators_are_not_enough() {
    let err = Commit::new("a\u{1e}b\u{1e}c\u{1e}d\u{1e}e").unwrap_err();
    assert_eq!(err, FIELDS_MSG);
}

#[test]
fn malformed_numstat_line_fails_with_description() {
    let err = Commit::new("a\u{1e}b\u{1e}c\u{1e}d\u{1e}e\u{1e}\nbad line without tabs\n").unwrap_err();
    assert_eq!(err, NUMSTAT_MSG);
}

#[test]
fn numstat_line_with_extra_tab_fails() {
    let err = Commit::new("a\u{1e}b\u{1e}c\u{1e}d\u{1e}e\u{1e}\n1\t2\t3\t4\n").unwrap_err();
    assert_eq!(err, NUMSTAT_MSG);
}

#[test]
fn empty_numstat_region_gives_no_stats() {
    let c = Commit::new("a\u{1e}b\u{1e}c\u{1e}d\u{1e}e\u{1e}\n\n").unwrap();
    assert_eq!(c.get_file_stats().len(), 0);
}

#[test]
fn binary_placeholder_counts_are_kept_as_text() {
    let c = Commit::new("a\u{1e}b\u{1e}c\u{1e}d\u{1e}e\u{1e}\n-\t-\timage.png\n").unwrap();
    let stats = c.get_file_stats();
    assert_eq!(stats.len(), 1);
    assert_eq!(stats[0].get_added(), "-");
    assert_eq!(stats[0].get_removed(), "-");
}

#[test]
fn body_keeps_its_newlines() {
    let c = Commit::new("a\u{1e}b\u{1e}c\u{1e}d\u{1e}line one\nline two\u{1e}\n1\t2\tf\n").unwrap();
    assert_eq!(c.get_body(), "line one\nline two");
}

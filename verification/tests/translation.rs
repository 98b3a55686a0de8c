use codespan_reporting::files::SimpleFiles;
use curls::diagnostics::{
    convert_diagnostic, convert_diagnostics, convert_severity, from, label_range, primary_label,
    related_information, use_label_message,
};
use curls::model::{
    Label, LabelStyle, Position, ProtocolDiagnostic, ProtocolSeverity, Range, RawDiagnostic,
    RelatedInformation, Severity, SourceLocation, TranslateError,
};

const SOURCE: &str = "let x = 1;\nlet y = foo;\n";

fn table() -> SimpleFiles<String, String> {
    let mut files = SimpleFiles::new();
    files.add(String::from("file:///main.curly"), String::from(SOURCE));
    files.add(String::from("file:///lib dir/util.curly"), String::from("a\nbc\n"));
    files.add(String::from("not a uri"), String::from("x"));
    files
}

fn label(style: LabelStyle, file_id: usize, start: usize, end: usize, message: &str) -> Label {
    Label { style, file_id, start, end, message: String::from(message) }
}

fn raw(message: &str, severity: Severity, labels: Vec<Label>) -> RawDiagnostic {
    RawDiagnostic { message: String::from(message), code: None, severity, labels }
}

fn range(l0: u64, c0: u64, l1: u64, c1: u64) -> Range {
    Range {
        start: Position { line: l0, character: c0 },
        end: Position { line: l1, character: c1 },
    }
}

#[test]
fn position_is_one_less_in_both_parts() {
    let position = from(&SourceLocation { line_number: 3, column_number: 5 });
    assert_eq!(position, Position { line: 2, character: 4 });
    let origin = from(&SourceLocation { line_number: 1, column_number: 1 });
    assert_eq!(origin, Position { line: 0, character: 0 });
}

#[test]
fn severities_map_onto_the_protocol() {
    assert_eq!(convert_severity(Severity::Error), ProtocolSeverity::Error);
    assert_eq!(convert_severity(Severity::Warning), ProtocolSeverity::Warning);
    assert_eq!(convert_severity(Severity::Note), ProtocolSeverity::Information);
    assert_eq!(convert_severity(Severity::Help), ProtocolSeverity::Hint);
    assert_eq!(convert_severity(Severity::Bug), ProtocolSeverity::Error);
}

#[test]
fn label_message_is_used_unless_empty_or_marker() {
    assert!(use_label_message(&label(LabelStyle::Primary, 0, 0, 1, "expected a number")));
    assert!(!use_label_message(&label(LabelStyle::Primary, 0, 0, 1, "")));
    assert!(!use_label_message(&label(LabelStyle::Primary, 0, 0, 1, "Curried function found here")));
    assert!(use_label_message(&label(LabelStyle::Primary, 0, 0, 1, "curried function found here")));
    assert!(use_label_message(&label(LabelStyle::Primary, 0, 0, 1, "Curried function found here ")));
}

#[test]
fn label_range_resolves_both_ends() {
    let files = table();
    let found = label_range(&label(LabelStyle::Primary, 0, 19, 22, ""), &files);
    assert_eq!(found, Some(range(1, 8, 1, 11)));
    let first = label_range(&label(LabelStyle::Primary, 0, 0, 3, ""), &files);
    assert_eq!(first, Some(range(0, 0, 0, 3)));
    let other = label_range(&label(LabelStyle::Secondary, 1, 2, 4, ""), &files);
    assert_eq!(other, Some(range(1, 0, 1, 2)));
}

#[test]
fn label_range_fails_for_unknown_file() {
    let files = table();
    assert_eq!(label_range(&label(LabelStyle::Primary, 3, 0, 1, ""), &files), None);
    assert_eq!(label_range(&label(LabelStyle::Primary, 99, 0, 0, ""), &files), None);
}

#[test]
fn primary_label_is_the_first_primary() {
    let labels = vec![
        label(LabelStyle::Secondary, 0, 0, 1, "s"),
        label(LabelStyle::Primary, 0, 4, 5, "first"),
        label(LabelStyle::Primary, 0, 8, 9, "second"),
    ];
    assert_eq!(primary_label(&labels).map(|l| l.message.clone()), Some(String::from("first")));
    let none = vec![label(LabelStyle::Secondary, 0, 0, 1, "s")];
    assert_eq!(primary_label(&none), None);
    assert_eq!(primary_label(&Vec::new()), None);
}

#[test]
fn diagnostic_without_primary_label_is_dropped() {
    let files = table();
    let only_secondary = raw(
        "Type mismatch",
        Severity::Error,
        vec![label(LabelStyle::Secondary, 0, 0, 3, "here"), label(LabelStyle::Secondary, 0, 4, 5, "there")],
    );
    assert_eq!(convert_diagnostic(&only_secondary, &files), Ok(None));
    let no_labels = raw("Type mismatch", Severity::Error, vec![]);
    assert_eq!(convert_diagnostic(&no_labels, &files), Ok(None));
    let mut out = Vec::new();
    assert_eq!(convert_diagnostics(&vec![only_secondary, no_labels], &files, &mut out), Ok(()));
    assert!(out.is_empty());
}

#[test]
fn diagnostic_with_unresolved_primary_is_dropped() {
    let files = table();
    let lost = raw("Lost", Severity::Warning, vec![label(LabelStyle::Primary, 8, 0, 1, "nowhere")]);
    assert_eq!(convert_diagnostic(&lost, &files), Ok(None));
    // The first primary label decides, also where a later one would resolve.
    let shadowed = raw(
        "Lost",
        Severity::Warning,
        vec![label(LabelStyle::Primary, 8, 0, 1, "nowhere"), label(LabelStyle::Primary, 0, 0, 1, "here")],
    );
    assert_eq!(convert_diagnostic(&shadowed, &files), Ok(None));
    // A file name that is no URI does no harm where nothing is emitted.
    let quiet = raw(
        "Lost",
        Severity::Warning,
        vec![label(LabelStyle::Primary, 8, 0, 1, "nowhere"), label(LabelStyle::Secondary, 2, 0, 1, "x")],
    );
    assert_eq!(convert_diagnostic(&quiet, &files), Ok(None));
}

#[test]
fn marker_message_falls_back_to_the_diagnostic() {
    let files = table();
    let diagnostic = raw(
        "Type mismatch",
        Severity::Error,
        vec![label(LabelStyle::Primary, 0, 5, 10, "Curried function found here")],
    );
    let converted = convert_diagnostic(&diagnostic, &files).unwrap().unwrap();
    assert_eq!(converted.message, "Type mismatch");
    assert_eq!(converted.range, range(0, 5, 0, 10));
}

#[test]
fn empty_message_falls_back_to_the_diagnostic() {
    let files = table();
    let diagnostic = raw("Unknown name", Severity::Error, vec![label(LabelStyle::Primary, 0, 19, 22, "")]);
    let converted = convert_diagnostic(&diagnostic, &files).unwrap().unwrap();
    assert_eq!(converted.message, "Unknown name");
}

#[test]
fn diagnostic_is_translated_in_full() {
    let files = table();
    let diagnostic = RawDiagnostic {
        message: String::from("Unknown name"),
        code: Some(String::from("E0042")),
        severity: Severity::Note,
        labels: vec![
            label(LabelStyle::Secondary, 1, 2, 4, "defined here"),
            label(LabelStyle::Primary, 0, 19, 22, "`foo` is not in scope"),
            label(LabelStyle::Secondary, 0, 4, 5, ""),
        ],
    };
    let expected = ProtocolDiagnostic {
        message: String::from("`foo` is not in scope"),
        code: Some(String::from("E0042")),
        range: range(1, 8, 1, 11),
        severity: ProtocolSeverity::Information,
        source: String::from("curls"),
        related_information: vec![
            RelatedInformation {
                message: String::from("defined here"),
                uri: String::from("file:///lib%20dir/util.curly"),
                range: range(1, 0, 1, 2),
            },
            RelatedInformation {
                message: String::from(""),
                uri: String::from("file:///main.curly"),
                range: range(0, 4, 0, 5),
            },
        ],
    };
    assert_eq!(convert_diagnostic(&diagnostic, &files), Ok(Some(expected)));
}

#[test]
fn absent_code_stays_absent() {
    let files = table();
    let diagnostic = raw("m", Severity::Help, vec![label(LabelStyle::Primary, 0, 0, 1, "l")]);
    let converted = convert_diagnostic(&diagnostic, &files).unwrap().unwrap();
    assert_eq!(converted.code, None);
    assert_eq!(converted.severity, ProtocolSeverity::Hint);
    assert_eq!(converted.source, "curls");
    assert!(converted.related_information.is_empty());
}

#[test]
fn bug_is_shown_as_error() {
    let files = table();
    let diagnostic = raw("internal", Severity::Bug, vec![label(LabelStyle::Primary, 0, 0, 1, "")]);
    let converted = convert_diagnostic(&diagnostic, &files).unwrap().unwrap();
    assert_eq!(converted.severity, ProtocolSeverity::Error);
    assert_eq!(converted.message, "internal");
}

#[test]
fn unresolved_secondary_label_is_omitted() {
    let files = table();
    let diagnostic = raw(
        "Type mismatch",
        Severity::Error,
        vec![
            label(LabelStyle::Primary, 0, 5, 10, "expected Int"),
            label(LabelStyle::Secondary, 5, 0, 1, "lost"),
            label(LabelStyle::Secondary, 0, 11, 14, "found"),
        ],
    );
    let converted = convert_diagnostic(&diagnostic, &files).unwrap().unwrap();
    assert_eq!(converted.related_information.len(), 1);
    assert_eq!(converted.related_information[0].message, "found");
    assert_eq!(converted.related_information[0].uri, "file:///main.curly");
    assert_eq!(converted.related_information[0].range, range(1, 0, 1, 3));
    assert_eq!(converted.message, "expected Int");
    assert_eq!(converted.range, range(0, 5, 0, 10));

    let without = raw(
        "Type mismatch",
        Severity::Error,
        vec![label(LabelStyle::Primary, 0, 5, 10, "expected Int"), label(LabelStyle::Secondary, 0, 11, 14, "found")],
    );
    assert_eq!(convert_diagnostic(&without, &files), Ok(Some(converted)));
}

#[test]
fn secondary_marker_message_is_kept_verbatim() {
    let files = table();
    let labels = vec![label(LabelStyle::Secondary, 0, 0, 3, "Curried function found here")];
    let related = related_information(&labels, &files).unwrap();
    assert_eq!(related.len(), 1);
    assert_eq!(related[0].message, "Curried function found here");
}

#[test]
fn primary_labels_are_no_related_information() {
    let files = table();
    let labels = vec![label(LabelStyle::Primary, 0, 0, 3, "a"), label(LabelStyle::Primary, 0, 4, 5, "b")];
    assert_eq!(related_information(&labels, &files), Ok(vec![]));
}

#[test]
fn uri_is_parsed_not_copied() {
    let files = table();
    let labels = vec![label(LabelStyle::Secondary, 1, 0, 1, "x")];
    let related = related_information(&labels, &files).unwrap();
    assert_eq!(related[0].uri, "file:///lib%20dir/util.curly");
    assert_ne!(related[0].uri, "file:///lib dir/util.curly");
}

#[test]
fn malformed_file_name_is_an_error() {
    let files = table();
    let labels = vec![label(LabelStyle::Secondary, 0, 0, 1, "fine"), label(LabelStyle::Secondary, 2, 0, 1, "bad")];
    assert_eq!(
        related_information(&labels, &files),
        Err(TranslateError::MalformedFileName { file_id: 2 })
    );
    let diagnostic = raw(
        "m",
        Severity::Error,
        vec![label(LabelStyle::Primary, 0, 0, 1, "p"), label(LabelStyle::Secondary, 2, 0, 1, "bad")],
    );
    assert_eq!(
        convert_diagnostic(&diagnostic, &files),
        Err(TranslateError::MalformedFileName { file_id: 2 })
    );
}

#[test]
fn error_leaves_the_list_unchanged() {
    let files = table();
    let good = raw("good", Severity::Error, vec![label(LabelStyle::Primary, 0, 0, 1, "")]);
    let bad = raw(
        "bad",
        Severity::Error,
        vec![label(LabelStyle::Primary, 0, 0, 1, "p"), label(LabelStyle::Secondary, 2, 0, 1, "bad")],
    );
    let mut out = Vec::new();
    assert_eq!(convert_diagnostics(&vec![good.clone()], &files, &mut out), Ok(()));
    assert_eq!(out.len(), 1);
    let before = out.clone();
    assert_eq!(
        convert_diagnostics(&vec![good, bad], &files, &mut out),
        Err(TranslateError::MalformedFileName { file_id: 2 })
    );
    assert_eq!(out, before);
}

#[test]
fn order_of_survivors_is_kept() {
    let files = table();
    let list = vec![
        raw("first", Severity::Error, vec![label(LabelStyle::Primary, 0, 0, 1, "")]),
        raw("dropped", Severity::Error, vec![label(LabelStyle::Secondary, 0, 0, 1, "")]),
        raw("second", Severity::Warning, vec![label(LabelStyle::Primary, 0, 4, 5, "")]),
        raw("lost", Severity::Warning, vec![label(LabelStyle::Primary, 9, 4, 5, "")]),
        raw("third", Severity::Help, vec![label(LabelStyle::Primary, 1, 2, 3, "")]),
    ];
    let mut out = Vec::new();
    assert_eq!(convert_diagnostics(&list, &files, &mut out), Ok(()));
    let messages: Vec<&str> = out.iter().map(|d| d.message.as_str()).collect();
    assert_eq!(messages, vec!["first", "second", "third"]);
    assert_eq!(out[2].range, range(1, 0, 1, 1));
}

#[test]
fn translation_appends_to_what_is_there() {
    let files = table();
    let list = vec![raw("new", Severity::Error, vec![label(LabelStyle::Primary, 0, 0, 1, "")])];
    let mut out = Vec::new();
    assert_eq!(
        convert_diagnostics(&vec![raw("old", Severity::Error, vec![label(LabelStyle::Primary, 0, 0, 1, "")])], &files, &mut out),
        Ok(())
    );
    assert_eq!(convert_diagnostics(&list, &files, &mut out), Ok(()));
    assert_eq!(out.len(), 2);
    assert_eq!(out[0].message, "old");
    assert_eq!(out[1].message, "new");
}

#[test]
fn empty_input_gives_empty_output() {
    let files: SimpleFiles<String, String> = SimpleFiles::new();
    let mut out = Vec::new();
    assert_eq!(convert_diagnostics(&Vec::new(), &files, &mut out), Ok(()));
    assert!(out.is_empty());
}

#[test]
fn positions_do_not_go_back_as_offsets_grow() {
    let files = table();
    let mut last = Position { line: 0, character: 0 };
    for offset in 0..SOURCE.len() {
        let found = label_range(&label(LabelStyle::Primary, 0, offset, offset + 1, ""), &files);
        let found = found.unwrap();
        assert!((last.line, last.character) <= (found.start.line, found.start.character));
        assert!((found.start.line, found.start.character) <= (found.end.line, found.end.character));
        last = found.start;
    }
    assert_eq!(last, Position { line: 1, character: 12 });
}

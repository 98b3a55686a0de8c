//! The translation itself: from the checker's diagnostics and its file table to the editor's
//! diagnostics.

use crate::files::{file_entries, file_name, locate, name_of, parse_uri, parsed_uri, resolved};
use crate::model::{
    diagnostic_views, label_views, raw_views, related_views, Label, LabelStyle, LabelView, Position,
    ProtocolDiagnostic, ProtocolDiagnosticView, ProtocolSeverity, Range, RawDiagnostic,
    RawDiagnosticView, RelatedInformation, RelatedInformationView, Severity, SourceLocation,
    TranslateError,
};
use codespan_reporting::files::SimpleFiles;
use vstd::prelude::*;

verus! {

/// The tag that every translated diagnostic carries as its source.
pub open spec fn source_tag() -> Seq<char> {
    "curls"@
}

/// The message that marks a label as a mere cross-reference.
pub open spec fn curried_marker() -> Seq<char> {
    "Curried function found here"@
}

/// The editor's position for a checker's location: both parts one less.
pub open spec fn position_of(location: SourceLocation) -> Position {
    Position {
        line: (location.line_number - 1) as u64,
        character: (location.column_number - 1) as u64,
    }
}

/// The editor's range for a label: both ends resolved in the label's file, or nothing where
/// either end has no place.
pub open spec fn spec_label_range(
    entries: Seq<(Seq<char>, Seq<char>)>,
    label: LabelView,
) -> Option<Range> {
    match (
        resolved(entries, label.file_id, label.start),
        resolved(entries, label.file_id, label.end),
    ) {
        (Some(start), Some(end)) => Some(
            Range { start: position_of(start), end: position_of(end) },
        ),
        _ => None,
    }
}

/// Whether a primary label's message is shown in place of its diagnostic's.
pub open spec fn spec_use_label_message(message: Seq<char>) -> bool {
    message.len() != 0 && message != curried_marker()
}

pub open spec fn spec_severity(severity: Severity) -> ProtocolSeverity {
    match severity {
        Severity::Bug => ProtocolSeverity::Error,
        Severity::Error => ProtocolSeverity::Error,
        Severity::Warning => ProtocolSeverity::Warning,
        Severity::Note => ProtocolSeverity::Information,
        Severity::Help => ProtocolSeverity::Hint,
    }
}

/// Turns a location counted from one into a position counted from zero.
pub fn from(location: &SourceLocation) -> (position: Position)
    requires
        location.well_formed(),
    ensures
        position == position_of(*location),
        position.line == location.line_number - 1,
        position.character == location.column_number - 1,
{
    Position {
        line: (location.line_number - 1) as u64,
        character: (location.column_number - 1) as u64,
    }
}

/// Resolves both ends of a label in its file.
pub fn label_range(label: &Label, files: &SimpleFiles<String, String>) -> (range: Option<Range>)
    ensures
        range == spec_label_range(file_entries(*files), label@),
{
    if let Some(start) = locate(files, label.file_id, label.start) {
        if let Some(end) = locate(files, label.file_id, label.end) {
            return Some(Range { start: from(&start), end: from(&end) });
        }
    }
    None
}

/// Says whether a label's own message is worth showing: it is not when it is empty or the
/// cross-reference marker.
pub fn use_label_message(label: &Label) -> (shown: bool)
    ensures
        shown == spec_use_label_message(label@.message),
        shown <==> !(label@.message == curried_marker() || label@.message.len() == 0),
{
    let marker = "Curried function found here".to_owned();
    if label.message == marker || label.message.as_str().is_empty() {
        return false;
    }
    true
}

/// Maps the checker's five severities onto the editor's four. A bug of the checker is shown as
/// an error.
pub fn convert_severity(severity: Severity) -> (converted: ProtocolSeverity)
    ensures
        converted == spec_severity(severity),
        severity == Severity::Bug ==> converted == ProtocolSeverity::Error,
{
    match severity {
        Severity::Error => ProtocolSeverity::Error,
        Severity::Warning => ProtocolSeverity::Warning,
        Severity::Note => ProtocolSeverity::Information,
        Severity::Help => ProtocolSeverity::Hint,
        Severity::Bug => ProtocolSeverity::Error,
    }
}

/// The first primary label among those from index `from` on.
pub open spec fn first_primary_from(labels: Seq<LabelView>, from: int) -> Option<LabelView>
    decreases labels.len() - from,
{
    if from < 0 || from >= labels.len() {
        None
    } else if labels[from].style == LabelStyle::Primary {
        Some(labels[from])
    } else {
        first_primary_from(labels, from + 1)
    }
}

/// The label that anchors a diagnostic: the first primary one.
pub open spec fn first_primary(labels: Seq<LabelView>) -> Option<LabelView> {
    first_primary_from(labels, 0)
}

/// Whether a label becomes a cross-reference: it is secondary and both its ends have a place.
pub open spec fn is_related(entries: Seq<(Seq<char>, Seq<char>)>, label: LabelView) -> bool {
    label.style == LabelStyle::Secondary && spec_label_range(entries, label) is Some
}

/// The cross-reference that a label becomes, or the error where its file's name is no URI.
pub open spec fn related_entry(
    entries: Seq<(Seq<char>, Seq<char>)>,
    label: LabelView,
) -> Result<RelatedInformationView, TranslateError>
    recommends
        is_related(entries, label),
{
    match parsed_uri(name_of(entries, label.file_id).unwrap()) {
        Some(uri) => Ok(
            RelatedInformationView {
                message: label.message,
                uri,
                range: spec_label_range(entries, label).unwrap(),
            },
        ),
        None => Err(TranslateError::MalformedFileName { file_id: label.file_id }),
    }
}

/// The cross-references of the first `n` labels, in the labels' order, or the error of the
/// first label among them that has one.
pub open spec fn related_upto(
    entries: Seq<(Seq<char>, Seq<char>)>,
    labels: Seq<LabelView>,
    n: int,
) -> Result<Seq<RelatedInformationView>, TranslateError>
    decreases n,
{
    if n <= 0 || n > labels.len() {
        Ok(Seq::empty())
    } else {
        match related_upto(entries, labels, n - 1) {
            Err(error) => Err(error),
            Ok(before) => if is_related(entries, labels[n - 1]) {
                match related_entry(entries, labels[n - 1]) {
                    Ok(entry) => Ok(before.push(entry)),
                    Err(error) => Err(error),
                }
            } else {
                Ok(before)
            },
        }
    }
}

/// The cross-references of a diagnostic's labels.
pub open spec fn spec_related(
    entries: Seq<(Seq<char>, Seq<char>)>,
    labels: Seq<LabelView>,
) -> Result<Seq<RelatedInformationView>, TranslateError> {
    related_upto(entries, labels, labels.len() as int)
}

/// What one diagnostic of the checker becomes: nothing where it has no primary label or the
/// first such label has no range; else the editor's diagnostic, or the error of its
/// cross-references.
pub open spec fn spec_convert(
    entries: Seq<(Seq<char>, Seq<char>)>,
    raw: RawDiagnosticView,
) -> Result<Option<ProtocolDiagnosticView>, TranslateError> {
    match first_primary(raw.labels) {
        None => Ok(None),
        Some(label) => match spec_label_range(entries, label) {
            None => Ok(None),
            Some(range) => match spec_related(entries, raw.labels) {
                Err(error) => Err(error),
                Ok(related) => Ok(
                    Some(
                        ProtocolDiagnosticView {
                            message: if spec_use_label_message(label.message) {
                                label.message
                            } else {
                                raw.message
                            },
                            code: raw.code,
                            range,
                            severity: spec_severity(raw.severity),
                            source: source_tag(),
                            related_information: related,
                        },
                    ),
                ),
            },
        },
    }
}

/// What the first `n` diagnostics of the checker become, in their order, or the error of the
/// first among them that has one.
pub open spec fn converted_upto(
    entries: Seq<(Seq<char>, Seq<char>)>,
    raw: Seq<RawDiagnosticView>,
    n: int,
) -> Result<Seq<ProtocolDiagnosticView>, TranslateError>
    decreases n,
{
    if n <= 0 || n > raw.len() {
        Ok(Seq::empty())
    } else {
        match converted_upto(entries, raw, n - 1) {
            Err(error) => Err(error),
            Ok(before) => match spec_convert(entries, raw[n - 1]) {
                Err(error) => Err(error),
                Ok(Some(diagnostic)) => Ok(before.push(diagnostic)),
                Ok(None) => Ok(before),
            },
        }
    }
}

/// What a list of the checker's diagnostics becomes.
pub open spec fn spec_convert_all(
    entries: Seq<(Seq<char>, Seq<char>)>,
    raw: Seq<RawDiagnosticView>,
) -> Result<Seq<ProtocolDiagnosticView>, TranslateError> {
    converted_upto(entries, raw, raw.len() as int)
}

/// An error among the first `n` labels is the error of any longer run of them.
pub proof fn lemma_related_error_stays(
    entries: Seq<(Seq<char>, Seq<char>)>,
    labels: Seq<LabelView>,
    n: int,
    m: int,
)
    requires
        0 <= n <= m <= labels.len(),
        related_upto(entries, labels, n) is Err,
    ensures
        related_upto(entries, labels, m) == related_upto(entries, labels, n),
    decreases m - n,
{
    if n < m {
        lemma_related_error_stays(entries, labels, n, m - 1);
    }
}

/// An error among the first `n` diagnostics is the error of any longer run of them.
pub proof fn lemma_converted_error_stays(
    entries: Seq<(Seq<char>, Seq<char>)>,
    raw: Seq<RawDiagnosticView>,
    n: int,
    m: int,
)
    requires
        0 <= n <= m <= raw.len(),
        converted_upto(entries, raw, n) is Err,
    ensures
        converted_upto(entries, raw, m) == converted_upto(entries, raw, n),
    decreases m - n,
{
    if n < m {
        lemma_converted_error_stays(entries, raw, n, m - 1);
    }
}

/// Finds the label that anchors a diagnostic: the first primary one, if there is any.
pub fn primary_label(labels: &Vec<Label>) -> (found: Option<&Label>)
    ensures
        match found {
            Some(label) => first_primary(label_views(labels@)) == Some(label@),
            None => first_primary(label_views(labels@)) is None,
        },
{
    let mut i: usize = 0;
    while i < labels.len()
        invariant
            0 <= i <= labels.len(),
            first_primary(label_views(labels@)) == first_primary_from(
                label_views(labels@),
                i as int,
            ),
        decreases labels.len() - i,
    {
        if labels[i].style == LabelStyle::Primary {
            return Some(&labels[i]);
        }
        i += 1;
    }
    None
}

/// Builds the cross-references of a diagnostic from its secondary labels, in their order. A
/// label whose range does not resolve is passed over; one whose file is named by no URI ends
/// the work with an error.
pub fn related_information(
    labels: &Vec<Label>,
    files: &SimpleFiles<String, String>,
) -> (result: Result<Vec<RelatedInformation>, TranslateError>)
    ensures
        match spec_related(file_entries(*files), label_views(labels@)) {
            Ok(related) => result is Ok && related_views(result.unwrap()@) == related,
            Err(error) => result == Err::<Vec<RelatedInformation>, TranslateError>(error),
        },
{
    let ghost entries = file_entries(*files);
    let ghost views = label_views(labels@);
    let mut related: Vec<RelatedInformation> = Vec::new();
    let mut i: usize = 0;
    assert(related_views(related@) =~= Seq::empty());
    while i < labels.len()
        invariant
            0 <= i <= labels.len(),
            entries == file_entries(*files),
            views == label_views(labels@),
            related_upto(entries, views, i as int) == Ok::<
                Seq<RelatedInformationView>,
                TranslateError,
            >(related_views(related@)),
        decreases labels.len() - i,
    {
        let label = &labels[i];
        assert(views[i as int] == label@);
        if label.style == LabelStyle::Secondary {
            if let Some(range) = label_range(label, files) {
                let name = file_name(files, label.file_id);
                match name {
                    Some(name) => match parse_uri(name.as_str()) {
                        Some(uri) => {
                            let ghost before = related_views(related@);
                            let entry = RelatedInformation {
                                message: label.message.clone(),
                                uri,
                                range,
                            };
                            related.push(entry);
                            assert(related_views(related@) =~= before.push(entry@));
                        },
                        None => {
                            proof {
                                lemma_related_error_stays(
                                    entries,
                                    views,
                                    i as int + 1,
                                    labels.len() as int,
                                );
                            }
                            return Err(
                                TranslateError::MalformedFileName { file_id: label.file_id },
                            );
                        },
                    },
                    None => {
                        // Not reached: a range resolves only in a file that the table holds.
                        assert(false);
                    },
                }
            }
        }
        i += 1;
    }
    Ok(related)
}

/// Translates one diagnostic of the checker. It becomes nothing where it has no primary label,
/// or where the first such label has no range in the file table.
pub fn convert_diagnostic(
    raw: &RawDiagnostic,
    files: &SimpleFiles<String, String>,
) -> (result: Result<Option<ProtocolDiagnostic>, TranslateError>)
    ensures
        match spec_convert(file_entries(*files), raw@) {
            Ok(Some(diagnostic)) => result is Ok && result.unwrap() is Some
                && result.unwrap().unwrap()@ == diagnostic,
            Ok(None) => result is Ok && result.unwrap() is None,
            Err(error) => result == Err::<Option<ProtocolDiagnostic>, TranslateError>(error),
        },
{
    if let Some(label) = primary_label(&raw.labels) {
        if let Some(range) = label_range(label, files) {
            let related = match related_information(&raw.labels, files) {
                Ok(related) => related,
                Err(error) => {
                    return Err(error);
                },
            };
            let message = if use_label_message(label) {
                label.message.clone()
            } else {
                raw.message.clone()
            };
            let code = match &raw.code {
                Some(code) => Some(code.clone()),
                None => None,
            };
            return Ok(
                Some(
                    ProtocolDiagnostic {
                        message,
                        code,
                        range,
                        severity: convert_severity(raw.severity),
                        source: "curls".to_owned(),
                        related_information: related,
                    },
                ),
            );
        }
    }
    Ok(None)
}

/// Translates the checker's diagnostics, in their order, and appends what they become to
/// `diagnostics`. On an error nothing is appended.
pub fn convert_diagnostics(
    raw_diagnostics: &Vec<RawDiagnostic>,
    files: &SimpleFiles<String, String>,
    diagnostics: &mut Vec<ProtocolDiagnostic>,
) -> (result: Result<(), TranslateError>)
    ensures
        match spec_convert_all(file_entries(*files), raw_views(raw_diagnostics@)) {
            Ok(converted) => result is Ok && diagnostic_views(final(diagnostics)@)
                == diagnostic_views(old(diagnostics)@) + converted,
            Err(error) => result == Err::<(), TranslateError>(error) && final(diagnostics)@ == old(
                diagnostics,
            )@,
        },
{
    let ghost entries = file_entries(*files);
    let ghost views = raw_views(raw_diagnostics@);
    let mut converted: Vec<ProtocolDiagnostic> = Vec::new();
    let mut i: usize = 0;
    assert(diagnostic_views(converted@) =~= Seq::empty());
    while i < raw_diagnostics.len()
        invariant
            0 <= i <= raw_diagnostics.len(),
            entries == file_entries(*files),
            views == raw_views(raw_diagnostics@),
            converted_upto(entries, views, i as int) == Ok::<
                Seq<ProtocolDiagnosticView>,
                TranslateError,
            >(diagnostic_views(converted@)),
        decreases raw_diagnostics.len() - i,
    {
        assert(views[i as int] == raw_diagnostics[i as int]@);
        match convert_diagnostic(&raw_diagnostics[i], files) {
            Ok(Some(diagnostic)) => {
                let ghost before = diagnostic_views(converted@);
                let ghost view = diagnostic@;
                converted.push(diagnostic);
                assert(diagnostic_views(converted@) =~= before.push(view));
            },
            Ok(None) => {},
            Err(error) => {
                proof {
                    lemma_converted_error_stays(
                        entries,
                        views,
                        i as int + 1,
                        raw_diagnostics.len() as int,
                    );
                }
                return Err(error);
            },
        }
        i += 1;
    }
    let ghost before = diagnostics@;
    let ghost added = converted@;
    diagnostics.append(&mut converted);
    assert(diagnostic_views(diagnostics@) =~= diagnostic_views(before) + diagnostic_views(added));
    Ok(())
}

} // verus!

//! The decisions around one run of the checker: what it is asked when a document is opened or
//! changed, and what is published to the editor once it has answered.

use crate::diagnostics::{convert_diagnostics, spec_convert_all};
use crate::files::file_entries;
use crate::model::{
    diagnostic_views, raw_views, ProtocolDiagnostic, ProtocolDiagnosticView, RawDiagnostic,
    TranslateError,
};
use codespan_reporting::files::SimpleFiles;
use vstd::prelude::*;

verus! {

/// What the checker is asked: the files by name, each with the flag that marks an entry point,
/// and their texts in the same order.
#[derive(Clone, Debug, PartialEq, Eq)]
pub struct CheckRequest {
    pub filenames: Vec<(String, bool)>,
    pub sources: Vec<String>,
}

/// What the checker answered: the text is sound, or it is not and these are the diagnostics
/// with the file table that their labels point into.
pub enum CheckOutcome {
    Success,
    Failure { raw_diagnostics: Vec<RawDiagnostic>, files: SimpleFiles<String, String> },
}

/// One notification to the editor: the diagnostics that replace all earlier ones of a document.
#[derive(Clone, Debug, PartialEq, Eq)]
pub struct Publication {
    pub uri: String,
    pub diagnostics: Vec<ProtocolDiagnostic>,
    pub version: Option<i32>,
}

/// The diagnostics to publish for an answer of the checker: none for sound text, else the
/// translation of what it reported.
pub open spec fn spec_published(outcome: CheckOutcome) -> Result<
    Seq<ProtocolDiagnosticView>,
    TranslateError,
> {
    match outcome {
        CheckOutcome::Success => Ok(Seq::empty()),
        CheckOutcome::Failure { raw_diagnostics, files } => spec_convert_all(
            file_entries(files),
            raw_views(raw_diagnostics@),
        ),
    }
}

/// A document was opened or changed: its URI, its full text, and its version where the editor
/// gave one.
#[derive(Clone, Debug, PartialEq, Eq)]
pub struct DocumentEvent {
    pub uri: String,
    pub text: String,
    pub version: Option<i32>,
}

/// The event of a document being opened. It carries no version.
pub fn on_open(uri: &str, text: &str) -> (event: DocumentEvent)
    ensures
        event.uri@ == uri@,
        event.text@ == text@,
        event.version is None,
{
    DocumentEvent { uri: uri.to_owned(), text: text.to_owned(), version: None }
}

/// The event of a document being changed to a new full text, with the version of that text.
pub fn on_change(uri: &str, text: &str, version: i32) -> (event: DocumentEvent)
    ensures
        event.uri@ == uri@,
        event.text@ == text@,
        event.version == Some(version),
{
    DocumentEvent { uri: uri.to_owned(), text: text.to_owned(), version: Some(version) }
}

/// Builds the question for the checker from an event: the one document by its URI, not marked
/// as an entry point, and its one text.
pub fn check_request(event: &DocumentEvent) -> (request: CheckRequest)
    ensures
        request.filenames@.len() == 1,
        request.filenames@[0].0@ == event.uri@,
        !request.filenames@[0].1,
        request.sources@.len() == 1,
        request.sources@[0]@ == event.text@,
{
    let mut filenames: Vec<(String, bool)> = Vec::new();
    filenames.push((event.uri.clone(), false));
    let mut sources: Vec<String> = Vec::new();
    sources.push(event.text.clone());
    CheckRequest { filenames, sources }
}

/// Builds the one notification that answers an event, once the checker has answered. It is
/// addressed to the event's document and carries the event's version as it came. Its list is
/// empty where the checker found the text sound, which clears what was published before.
pub fn publication(event: &DocumentEvent, outcome: &CheckOutcome) -> (result: Result<
    Publication,
    TranslateError,
>)
    ensures
        match spec_published(*outcome) {
            Ok(diagnostics) => result is Ok && result.unwrap().uri@ == event.uri@
                && result.unwrap().version == event.version && diagnostic_views(
                result.unwrap().diagnostics@,
            ) == diagnostics,
            Err(error) => result == Err::<Publication, TranslateError>(error),
        },
{
    let mut diagnostics: Vec<ProtocolDiagnostic> = Vec::new();
    assert(diagnostic_views(diagnostics@) =~= Seq::empty());
    match outcome {
        CheckOutcome::Success => {},
        CheckOutcome::Failure { raw_diagnostics, files } => {
            match convert_diagnostics(raw_diagnostics, files, &mut diagnostics) {
                Ok(()) => {
                    assert(diagnostic_views(diagnostics@) =~= spec_published(*outcome).unwrap());
                },
                Err(error) => {
                    return Err(error);
                },
            }
        },
    }
    Ok(Publication { uri: event.uri.clone(), diagnostics, version: event.version })
}

} // verus!

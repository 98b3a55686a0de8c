//! The data that the translation reads and writes, and the mathematical view of each type.

use vstd::prelude::*;

verus! {

/// How serious the checker takes a diagnostic to be.
#[derive(Clone, Copy, Debug, PartialEq, Eq, Structural)]
pub enum Severity {
    Bug,
    Error,
    Warning,
    Note,
    Help,
}

/// How serious the editor is told a diagnostic is.
#[derive(Clone, Copy, Debug, PartialEq, Eq, Structural)]
pub enum ProtocolSeverity {
    Error,
    Warning,
    Information,
    Hint,
}

/// A primary label is a diagnostic's anchor; a secondary label is a cross-reference.
#[derive(Clone, Copy, Debug, PartialEq, Eq, Structural)]
pub enum LabelStyle {
    Primary,
    Secondary,
}

/// A place in a source file as the checker counts it: lines and columns start at one.
#[derive(Clone, Copy, Debug, PartialEq, Eq, Structural)]
pub struct SourceLocation {
    pub line_number: usize,
    pub column_number: usize,
}

impl SourceLocation {
    /// Lines and columns are counted from one.
    pub open spec fn well_formed(&self) -> bool {
        self.line_number >= 1 && self.column_number >= 1
    }
}

/// A place in a document as the editor counts it: lines and characters start at zero.
#[derive(Clone, Copy, Debug, PartialEq, Eq, Structural)]
pub struct Position {
    pub line: u64,
    pub character: u64,
}

#[derive(Clone, Copy, Debug, PartialEq, Eq, Structural)]
pub struct Range {
    pub start: Position,
    pub end: Position,
}

/// A marked stretch of one source file: the bytes from `start` up to, not including, `end`.
#[derive(Clone, Debug, PartialEq, Eq)]
pub struct Label {
    pub style: LabelStyle,
    pub file_id: usize,
    pub start: usize,
    pub end: usize,
    pub message: String,
}

pub struct LabelView {
    pub style: LabelStyle,
    pub file_id: usize,
    pub start: usize,
    pub end: usize,
    pub message: Seq<char>,
}

impl View for Label {
    type V = LabelView;

    open spec fn view(&self) -> LabelView {
        LabelView {
            style: self.style,
            file_id: self.file_id,
            start: self.start,
            end: self.end,
            message: self.message@,
        }
    }
}

/// A diagnostic as the checker reports it.
#[derive(Clone, Debug, PartialEq, Eq)]
pub struct RawDiagnostic {
    pub message: String,
    pub code: Option<String>,
    pub severity: Severity,
    pub labels: Vec<Label>,
}

pub struct RawDiagnosticView {
    pub message: Seq<char>,
    pub code: Option<Seq<char>>,
    pub severity: Severity,
    pub labels: Seq<LabelView>,
}

pub open spec fn text_view(text: Option<String>) -> Option<Seq<char>> {
    match text {
        Some(s) => Some(s@),
        None => None,
    }
}

pub open spec fn label_views(labels: Seq<Label>) -> Seq<LabelView> {
    labels.map_values(|l: Label| l@)
}

impl View for RawDiagnostic {
    type V = RawDiagnosticView;

    open spec fn view(&self) -> RawDiagnosticView {
        RawDiagnosticView {
            message: self.message@,
            code: text_view(self.code),
            severity: self.severity,
            labels: label_views(self.labels@),
        }
    }
}

pub open spec fn raw_views(raw: Seq<RawDiagnostic>) -> Seq<RawDiagnosticView> {
    raw.map_values(|d: RawDiagnostic| d@)
}

/// A cross-reference of a diagnostic: a message and the place, in some document, that it is about.
#[derive(Clone, Debug, PartialEq, Eq)]
pub struct RelatedInformation {
    pub message: String,
    pub uri: String,
    pub range: Range,
}

pub struct RelatedInformationView {
    pub message: Seq<char>,
    pub uri: Seq<char>,
    pub range: Range,
}

impl View for RelatedInformation {
    type V = RelatedInformationView;

    open spec fn view(&self) -> RelatedInformationView {
        RelatedInformationView { message: self.message@, uri: self.uri@, range: self.range }
    }
}

pub open spec fn related_views(related: Seq<RelatedInformation>) -> Seq<RelatedInformationView> {
    related.map_values(|r: RelatedInformation| r@)
}

/// A diagnostic as the editor takes it.
#[derive(Clone, Debug, PartialEq, Eq)]
pub struct ProtocolDiagnostic {
    pub message: String,
    pub code: Option<String>,
    pub range: Range,
    pub severity: ProtocolSeverity,
    pub source: String,
    pub related_information: Vec<RelatedInformation>,
}

pub struct ProtocolDiagnosticView {
    pub message: Seq<char>,
    pub code: Option<Seq<char>>,
    pub range: Range,
    pub severity: ProtocolSeverity,
    pub source: Seq<char>,
    pub related_information: Seq<RelatedInformationView>,
}

impl View for ProtocolDiagnostic {
    type V = ProtocolDiagnosticView;

    open spec fn view(&self) -> ProtocolDiagnosticView {
        ProtocolDiagnosticView {
            message: self.message@,
            code: text_view(self.code),
            range: self.range,
            severity: self.severity,
            source: self.source@,
            related_information: related_views(self.related_information@),
        }
    }
}

pub open spec fn diagnostic_views(diagnostics: Seq<ProtocolDiagnostic>) -> Seq<
    ProtocolDiagnosticView,
> {
    diagnostics.map_values(|d: ProtocolDiagnostic| d@)
}

/// Why a translation was given up: the checker broke its side of the agreement.
#[derive(Clone, Copy, Debug, PartialEq, Eq, Structural)]
pub enum TranslateError {
    /// A secondary label points into the file with this id, whose name is no well-formed URI.
    MalformedFileName { file_id: usize },
}

} // verus!

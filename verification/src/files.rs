//! The file table of one analysis cycle and the questions the translation asks of it.
//!
//! The table is `codespan_reporting`'s `SimpleFiles`, and file names are parsed as URIs by the
//! `Url` type that `tower_lsp` hands on. Verus does not look into either: what this module
//! states of them is taken on trust from their sources.

use crate::model::{text_view, SourceLocation};
use codespan_reporting::files::Files;
use codespan_reporting::files::SimpleFiles;
use tower_lsp::lsp_types::Url;
use vstd::prelude::*;

verus! {

#[verifier::external_type_specification]
#[verifier::external_body]
#[verifier::reject_recursive_types(Name)]
#[verifier::reject_recursive_types(Source)]
pub struct ExSimpleFiles<Name, Source>(SimpleFiles<Name, Source>);

/// The files of a table in the order in which they were added, each as its name and its
/// contents. A file's id is its index here.
pub uninterp spec fn file_entries(files: SimpleFiles<String, String>) -> Seq<
    (Seq<char>, Seq<char>),
>;

/// The line number and column number, both counted from one, that `Files::location` gives for a
/// byte offset into a file with these contents, where it gives any.
pub uninterp spec fn located_in(source: Seq<char>, byte_index: usize) -> Option<(usize, usize)>;

/// The text of the URI that `Url::parse` reads out of a name, or `None` where it reads none.
pub uninterp spec fn parsed_uri(name: Seq<char>) -> Option<Seq<char>>;

/// Where a byte offset into a file of the table lies. There is no such place in a file that the
/// table does not hold.
pub open spec fn resolved(
    entries: Seq<(Seq<char>, Seq<char>)>,
    file_id: usize,
    byte_index: usize,
) -> Option<SourceLocation> {
    if file_id < entries.len() {
        location_of(located_in(entries[file_id as int].1, byte_index))
    } else {
        None
    }
}

/// A line number and a column number as a location.
pub open spec fn location_of(found: Option<(usize, usize)>) -> Option<SourceLocation> {
    match found {
        Some((line_number, column_number)) => Some(SourceLocation { line_number, column_number }),
        None => None,
    }
}

/// The name of a file of the table.
pub open spec fn name_of(entries: Seq<(Seq<char>, Seq<char>)>, file_id: usize) -> Option<
    Seq<char>,
> {
    if file_id < entries.len() {
        Some(entries[file_id as int].0)
    } else {
        None
    }
}

/// Calls `Files::location` on the table. Trusted: the answer depends on the file's contents and
/// the offset alone, a file id that the table does not hold gets none, and the line and column
/// of an answer are at least one, since the crate adds one to an index for each.
#[verifier::external_body]
pub(crate) fn locate(
    files: &SimpleFiles<String, String>,
    file_id: usize,
    byte_index: usize,
) -> (r: Option<SourceLocation>)
    ensures
        file_id < file_entries(*files).len() ==> r == location_of(
            located_in(file_entries(*files)[file_id as int].1, byte_index),
        ),
        file_id >= file_entries(*files).len() ==> r is None,
        r matches Some(location) ==> location.well_formed(),
{
    match files.location(file_id, byte_index) {
        Ok(location) => Some(
            SourceLocation {
                line_number: location.line_number,
                column_number: location.column_number,
            },
        ),
        Err(_) => None,
    }
}

/// Calls `Files::name` on the table. Trusted: a file that the table holds gives a copy of the
/// name it was added under, any other id gives nothing.
#[verifier::external_body]
pub(crate) fn file_name(files: &SimpleFiles<String, String>, file_id: usize) -> (r: Option<String>)
    ensures
        text_view(r) == name_of(file_entries(*files), file_id),
{
    match files.name(file_id) {
        Ok(name) => Some(name),
        Err(_) => None,
    }
}

/// Calls `Url::parse` on a name and takes the URI's text out of what it returns. Trusted: the
/// answer depends on the name alone.
#[verifier::external_body]
pub(crate) fn parse_uri(name: &str) -> (r: Option<String>)
    ensures
        text_view(r) == parsed_uri(name@),
{
    match Url::parse(name) {
        Ok(url) => Some(String::from(url)),
        Err(_) => None,
    }
}

} // verus!

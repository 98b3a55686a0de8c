//! What holds of every translation, stated over the specification of the translating functions.

use crate::diagnostics::{
    converted_upto, curried_marker, first_primary, first_primary_from, is_related, related_entry,
    related_upto, spec_convert, spec_convert_all, spec_label_range, spec_related,
};
use crate::model::{
    LabelStyle, LabelView, ProtocolDiagnosticView, RawDiagnosticView, RelatedInformationView,
    TranslateError,
};
use vstd::prelude::*;

verus! {

proof fn lemma_no_primary_from(labels: Seq<LabelView>, from: int)
    requires
        0 <= from,
        forall|i: int| 0 <= i < labels.len() ==> labels[i].style != LabelStyle::Primary,
    ensures
        first_primary_from(labels, from) is None,
    decreases labels.len() - from,
{
    if from < labels.len() {
        lemma_no_primary_from(labels, from + 1);
    }
}

/// A diagnostic none of whose labels is primary is translated to nothing.
pub proof fn theorem_no_primary_no_diagnostic(
    entries: Seq<(Seq<char>, Seq<char>)>,
    raw: RawDiagnosticView,
)
    requires
        forall|i: int| 0 <= i < raw.labels.len() ==> raw.labels[i].style != LabelStyle::Primary,
    ensures
        spec_convert(entries, raw) == Ok::<Option<ProtocolDiagnosticView>, TranslateError>(None),
{
    lemma_no_primary_from(raw.labels, 0);
}

/// The translation of the first `n` diagnostics depends on those diagnostics alone.
pub proof fn lemma_converted_prefix(
    entries: Seq<(Seq<char>, Seq<char>)>,
    a: Seq<RawDiagnosticView>,
    b: Seq<RawDiagnosticView>,
    n: int,
)
    requires
        0 <= n <= a.len(),
        n <= b.len(),
        forall|i: int| 0 <= i < n ==> a[i] == b[i],
    ensures
        converted_upto(entries, a, n) == converted_upto(entries, b, n),
    decreases n,
{
    if n > 0 {
        lemma_converted_prefix(entries, a, b, n - 1);
    }
}

/// What two lists one after the other become, from what each becomes alone.
pub open spec fn joined(
    first: Result<Seq<ProtocolDiagnosticView>, TranslateError>,
    second: Result<Seq<ProtocolDiagnosticView>, TranslateError>,
) -> Result<Seq<ProtocolDiagnosticView>, TranslateError> {
    match first {
        Err(error) => Err(error),
        Ok(head) => match second {
            Err(error) => Err(error),
            Ok(tail) => Ok(head + tail),
        },
    }
}

proof fn lemma_concatenation_upto(
    entries: Seq<(Seq<char>, Seq<char>)>,
    a: Seq<RawDiagnosticView>,
    b: Seq<RawDiagnosticView>,
    n: int,
)
    requires
        0 <= n <= b.len(),
    ensures
        converted_upto(entries, a + b, a.len() + n) == joined(
            spec_convert_all(entries, a),
            converted_upto(entries, b, n),
        ),
    decreases n,
{
    let whole = converted_upto(entries, a + b, a.len() + n);
    let parts = joined(spec_convert_all(entries, a), converted_upto(entries, b, n));
    if n == 0 {
        lemma_converted_prefix(entries, a + b, a, a.len() as int);
        if spec_convert_all(entries, a) is Ok {
            assert(parts.unwrap() =~= whole.unwrap());
        }
    } else {
        lemma_concatenation_upto(entries, a, b, n - 1);
        assert((a + b)[a.len() + n - 1] == b[n - 1]);
        if whole is Ok {
            assert(parts.unwrap() =~= whole.unwrap());
        }
    }
}

/// Translation goes list by list: two lists one after the other become what the first becomes
/// followed by what the second becomes, and the first error among them is the error of both.
/// So what is emitted stands in the order of the diagnostics it came from.
pub proof fn theorem_translation_keeps_order(
    entries: Seq<(Seq<char>, Seq<char>)>,
    a: Seq<RawDiagnosticView>,
    b: Seq<RawDiagnosticView>,
)
    ensures
        spec_convert_all(entries, a + b) == joined(
            spec_convert_all(entries, a),
            spec_convert_all(entries, b),
        ),
{
    lemma_concatenation_upto(entries, a, b, b.len() as int);
}

/// A diagnostic that is translated to nothing leaves no trace: a list with it, at whatever
/// place, is translated as the list without it.
pub proof fn theorem_dropped_diagnostic_adds_nothing(
    entries: Seq<(Seq<char>, Seq<char>)>,
    before: Seq<RawDiagnosticView>,
    dropped: RawDiagnosticView,
    after: Seq<RawDiagnosticView>,
)
    requires
        spec_convert(entries, dropped) == Ok::<Option<ProtocolDiagnosticView>, TranslateError>(
            None,
        ),
    ensures
        spec_convert_all(entries, before + seq![dropped] + after) == spec_convert_all(
            entries,
            before + after,
        ),
{
    let alone = seq![dropped];
    assert(converted_upto(entries, alone, 0) == Ok::<Seq<ProtocolDiagnosticView>, TranslateError>(
        Seq::empty(),
    ));
    assert(spec_convert_all(entries, alone) == Ok::<Seq<ProtocolDiagnosticView>, TranslateError>(
        Seq::empty(),
    ));
    theorem_translation_keeps_order(entries, before, alone);
    theorem_translation_keeps_order(entries, before + alone, after);
    theorem_translation_keeps_order(entries, before, after);
    if spec_convert_all(entries, before) is Ok {
        assert(spec_convert_all(entries, before).unwrap() + Seq::<ProtocolDiagnosticView>::empty()
            =~= spec_convert_all(entries, before).unwrap());
    }
}

/// The message of a translated diagnostic is that of its first primary label, unless that one
/// is empty or the cross-reference marker: then it is the diagnostic's own.
pub proof fn theorem_message_selection(
    entries: Seq<(Seq<char>, Seq<char>)>,
    raw: RawDiagnosticView,
)
    requires
        spec_convert(entries, raw) matches Ok(Some(_)),
    ensures
        first_primary(raw.labels) is Some,
        ({
            let label = first_primary(raw.labels).unwrap();
            let message = spec_convert(entries, raw).unwrap().unwrap().message;
            if label.message.len() == 0 || label.message == curried_marker() {
                message == raw.message
            } else {
                message == label.message
            }
        }),
{
}

proof fn lemma_survivors_upto(
    entries: Seq<(Seq<char>, Seq<char>)>,
    raw: Seq<RawDiagnosticView>,
    n: int,
)
    requires
        0 <= n <= raw.len(),
        forall|i: int|
            0 <= i < raw.len() ==> spec_convert(entries, #[trigger] raw[i]) matches Ok(Some(_)),
    ensures
        converted_upto(entries, raw, n) matches Ok(converted) && converted.len() == n && forall|
            i: int,
        |
            0 <= i < n ==> Some(#[trigger] converted[i]) == spec_convert(entries, raw[i]).unwrap(),
    decreases n,
{
    if n > 0 {
        lemma_survivors_upto(entries, raw, n - 1);
    }
}

/// Where every diagnostic of a list is translated to one of the editor's, the translated list
/// has them all, each at the place of the one it came from.
pub proof fn theorem_survivors_keep_their_order(
    entries: Seq<(Seq<char>, Seq<char>)>,
    raw: Seq<RawDiagnosticView>,
)
    requires
        forall|i: int|
            0 <= i < raw.len() ==> spec_convert(entries, #[trigger] raw[i]) matches Ok(Some(_)),
    ensures
        spec_convert_all(entries, raw) matches Ok(converted) && converted.len() == raw.len()
            && forall|i: int|
            0 <= i < raw.len() ==> Some(#[trigger] converted[i]) == spec_convert(
                entries,
                raw[i],
            ).unwrap(),
{
    lemma_survivors_upto(entries, raw, raw.len() as int);
}

/// The cross-references of the first `n` labels depend on those labels alone.
pub proof fn lemma_related_prefix(
    entries: Seq<(Seq<char>, Seq<char>)>,
    a: Seq<LabelView>,
    b: Seq<LabelView>,
    n: int,
)
    requires
        0 <= n <= a.len(),
        n <= b.len(),
        forall|i: int| 0 <= i < n ==> a[i] == b[i],
    ensures
        related_upto(entries, a, n) == related_upto(entries, b, n),
    decreases n,
{
    if n > 0 {
        lemma_related_prefix(entries, a, b, n - 1);
    }
}

proof fn lemma_related_skips(
    entries: Seq<(Seq<char>, Seq<char>)>,
    labels: Seq<LabelView>,
    label: LabelView,
    at: int,
    n: int,
)
    requires
        0 <= at <= labels.len(),
        at < n <= labels.len() + 1,
        !is_related(entries, label),
    ensures
        related_upto(entries, labels.insert(at, label), n) == related_upto(entries, labels, n - 1),
    decreases n,
{
    let longer = labels.insert(at, label);
    if n == at + 1 {
        lemma_related_prefix(entries, longer, labels, at);
        assert(longer[at] == label);
    } else {
        lemma_related_skips(entries, labels, label, at, n - 1);
        assert(longer[n - 1] == labels[n - 2]);
    }
}

proof fn lemma_primary_skips(labels: Seq<LabelView>, label: LabelView, at: int, from: int)
    requires
        0 <= at <= labels.len(),
        0 <= from,
        label.style != LabelStyle::Primary,
    ensures
        first_primary_from(labels.insert(at, label), from) == first_primary_from(
            labels,
            if from <= at {
                from
            } else {
                from - 1
            },
        ),
    decreases labels.len() + 1 - from,
{
    let longer = labels.insert(at, label);
    if from < longer.len() {
        lemma_primary_skips(labels, label, at, from + 1);
        if from < at {
            assert(longer[from] == labels[from]);
        } else if from == at {
            assert(longer[from] == label);
        } else {
            assert(longer[from] == labels[from - 1]);
        }
    }
}

/// A secondary label whose range does not resolve changes nothing: with it among the labels,
/// at whatever place, a diagnostic is translated as without it.
pub proof fn theorem_unresolved_secondary_is_omitted(
    entries: Seq<(Seq<char>, Seq<char>)>,
    raw: RawDiagnosticView,
    label: LabelView,
    at: int,
)
    requires
        0 <= at <= raw.labels.len(),
        label.style == LabelStyle::Secondary,
        spec_label_range(entries, label) is None,
    ensures
        spec_convert(
            entries,
            RawDiagnosticView {
                message: raw.message,
                code: raw.code,
                severity: raw.severity,
                labels: raw.labels.insert(at, label),
            },
        ) == spec_convert(entries, raw),
{
    lemma_primary_skips(raw.labels, label, at, 0);
    lemma_related_skips(entries, raw.labels, label, at, raw.labels.len() as int + 1);
}

/// A secondary label whose range resolves adds its own cross-reference and no other: with it
/// at the end of the labels, the list is the one without it and then its entry, unless the
/// labels before it or its file's name give an error.
pub proof fn theorem_resolved_secondary_adds_its_entry(
    entries: Seq<(Seq<char>, Seq<char>)>,
    labels: Seq<LabelView>,
    label: LabelView,
)
    requires
        is_related(entries, label),
    ensures
        spec_related(entries, labels.push(label)) == match spec_related(entries, labels) {
            Err(error) => Err::<Seq<RelatedInformationView>, TranslateError>(error),
            Ok(before) => match related_entry(entries, label) {
                Ok(entry) => Ok(before.push(entry)),
                Err(error) => Err(error),
            },
        },
{
    lemma_related_prefix(entries, labels.push(label), labels, labels.len() as int);
}

} // verus!

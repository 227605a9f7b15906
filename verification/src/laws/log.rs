//! Laws of the log of classifications.
use drm_fourcc::DrmFourcc as Fourcc;
use vstd::prelude::*;

use crate::content::{content_kind_for_buffer, ContentKind};
use crate::description::ImageDescription;
use crate::log::{ContentKindLog, KindLabel};

verus! {

/// The kinds are of the same variant, whatever their luminances.
pub open spec fn same_variant<K, L>(first: ContentKind<K>, second: ContentKind<L>) -> bool {
    ||| first is Sdr && second is Sdr
    ||| first is Hdr && second is Hdr
    ||| first is Linear && second is Linear
    ||| first is Passthrough && second is Passthrough
}

/// Kinds have the same label exactly where they are of the same variant.
pub proof fn labels_are_variants<K, L>(
    first: ContentKind<K>,
    second: ContentKind<L>,
    first_label: KindLabel,
    second_label: KindLabel,
)
    requires
        call_ensures(KindLabel::of::<K>, (&first,), first_label),
        call_ensures(KindLabel::of::<L>, (&second,), second_label),
    ensures
        first_label == second_label <==> same_variant(first, second),
{
}

/// The text of each kind's label.
pub proof fn label_texts<L>(kind: ContentKind<L>, label: KindLabel, text: &'static str)
    requires
        call_ensures(KindLabel::of::<L>, (&kind,), label),
        call_ensures(KindLabel::as_str, (&label,), text),
    ensures
        kind is Sdr ==> text@ == "sdr"@,
        kind is Hdr ==> text@ == "hdr-pq"@,
        kind is Linear ==> text@ == "linear-scrgb"@,
        kind is Passthrough ==> text@ == "passthrough"@,
{
}

/// Everything is new to a new log.
pub proof fn new_logs<L>(
    log: ContentKindLog,
    tagged: bool,
    format: Option<Fourcc>,
    kind: ContentKind<L>,
    new: bool,
)
    requires
        call_ensures(ContentKindLog::new, (), log),
    ensures
        forall|before: &mut ContentKindLog| #[trigger]
            call_ensures(
                ContentKindLog::log_content_kind::<L>,
                (before, tagged, format, &kind),
                new,
            ) && *before == log ==> new,
{
}

/// A buffer is not new after one of the same format that is tagged or untagged like it and whose
/// kind is of the same variant, and after any other it is as new as it was before that one.
pub proof fn buffers_are_new_once<K, L>(
    first_tagged: bool,
    first_format: Option<Fourcc>,
    first: ContentKind<K>,
    tagged: bool,
    format: Option<Fourcc>,
    kind: ContentKind<L>,
    first_new: bool,
    new: bool,
    new_without: bool,
)
    ensures
        forall|
            log: &mut ContentKindLog,
            after: &mut ContentKindLog,
            without: &mut ContentKindLog,
        |
            #[trigger] call_ensures(
                ContentKindLog::log_content_kind::<K>,
                (log, first_tagged, first_format, &first),
                first_new,
            ) && *after == *final(log) && #[trigger] call_ensures(
                ContentKindLog::log_content_kind::<L>,
                (after, tagged, format, &kind),
                new,
            ) && *without == *log && #[trigger] call_ensures(
                ContentKindLog::log_content_kind::<L>,
                (without, tagged, format, &kind),
                new_without,
            ) ==> if first_format == format && first_tagged == tagged && same_variant(
                first,
                kind,
            ) {
                !new
            } else {
                new == new_without
            },
{
}

/// Classifying a buffer through the log gives the kind that it has without, and notes it as a buffer
/// of that kind and format, tagged where it has a description.
pub proof fn logged_buffers(
    desc: Option<ImageDescription>,
    format: Option<Fourcc>,
    kind: ContentKind<u32>,
    outcome: (ContentKind<u32>, bool),
    new: bool,
)
    requires
        call_ensures(content_kind_for_buffer, (desc, format), kind),
    ensures
        forall|log: &mut ContentKindLog, other: &mut ContentKindLog|
            #[trigger] call_ensures(
                ContentKindLog::content_kind_for_buffer,
                (log, desc, format),
                outcome,
            ) && *other == *log && #[trigger] call_ensures(
                ContentKindLog::log_content_kind::<u32>,
                (other, desc is Some, format, &kind),
                new,
            ) ==> outcome == (kind, new) && forall|c: crate::log::Classification| #[trigger]
                final(log).contains(c) == final(other).contains(c),
{
}

} // verus!

//! Logging each distinct buffer classification once.
use std::collections::HashSet;

use drm_fourcc::DrmFourcc as Fourcc;
use vstd::prelude::*;

use crate::content::ContentKind;
use crate::description::ImageDescription;

verus! {

/// What of a content kind is logged.
#[derive(Debug, Clone, Copy, PartialEq, Eq, Structural)]
pub enum KindLabel {
    Sdr,
    HdrPq,
    LinearScrgb,
    Passthrough,
}

impl KindLabel {
    /// The label of a kind: its luminances do not matter.
    pub open spec fn spec_of<L>(kind: ContentKind<L>) -> Self {
        match kind {
            ContentKind::Sdr => KindLabel::Sdr,
            ContentKind::Hdr { .. } => KindLabel::HdrPq,
            ContentKind::Linear { .. } => KindLabel::LinearScrgb,
            ContentKind::Passthrough => KindLabel::Passthrough,
        }
    }

    /// The label of a kind: its luminances do not matter.
    pub fn of<L>(kind: &ContentKind<L>) -> (label: Self)
        ensures
            label == Self::spec_of(*kind),
    {
        match kind {
            ContentKind::Sdr => KindLabel::Sdr,
            ContentKind::Hdr { .. } => KindLabel::HdrPq,
            ContentKind::Linear { .. } => KindLabel::LinearScrgb,
            ContentKind::Passthrough => KindLabel::Passthrough,
        }
    }

    /// The label as it is logged.
    pub open spec fn text(&self) -> Seq<char> {
        match self {
            KindLabel::Sdr => "sdr"@,
            KindLabel::HdrPq => "hdr-pq"@,
            KindLabel::LinearScrgb => "linear-scrgb"@,
            KindLabel::Passthrough => "passthrough"@,
        }
    }

    /// The label as it is logged.
    pub fn as_str(&self) -> (text: &'static str)
        ensures
            text@ == self.text(),
    {
        match self {
            KindLabel::Sdr => "sdr",
            KindLabel::HdrPq => "hdr-pq",
            KindLabel::LinearScrgb => "linear-scrgb",
            KindLabel::Passthrough => "passthrough",
        }
    }
}

/// A buffer's format, whether it is tagged with an image description, and the label of its kind.
pub type Classification = (Option<Fourcc>, bool, KindLabel);

/// A number that stands for a classification: the label in two bits, the tag in the next, and above
/// them zero for an unknown format and one more than the code for a known one.
spec fn key(classification: Classification) -> int {
    let (format, tagged, label) = classification;
    let format_part: int = match format {
        Some(code) => 1 + code as u32,
        None => 0,
    };
    let tag_part: int = if tagged { 1 } else { 0 };
    let label_part: int = match label {
        KindLabel::Sdr => 0,
        KindLabel::HdrPq => 1,
        KindLabel::LinearScrgb => 2,
        KindLabel::Passthrough => 3,
    };
    8 * format_part + 4 * tag_part + label_part
}

fn encode(format: Option<Fourcc>, tagged: bool, label: KindLabel) -> (encoded: u64)
    ensures
        encoded == key((format, tagged, label)),
{
    let format_part: u64 = match format {
        Some(code) => 1 + (code as u32) as u64,
        None => 0,
    };
    let tag_part: u64 = if tagged { 1 } else { 0 };
    let label_part: u64 = match label {
        KindLabel::Sdr => 0,
        KindLabel::HdrPq => 1,
        KindLabel::LinearScrgb => 2,
        KindLabel::Passthrough => 3,
    };
    8 * format_part + 4 * tag_part + label_part
}

proof fn lemma_key_injective(first: Classification, second: Classification)
    requires
        key(first) == key(second),
    ensures
        first == second,
{
}

/// The distinct classifications logged so far.
#[derive(Debug)]
pub struct ContentKindLog {
    seen: HashSet<u64>,
}

impl ContentKindLog {
    /// The classification was logged.
    pub closed spec fn contains(&self, classification: Classification) -> bool {
        self.seen@.contains(key(classification) as u64)
    }

    /// Nothing was logged yet.
    pub open spec fn is_empty(&self) -> bool {
        forall|c: Classification| !#[trigger] self.contains(c)
    }

    /// `after` has what `before` has, and `noted` besides.
    pub open spec fn notes(before: Self, after: Self, noted: Classification) -> bool {
        forall|c: Classification| #[trigger]
            after.contains(c) == (before.contains(c) || c == noted)
    }

    /// A log in which nothing was logged yet.
    pub fn new() -> (log: Self)
        ensures
            log.is_empty(),
    {
        broadcast use vstd::std_specs::hash::group_hash_axioms;

        ContentKindLog { seen: HashSet::new() }
    }

    /// Notes a buffer's classification, and returns whether it is a new one, to be logged. This
    /// runs per surface per frame.
    pub fn log_content_kind<L>(
        &mut self,
        tagged: bool,
        buffer_fourcc: Option<Fourcc>,
        kind: &ContentKind<L>,
    ) -> (new: bool)
        ensures
            new == !old(self).contains((buffer_fourcc, tagged, KindLabel::spec_of(*kind))),
            Self::notes(
                *old(self),
                *final(self),
                (buffer_fourcc, tagged, KindLabel::spec_of(*kind)),
            ),
    {
        broadcast use vstd::std_specs::hash::group_hash_axioms;

        let label = KindLabel::of(kind);
        let encoded = encode(buffer_fourcc, tagged, label);
        let new = self.seen.insert(encoded);
        proof {
            assert forall|c: Classification| #[trigger] self.contains(c) == (old(self).contains(c)
                || c == (buffer_fourcc, tagged, label)) by {
                if key(c) as u64 == encoded {
                    lemma_key_injective(c, (buffer_fourcc, tagged, label));
                }
            }
        }
        new
    }

    /// The content kind of a buffer, and whether its classification is a new one, to be logged.
    pub fn content_kind_for_buffer(
        &mut self,
        desc: Option<ImageDescription>,
        buffer_fourcc: Option<Fourcc>,
    ) -> (outcome: (ContentKind<u32>, bool))
        ensures
            outcome.0 == ContentKind::of_buffer(desc, buffer_fourcc),
            outcome.1 == !old(self).contains(
                (buffer_fourcc, desc is Some, KindLabel::spec_of(outcome.0)),
            ),
            Self::notes(
                *old(self),
                *final(self),
                (buffer_fourcc, desc is Some, KindLabel::spec_of(outcome.0)),
            ),
    {
        let kind = crate::content::content_kind_for_buffer(desc, buffer_fourcc);
        let new = self.log_content_kind(desc.is_some(), buffer_fourcc, &kind);
        (kind, new)
    }
}

/// Each distinct classification is logged once: in a run that starts from an empty log, a buffer's
/// classification is new exactly where no earlier buffer of the run had the same one.
pub proof fn classifications_are_logged_once(
    logs: Seq<ContentKindLog>,
    noted: Seq<Classification>,
    i: int,
)
    requires
        logs.len() == noted.len() + 1,
        logs[0].is_empty(),
        forall|k: int|
            0 <= k < noted.len() ==> ContentKindLog::notes(
                #[trigger] logs[k],
                logs[k + 1],
                noted[k],
            ),
        0 <= i < noted.len(),
    ensures
        !logs[i].contains(noted[i]) <==> !noted.take(i).contains(noted[i]),
{
    lemma_log_holds_what_was_noted(logs, noted, i, noted[i]);
}

proof fn lemma_log_holds_what_was_noted(
    logs: Seq<ContentKindLog>,
    noted: Seq<Classification>,
    i: int,
    c: Classification,
)
    requires
        logs.len() == noted.len() + 1,
        logs[0].is_empty(),
        forall|k: int|
            0 <= k < noted.len() ==> ContentKindLog::notes(
                #[trigger] logs[k],
                logs[k + 1],
                noted[k],
            ),
        0 <= i <= noted.len(),
    ensures
        logs[i].contains(c) <==> noted.take(i).contains(c),
    decreases i,
{
    if i > 0 {
        lemma_log_holds_what_was_noted(logs, noted, i - 1, c);
        let before = logs[i - 1];
        assert(ContentKindLog::notes(before, logs[i], noted[i - 1]));
        assert(noted.take(i) =~= noted.take(i - 1).push(noted[i - 1]));
        if noted.take(i - 1).contains(c) {
            let j = noted.take(i - 1).index_of(c);
            assert(noted.take(i)[j] == c);
        }
        if c == noted[i - 1] {
            assert(noted.take(i)[i - 1] == c);
        }
    }
}

/// No two labels read the same.
pub proof fn labels_differ(first: KindLabel, second: KindLabel)
    requires
        first.text() == second.text(),
    ensures
        first == second,
{
    reveal_strlit("sdr");
    reveal_strlit("hdr-pq");
    reveal_strlit("linear-scrgb");
    reveal_strlit("passthrough");
    assert("sdr"@.len() == 3);
    assert("hdr-pq"@.len() == 6);
    assert("linear-scrgb"@.len() == 12);
    assert("passthrough"@.len() == 11);
}

} // verus!

//! The states of a highlight cache and the steps between them.
//!
//! A cache holds a snapshot of a document, the spans computed for a
//! snapshot, and the generation of each. The spans are current when both
//! generations agree; a new generation makes them stale, and the next
//! query computes them anew.

use vstd::prelude::*;
use crate::color::Palette;
use crate::events::{classification_spans, TokenEvent};
use crate::span::{clipped, spans_within, HighlightSpan};

verus! {

/// The state of a highlighter as proofs see it.
pub struct CacheState {
    /// Generation of the document snapshot.
    pub generation: u32,
    /// Whether a snapshot was ever stored.
    pub has_snapshot: bool,
    /// Bytes of the document snapshot.
    pub source: Seq<u8>,
    /// The cached spans.
    pub spans: Seq<HighlightSpan>,
    /// Generation for which the spans were computed.
    pub spans_generation: u32,
}

impl CacheState {
    /// The state of a new highlighter: no snapshot, no spans.
    pub open spec fn empty() -> CacheState {
        CacheState {
            generation: 0,
            has_snapshot: false,
            source: Seq::empty(),
            spans: Seq::empty(),
            spans_generation: 0,
        }
    }

    /// The state after the caller hands in `source` as generation
    /// `generation`: the snapshot is replaced unless one of that generation
    /// is stored already. The spans stay as they are.
    pub open spec fn updated(self, source: Seq<u8>, generation: u32) -> CacheState {
        if self.generation == generation && self.has_snapshot {
            self
        } else {
            CacheState { generation, has_snapshot: true, source, ..self }
        }
    }

    /// The spans are current: computed for the snapshot's generation, and
    /// not empty.
    pub open spec fn is_fresh(self) -> bool {
        self.spans_generation == self.generation && self.spans.len() > 0
    }

    /// The spans are valid for the snapshot: they carry its generation,
    /// and they are not empty unless the snapshot is.
    pub open spec fn is_valid(self) -> bool {
        &&& self.spans_generation == self.generation
        &&& self.source.len() > 0 ==> self.spans.len() > 0
    }

    /// Spans that count as fresh lie inside the snapshot. This holds as
    /// long as no update reuses the generation of the cached spans for
    /// other bytes.
    pub open spec fn in_step(self) -> bool {
        self.is_fresh() ==> self.in_document()
    }

    /// The next query has to run the classifier.
    pub open spec fn needs_classification(self) -> bool {
        !self.is_fresh() && self.source.len() > 0
    }

    /// The state after the spans are brought up to date, where `outcome`
    /// is what the classifier reports for the snapshot. Fresh spans stay.
    /// Otherwise the spans are those of the classification, or none for an
    /// empty snapshot, and they belong to the snapshot's generation.
    pub open spec fn refreshed(self, outcome: Option<Seq<TokenEvent>>, palette: Palette)
        -> CacheState {
        if self.is_fresh() {
            self
        } else if self.source.len() == 0 {
            CacheState { spans: Seq::empty(), spans_generation: self.generation, ..self }
        } else {
            CacheState {
                spans: classification_spans(outcome, self.source.len() as int, palette),
                spans_generation: self.generation,
                ..self
            }
        }
    }

    /// The answer of this state to a query for `[start, end)`.
    pub open spec fn highlights(self, start: usize, end: usize) -> Seq<HighlightSpan> {
        clipped(self.spans, start, end)
    }

    /// The cached spans lie inside the snapshot.
    pub open spec fn in_document(self) -> bool {
        spans_within(self.spans, 0, self.source.len() as int)
    }
}

} // verus!

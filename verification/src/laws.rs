//! What holds of the highlighter over whole histories of updates and
//! queries, stated over its states.

use vstd::prelude::*;
use crate::color::{Palette, StraightRgba};
use crate::events::{classification_spans, lemma_classification_spans_ordered, TokenEvent};
use crate::cache::CacheState;
use crate::highlighter::SyntaxHighlighter;
use crate::span::{
    clipped, color_at, lemma_clipped_inside_range, lemma_clipped_keeps_colors,
    lemma_clipped_ordered, lemma_clipped_whole, lemma_clipped_within,
    lemma_ordered_spans_cover_once, spans_ordered, spans_within,
};

verus! {

/// Bringing the spans up to date settles them: doing it again for the same
/// report of the classifier and the same palette changes nothing.
pub proof fn lemma_refresh_settles(
    state: CacheState,
    outcome: Option<Seq<TokenEvent>>,
    palette: Palette,
)
    ensures
        state.refreshed(outcome, palette).refreshed(outcome, palette) == state.refreshed(
            outcome,
            palette,
        ),
{
}

/// Spans that are valid or fresh are not computed again, whatever the
/// classifier would report and whatever the palette has become: the state
/// stays as it is.
pub proof fn lemma_valid_spans_stay(
    state: CacheState,
    outcome: Option<Seq<TokenEvent>>,
    palette: Palette,
)
    requires
        state.is_valid() || state.is_fresh(),
    ensures
        !state.needs_classification(),
        state.refreshed(outcome, palette) == state,
{
    if !state.is_fresh() {
        assert(state.spans =~= Seq::<_>::empty());
    }
}

/// After the spans are brought up to date they carry the snapshot's
/// generation, and they are valid unless the classifier gave no span for
/// a snapshot that has bytes.
pub proof fn lemma_refresh_validates(
    state: CacheState,
    outcome: Option<Seq<TokenEvent>>,
    palette: Palette,
)
    ensures
        state.refreshed(outcome, palette).spans_generation == state.generation,
        state.refreshed(outcome, palette).generation == state.generation,
        state.refreshed(outcome, palette).source == state.source,
        state.refreshed(outcome, palette).is_valid() <==> (state.source.len() == 0
            || state.refreshed(outcome, palette).spans.len() > 0),
{
}

/// Bringing the spans up to date keeps them in step with the snapshot,
/// and then they lie inside it, fresh or not.
pub proof fn lemma_refresh_keeps_step(
    state: CacheState,
    outcome: Option<Seq<TokenEvent>>,
    palette: Palette,
)
    requires
        state.in_step(),
    ensures
        state.refreshed(outcome, palette).in_step(),
        state.refreshed(outcome, palette).in_document(),
{
    if !state.is_fresh() {
        lemma_refresh_fits_snapshot(state, outcome, palette);
    }
}

/// An update keeps the spans in step with the snapshot when it changes
/// nothing, or when its generation is not the one of the cached spans.
pub proof fn lemma_update_keeps_step(state: CacheState, source: Seq<u8>, generation: u32)
    requires
        state.in_step(),
        (generation == state.generation && state.has_snapshot) || generation
            != state.spans_generation,
    ensures
        state.updated(source, generation).in_step(),
{
}

/// Two queries in a row are answered from one materialization of the
/// spans. Here `between` is the highlighter after the first query and
/// `after` the one after the second, as `get_highlights` relates them; no
/// update came between. The second query leaves the state as the first
/// left it, so both answers are clipped from the same spans, and asking
/// again for the same range gives the same answer.
pub proof fn lemma_queries_share_one_materialization(
    before: SyntaxHighlighter,
    between: SyntaxHighlighter,
    after: SyntaxHighlighter,
    palette: Palette,
    start: usize,
    end: usize,
)
    requires
        between.same_setup(&before),
        between@ == before@.refreshed(before.classification(), palette),
        after@ == between@.refreshed(between.classification(), palette),
    ensures
        after@ == between@,
        after@.highlights(start, end) == between@.highlights(start, end),
{
    assert(between@.source == before@.source);
    assert(between.classification() == before.classification());
    lemma_refresh_settles(before@, before.classification(), palette);
}

/// The spans of an answer never leave the queried range and are never
/// empty.
pub proof fn lemma_answer_inside_query(state: CacheState, start: usize, end: usize)
    ensures
        forall|k: int|
            #![trigger state.highlights(start, end)[k]]
            0 <= k < state.highlights(start, end).len() ==> {
                &&& start <= state.highlights(start, end)[k].start_byte
                &&& state.highlights(start, end)[k].start_byte < state.highlights(
                    start,
                    end,
                )[k].end_byte
                &&& state.highlights(start, end)[k].end_byte <= end
            },
{
    lemma_clipped_inside_range(state.spans, start, end);
}

/// An answer is in the order of the cache: ascending by `start_byte`,
/// without overlaps.
pub proof fn lemma_answer_ordered(state: CacheState, start: usize, end: usize)
    requires
        spans_ordered(state.spans),
    ensures
        spans_ordered(state.highlights(start, end)),
{
    lemma_clipped_ordered(state.spans, start, end);
}

/// While the cached spans lie inside the snapshot, so does every answer.
pub proof fn lemma_answer_inside_document(state: CacheState, start: usize, end: usize)
    requires
        state.in_document(),
    ensures
        spans_within(state.highlights(start, end), 0, state.source.len() as int),
{
    lemma_clipped_within(state.spans, start, end, 0, state.source.len() as int);
}

/// Spans that had to be computed are ordered and lie inside the snapshot
/// they were computed for, and they carry the snapshot's generation.
pub proof fn lemma_refresh_fits_snapshot(
    state: CacheState,
    outcome: Option<Seq<TokenEvent>>,
    palette: Palette,
)
    requires
        !state.is_fresh(),
    ensures
        spans_ordered(state.refreshed(outcome, palette).spans),
        state.refreshed(outcome, palette).in_document(),
        state.refreshed(outcome, palette).spans_generation == state.generation,
        state.refreshed(outcome, palette).source == state.source,
        state.refreshed(outcome, palette).generation == state.generation,
{
    lemma_classification_spans_ordered(outcome, state.source.len() as int, palette);
}

/// Bringing the spans up to date keeps them ordered.
pub proof fn lemma_refresh_keeps_order(
    state: CacheState,
    outcome: Option<Seq<TokenEvent>>,
    palette: Palette,
)
    requires
        spans_ordered(state.spans),
    ensures
        spans_ordered(state.refreshed(outcome, palette).spans),
{
    lemma_classification_spans_ordered(outcome, state.source.len() as int, palette);
}

/// The answer to a query for the whole document colors every byte of the
/// document, once the gaps are filled with the default color. Here
/// `before` is a highlighter and `after` the same one after a query, as
/// `get_highlights` relates them, and `len` the length of the snapshot.
/// The spans of the answer are ordered and lie inside the document, so
/// each byte has at most one span, and its color is that of the span or
/// the default. Every byte is colored as the cached spans color it, and
/// while the cache is in step with the snapshot the answer is the whole
/// cache, unclipped.
pub proof fn lemma_whole_document_coloring(
    before: SyntaxHighlighter,
    after: SyntaxHighlighter,
    palette: Palette,
    len: usize,
    byte: int,
    default: StraightRgba,
)
    requires
        before.wf(),
        after@ == before@.refreshed(before.classification(), palette),
        len == after@.source.len(),
        0 <= byte < len,
    ensures
        spans_ordered(after@.highlights(0, len)),
        spans_within(after@.highlights(0, len), 0, len as int),
        color_at(after@.highlights(0, len), byte, default) == color_at(
            after@.spans,
            byte,
            default,
        ),
        forall|i: int|
            #![trigger after@.highlights(0, len)[i]]
            0 <= i < after@.highlights(0, len).len() && after@.highlights(0, len)[i].start_byte
                <= byte < after@.highlights(0, len)[i].end_byte ==> color_at(
                after@.highlights(0, len),
                byte,
                default,
            ) == after@.highlights(0, len)[i].color,
        before@.in_step() ==> after@.highlights(0, len) == after@.spans,
{
    let answer = after@.highlights(0, len);
    lemma_refresh_keeps_order(before@, before.classification(), palette);
    lemma_clipped_ordered(after@.spans, 0, len);
    lemma_clipped_inside_range(after@.spans, 0, len);
    lemma_clipped_keeps_colors(after@.spans, 0, len, byte, default);
    assert forall|i: int|
        0 <= i < answer.len() && (#[trigger] answer[i]).start_byte <= byte
            < answer[i].end_byte implies color_at(answer, byte, default) == answer[i].color by {
        lemma_ordered_spans_cover_once(answer, i, byte);
    }
    if before@.in_step() {
        lemma_refresh_keeps_step(before@, before.classification(), palette);
        lemma_clipped_whole(after@.spans, 0, len);
    }
}

/// A query for the whole document gives the cached spans back unchanged.
pub proof fn lemma_whole_document_answer(state: CacheState, len: usize)
    requires
        len == state.source.len(),
        spans_ordered(state.spans),
        state.in_document(),
    ensures
        state.highlights(0, len) == state.spans,
{
    lemma_clipped_whole(state.spans, 0, len);
}

/// Filling the gaps of an answer with the default color colors every byte
/// of the queried range, and colors it as the cached spans do. For the
/// range of the whole document this is a coloring of every byte of it.
pub proof fn lemma_answer_colors_every_byte(
    state: CacheState,
    start: usize,
    end: usize,
    byte: int,
    default: StraightRgba,
)
    requires
        start <= byte < end,
    ensures
        color_at(state.highlights(start, end), byte, default) == color_at(
            state.spans,
            byte,
            default,
        ),
{
    lemma_clipped_keeps_colors(state.spans, start, end, byte, default);
}

/// Handing in bytes under the generation that is already stored changes
/// nothing, so spans that were fresh stay fresh and the classifier is not
/// run again.
pub proof fn lemma_update_same_generation(state: CacheState, source: Seq<u8>)
    requires
        state.has_snapshot,
    ensures
        state.updated(source, state.generation) == state,
        state.is_fresh() ==> !state.updated(source, state.generation).needs_classification(),
{
}

/// Of two updates with one generation only the first counts.
pub proof fn lemma_update_twice(
    state: CacheState,
    first: Seq<u8>,
    second: Seq<u8>,
    generation: u32,
)
    ensures
        state.updated(first, generation).updated(second, generation) == state.updated(
            first,
            generation,
        ),
{
}

/// An update under a generation other than the one of the cached spans
/// makes them stale: the next query computes them anew for the new bytes.
pub proof fn lemma_new_generation_is_stale(
    state: CacheState,
    source: Seq<u8>,
    generation: u32,
    outcome: Option<Seq<TokenEvent>>,
    palette: Palette,
)
    requires
        generation != state.spans_generation,
        generation != state.generation,
    ensures
        !state.updated(source, generation).is_fresh(),
        state.updated(source, generation).source == source,
        state.updated(source, generation).refreshed(outcome, palette).spans == (
        if source.len() == 0 {
            Seq::empty()
        } else {
            classification_spans(outcome, source.len() as int, palette)
        }),
{
}

/// An update leaves the cached spans as they are.
pub proof fn lemma_update_keeps_spans(state: CacheState, source: Seq<u8>, generation: u32)
    ensures
        state.updated(source, generation).spans == state.spans,
        state.updated(source, generation).spans_generation == state.spans_generation,
{
}

} // verus!

//! Highlight spans and the range query that clips them.

use vstd::prelude::*;
use crate::color::StraightRgba;

verus! {

/// A colored half-open byte range `[start_byte, end_byte)` of a document.
#[derive(Debug, Clone, Copy, PartialEq, Eq, Structural)]
pub struct HighlightSpan {
    pub start_byte: usize,
    pub end_byte: usize,
    pub color: StraightRgba,
}

/// Every span is non-empty, and each span ends before the next one starts.
/// In particular the spans are in ascending order of `start_byte`.
pub open spec fn spans_ordered(spans: Seq<HighlightSpan>) -> bool {
    &&& forall|i: int|
        #![trigger spans[i]]
        0 <= i < spans.len() ==> spans[i].start_byte < spans[i].end_byte
    &&& forall|i: int, j: int|
        #![trigger spans[i], spans[j]]
        0 <= i < j < spans.len() ==> spans[i].end_byte <= spans[j].start_byte
}

/// Every span lies inside `[lo, hi)`.
pub open spec fn spans_within(spans: Seq<HighlightSpan>, lo: int, hi: int) -> bool {
    forall|i: int|
        #![trigger spans[i]]
        0 <= i < spans.len() ==> lo <= spans[i].start_byte && spans[i].end_byte <= hi
}

/// The part of `span` that lies inside `[start, end)`, if that part is not
/// empty. It keeps the color of `span`.
pub open spec fn intersection(span: HighlightSpan, start: usize, end: usize) -> Option<
    HighlightSpan,
> {
    let lo = if span.start_byte >= start {
        span.start_byte
    } else {
        start
    };
    let hi = if span.end_byte <= end {
        span.end_byte
    } else {
        end
    };
    if lo < hi {
        Some(HighlightSpan { start_byte: lo, end_byte: hi, color: span.color })
    } else {
        None
    }
}

/// [`intersection`] with a fixed range, as a function of the span.
pub open spec fn intersect_with(start: usize, end: usize) -> spec_fn(HighlightSpan) -> Option<
    HighlightSpan,
> {
    |span: HighlightSpan| intersection(span, start, end)
}

/// The answer to a range query: the spans that reach into `[start, end)`,
/// in their order, each cut down to the part inside the range.
pub open spec fn clipped(spans: Seq<HighlightSpan>, start: usize, end: usize) -> Seq<
    HighlightSpan,
> {
    spans.filter_map(intersect_with(start, end))
}

/// The color of the first span that covers `byte`, if any span does.
pub open spec fn covering_color(spans: Seq<HighlightSpan>, byte: int) -> Option<StraightRgba>
    decreases spans.len(),
{
    if spans.len() == 0 {
        None
    } else {
        match covering_color(spans.drop_last(), byte) {
            Some(color) => Some(color),
            None => if spans.last().start_byte <= byte < spans.last().end_byte {
                Some(spans.last().color)
            } else {
                None
            },
        }
    }
}

/// The color in which `byte` is drawn: that of the span covering it, or
/// `default` where no span does.
pub open spec fn color_at(spans: Seq<HighlightSpan>, byte: int, default: StraightRgba)
    -> StraightRgba {
    match covering_color(spans, byte) {
        Some(color) => color,
        None => default,
    }
}

/// Clipping a list that ends in `last` clips the front of the list and then
/// appends what is left of `last`.
pub proof fn lemma_clipped_push(
    spans: Seq<HighlightSpan>,
    last: HighlightSpan,
    start: usize,
    end: usize,
)
    ensures
        clipped(spans.push(last), start, end) == match intersection(last, start, end) {
            Some(part) => clipped(spans, start, end).push(part),
            None => clipped(spans, start, end),
        },
{
    let all = spans.push(last);
    assert(all.drop_last() =~= spans);
    assert(all.last() == last);
    match intersection(last, start, end) {
        Some(part) => {
            assert(clipped(spans, start, end) + seq![part] =~= clipped(spans, start, end).push(
                part,
            ));
        },
        None => {},
    }
}

proof fn lemma_clipped_unfold(spans: Seq<HighlightSpan>, start: usize, end: usize)
    requires
        spans.len() > 0,
    ensures
        clipped(spans, start, end) == match intersection(spans.last(), start, end) {
            Some(part) => clipped(spans.drop_last(), start, end).push(part),
            None => clipped(spans.drop_last(), start, end),
        },
{
    assert(spans.drop_last().push(spans.last()) =~= spans);
    lemma_clipped_push(spans.drop_last(), spans.last(), start, end);
}

/// Clipped spans never leave the queried range and are never empty.
pub proof fn lemma_clipped_inside_range(spans: Seq<HighlightSpan>, start: usize, end: usize)
    ensures
        forall|k: int|
            #![trigger clipped(spans, start, end)[k]]
            0 <= k < clipped(spans, start, end).len() ==> {
                &&& start <= clipped(spans, start, end)[k].start_byte
                &&& clipped(spans, start, end)[k].start_byte < clipped(
                    spans,
                    start,
                    end,
                )[k].end_byte
                &&& clipped(spans, start, end)[k].end_byte <= end
            },
    decreases spans.len(),
{
    if spans.len() > 0 {
        lemma_clipped_unfold(spans, start, end);
        lemma_clipped_inside_range(spans.drop_last(), start, end);
    }
}

/// Clipping keeps spans inside whatever bounds held them before.
pub proof fn lemma_clipped_within(
    spans: Seq<HighlightSpan>,
    start: usize,
    end: usize,
    lo: int,
    hi: int,
)
    requires
        spans_within(spans, lo, hi),
    ensures
        spans_within(clipped(spans, start, end), lo, hi),
    decreases spans.len(),
{
    if spans.len() > 0 {
        lemma_clipped_unfold(spans, start, end);
        let front = spans.drop_last();
        assert forall|i: int| 0 <= i < front.len() implies lo <= (#[trigger] front[i]).start_byte
            && front[i].end_byte <= hi by {
            assert(front[i] == spans[i]);
        }
        lemma_clipped_within(front, start, end, lo, hi);
        assert(lo <= spans[spans.len() - 1].start_byte);
    }
}

/// Clipping keeps the spans in order: the answer to a range query over an
/// ordered cache is ordered by `start_byte`, without overlaps.
pub proof fn lemma_clipped_ordered(spans: Seq<HighlightSpan>, start: usize, end: usize)
    requires
        spans_ordered(spans),
    ensures
        spans_ordered(clipped(spans, start, end)),
    decreases spans.len(),
{
    if spans.len() > 0 {
        lemma_clipped_unfold(spans, start, end);
        let front = spans.drop_last();
        let last = spans.last();
        assert(spans_ordered(front)) by {
            assert forall|i: int| 0 <= i < front.len() implies (#[trigger] front[i]).start_byte
                < front[i].end_byte by {
                assert(front[i] == spans[i]);
            }
            assert forall|i: int, j: int| 0 <= i < j < front.len() implies (
            #[trigger] front[i]).end_byte <= (#[trigger] front[j]).start_byte by {
                assert(front[i] == spans[i]);
                assert(front[j] == spans[j]);
            }
        }
        lemma_clipped_ordered(front, start, end);
        assert(spans_within(front, 0, last.start_byte as int)) by {
            assert forall|i: int| 0 <= i < front.len() implies 0 <= (
            #[trigger] front[i]).start_byte && front[i].end_byte <= last.start_byte by {
                assert(front[i] == spans[i]);
                assert(last == spans[spans.len() - 1]);
            }
        }
        lemma_clipped_within(front, start, end, 0, last.start_byte as int);
        assert(last == spans[spans.len() - 1]);
    }
}

/// A query over an empty or inverted range has no answer spans.
pub proof fn lemma_clipped_empty_range(spans: Seq<HighlightSpan>, start: usize, end: usize)
    requires
        start >= end,
    ensures
        clipped(spans, start, end) == Seq::<HighlightSpan>::empty(),
    decreases spans.len(),
{
    if spans.len() > 0 {
        lemma_clipped_unfold(spans, start, end);
        lemma_clipped_empty_range(spans.drop_last(), start, end);
    }
}

/// A range that holds every span whole gives the spans back unchanged.
pub proof fn lemma_clipped_whole(spans: Seq<HighlightSpan>, start: usize, end: usize)
    requires
        spans_within(spans, start as int, end as int),
        forall|i: int|
            #![trigger spans[i]]
            0 <= i < spans.len() ==> spans[i].start_byte < spans[i].end_byte,
    ensures
        clipped(spans, start, end) == spans,
    decreases spans.len(),
{
    if spans.len() > 0 {
        lemma_clipped_unfold(spans, start, end);
        let front = spans.drop_last();
        assert forall|i: int| 0 <= i < front.len() implies start <= (
        #[trigger] front[i]).start_byte && front[i].start_byte < front[i].end_byte
            && front[i].end_byte <= end by {
            assert(front[i] == spans[i]);
        }
        lemma_clipped_whole(front, start, end);
        let last = spans[spans.len() - 1];
        assert(intersection(last, start, end) == Some(last));
        assert(front.push(last) =~= spans);
    } else {
        assert(clipped(spans, start, end) =~= spans);
    }
}

/// Clipping an answer again gives the answer for the overlap of the two
/// ranges.
pub proof fn lemma_clipped_twice(
    spans: Seq<HighlightSpan>,
    start: usize,
    end: usize,
    inner_start: usize,
    inner_end: usize,
)
    ensures
        clipped(clipped(spans, start, end), inner_start, inner_end) == clipped(
            spans,
            if start >= inner_start {
                start
            } else {
                inner_start
            },
            if end <= inner_end {
                end
            } else {
                inner_end
            },
        ),
    decreases spans.len(),
{
    let lo = if start >= inner_start {
        start
    } else {
        inner_start
    };
    let hi = if end <= inner_end {
        end
    } else {
        inner_end
    };
    if spans.len() > 0 {
        lemma_clipped_unfold(spans, start, end);
        lemma_clipped_unfold(spans, lo, hi);
        lemma_clipped_twice(spans.drop_last(), start, end, inner_start, inner_end);
        match intersection(spans.last(), start, end) {
            Some(part) => {
                lemma_clipped_push(
                    clipped(spans.drop_last(), start, end),
                    part,
                    inner_start,
                    inner_end,
                );
            },
            None => {},
        }
    } else {
        assert(clipped(spans, start, end) =~= Seq::<HighlightSpan>::empty());
        assert(clipped(Seq::<HighlightSpan>::empty(), inner_start, inner_end)
            =~= Seq::<HighlightSpan>::empty());
        assert(clipped(spans, lo, hi) =~= Seq::<HighlightSpan>::empty());
    }
}

/// Asking twice for the same range changes nothing: the answer to a query
/// is its own answer.
pub proof fn lemma_clipped_idempotent(spans: Seq<HighlightSpan>, start: usize, end: usize)
    ensures
        clipped(clipped(spans, start, end), start, end) == clipped(spans, start, end),
{
    lemma_clipped_twice(spans, start, end, start, end);
}

proof fn lemma_covering_push(spans: Seq<HighlightSpan>, last: HighlightSpan, byte: int)
    ensures
        covering_color(spans.push(last), byte) == match covering_color(spans, byte) {
            Some(color) => Some(color),
            None => if last.start_byte <= byte < last.end_byte {
                Some(last.color)
            } else {
                None
            },
        },
{
    let all = spans.push(last);
    assert(all.drop_last() =~= spans);
    assert(all.last() == last);
}

/// Inside the queried range a clipped answer colors every byte exactly as
/// the unclipped spans do.
pub proof fn lemma_clipped_keeps_colors(
    spans: Seq<HighlightSpan>,
    start: usize,
    end: usize,
    byte: int,
    default: StraightRgba,
)
    requires
        start <= byte < end,
    ensures
        covering_color(clipped(spans, start, end), byte) == covering_color(spans, byte),
        color_at(clipped(spans, start, end), byte, default) == color_at(spans, byte, default),
    decreases spans.len(),
{
    if spans.len() > 0 {
        lemma_clipped_unfold(spans, start, end);
        lemma_clipped_keeps_colors(spans.drop_last(), start, end, byte, default);
        match intersection(spans.last(), start, end) {
            Some(part) => {
                lemma_covering_push(clipped(spans.drop_last(), start, end), part, byte);
            },
            None => {},
        }
    } else {
        assert(clipped(spans, start, end) =~= Seq::<HighlightSpan>::empty());
    }
}

/// No color covers a byte that every span ends before or starts after.
pub proof fn lemma_uncovered_byte(spans: Seq<HighlightSpan>, byte: int)
    requires
        forall|i: int|
            #![trigger spans[i]]
            0 <= i < spans.len() ==> !(spans[i].start_byte <= byte < spans[i].end_byte),
    ensures
        covering_color(spans, byte) is None,
    decreases spans.len(),
{
    if spans.len() > 0 {
        let front = spans.drop_last();
        assert forall|i: int| 0 <= i < front.len() implies !((#[trigger] front[i]).start_byte
            <= byte < front[i].end_byte) by {
            assert(front[i] == spans[i]);
        }
        lemma_uncovered_byte(front, byte);
        assert(spans.last() == spans[spans.len() - 1]);
    }
}

/// Ordered spans cover each byte at most once: the color of a byte is the
/// color of the span that holds it.
pub proof fn lemma_ordered_spans_cover_once(spans: Seq<HighlightSpan>, i: int, byte: int)
    requires
        spans_ordered(spans),
        0 <= i < spans.len(),
        spans[i].start_byte <= byte < spans[i].end_byte,
    ensures
        covering_color(spans, byte) == Some(spans[i].color),
    decreases spans.len(),
{
    let front = spans.drop_last();
    if i == spans.len() - 1 {
        assert forall|j: int| 0 <= j < front.len() implies !((#[trigger] front[j]).start_byte
            <= byte < front[j].end_byte) by {
            assert(front[j] == spans[j]);
        }
        lemma_uncovered_byte(front, byte);
    } else {
        assert(spans_ordered(front)) by {
            assert forall|a: int| 0 <= a < front.len() implies (#[trigger] front[a]).start_byte
                < front[a].end_byte by {
                assert(front[a] == spans[a]);
            }
            assert forall|a: int, b: int| 0 <= a < b < front.len() implies (
            #[trigger] front[a]).end_byte <= (#[trigger] front[b]).start_byte by {
                assert(front[a] == spans[a]);
                assert(front[b] == spans[b]);
            }
        }
        assert(front[i] == spans[i]);
        lemma_ordered_spans_cover_once(front, i, byte);
    }
}

/// Answers a range query over a list of spans: keeps the spans that reach
/// into `[start_byte, end_byte)` and cuts each down to the part inside it.
/// An empty or inverted range has an empty answer.
pub fn clip_spans(spans: &Vec<HighlightSpan>, start_byte: usize, end_byte: usize) -> (out: Vec<
    HighlightSpan,
>)
    ensures
        out@ == clipped(spans@, start_byte, end_byte),
{
    let mut out: Vec<HighlightSpan> = Vec::new();
    let mut i: usize = 0;
    assert(spans@.take(0) =~= Seq::<HighlightSpan>::empty());
    while i < spans.len()
        invariant
            i <= spans.len(),
            out@ == clipped(spans@.take(i as int), start_byte, end_byte),
        decreases spans.len() - i,
    {
        let span = spans[i];
        let lo = if span.start_byte >= start_byte {
            span.start_byte
        } else {
            start_byte
        };
        let hi = if span.end_byte <= end_byte {
            span.end_byte
        } else {
            end_byte
        };
        proof {
            assert(spans@.take(i as int).push(span) =~= spans@.take(i + 1));
            lemma_clipped_push(spans@.take(i as int), span, start_byte, end_byte);
        }
        if lo < hi {
            out.push(HighlightSpan { start_byte: lo, end_byte: hi, color: span.color });
        }
        i += 1;
    }
    assert(spans@.take(spans.len() as int) =~= spans@);
    out
}

} // verus!

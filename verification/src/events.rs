//! The token events of a classifier and the spans that they stand for.
//!
//! A classifier walks a document once and reports where highlight scopes
//! start and end and which byte ranges lie in between. Only a single open
//! scope is tracked: a range becomes a span when a scope is open at that
//! point, colored after the scope's name.

use vstd::prelude::*;
use crate::color::{get_highlight_color, scope_slot, Palette, StraightRgba};
use crate::span::{spans_ordered, spans_within, HighlightSpan};

verus! {

/// One step of a classifier's walk over a document.
#[derive(Debug, Clone, Copy, PartialEq, Eq, Structural)]
pub enum TokenEvent {
    /// The bytes `[start, end)` of the document come next.
    Source { start: usize, end: usize },
    /// A scope opens; the number is its position in the recognized names.
    HighlightStart(usize),
    /// The open scope closes.
    HighlightEnd,
}

/// Number of recognized scope names.
pub const HIGHLIGHT_NAME_COUNT: usize = 24;

/// The recognized scope names, by position. Positions past the last name
/// have the empty name.
pub open spec fn scope_name(index: int) -> Seq<char> {
    if index == 0 {
        "attribute"@
    } else if index == 1 {
        "comment"@
    } else if index == 2 {
        "constant"@
    } else if index == 3 {
        "constant.builtin"@
    } else if index == 4 {
        "constructor"@
    } else if index == 5 {
        "embedded"@
    } else if index == 6 {
        "function"@
    } else if index == 7 {
        "function.builtin"@
    } else if index == 8 {
        "function.method"@
    } else if index == 9 {
        "keyword"@
    } else if index == 10 {
        "number"@
    } else if index == 11 {
        "operator"@
    } else if index == 12 {
        "property"@
    } else if index == 13 {
        "punctuation"@
    } else if index == 14 {
        "punctuation.bracket"@
    } else if index == 15 {
        "punctuation.delimiter"@
    } else if index == 16 {
        "string"@
    } else if index == 17 {
        "string.special"@
    } else if index == 18 {
        "tag"@
    } else if index == 19 {
        "type"@
    } else if index == 20 {
        "type.builtin"@
    } else if index == 21 {
        "variable"@
    } else if index == 22 {
        "variable.builtin"@
    } else if index == 23 {
        "variable.parameter"@
    } else {
        ""@
    }
}

/// The recognized scope name at `index`, or the empty name past the end.
pub fn highlight_name(index: usize) -> (name: &'static str)
    ensures
        name@ == scope_name(index as int),
{
    if index == 0 {
        "attribute"
    } else if index == 1 {
        "comment"
    } else if index == 2 {
        "constant"
    } else if index == 3 {
        "constant.builtin"
    } else if index == 4 {
        "constructor"
    } else if index == 5 {
        "embedded"
    } else if index == 6 {
        "function"
    } else if index == 7 {
        "function.builtin"
    } else if index == 8 {
        "function.method"
    } else if index == 9 {
        "keyword"
    } else if index == 10 {
        "number"
    } else if index == 11 {
        "operator"
    } else if index == 12 {
        "property"
    } else if index == 13 {
        "punctuation"
    } else if index == 14 {
        "punctuation.bracket"
    } else if index == 15 {
        "punctuation.delimiter"
    } else if index == 16 {
        "string"
    } else if index == 17 {
        "string.special"
    } else if index == 18 {
        "tag"
    } else if index == 19 {
        "type"
    } else if index == 20 {
        "type.builtin"
    } else if index == 21 {
        "variable"
    } else if index == 22 {
        "variable.builtin"
    } else if index == 23 {
        "variable.parameter"
    } else {
        ""
    }
}

/// All recognized scope names, in the order of their positions.
pub fn highlight_names() -> (names: Vec<&'static str>)
    ensures
        names@.len() == HIGHLIGHT_NAME_COUNT,
        forall|i: int| 0 <= i < names@.len() ==> (#[trigger] names@[i])@ == scope_name(i),
{
    let mut names: Vec<&'static str> = Vec::new();
    let mut i: usize = 0;
    while i < HIGHLIGHT_NAME_COUNT
        invariant
            i <= HIGHLIGHT_NAME_COUNT,
            names@.len() == i,
            forall|k: int| 0 <= k < names@.len() ==> (#[trigger] names@[k])@ == scope_name(k),
        decreases HIGHLIGHT_NAME_COUNT - i,
    {
        names.push(highlight_name(i));
        i += 1;
    }
    names
}

/// The color in which `palette` draws the scope at position `index`.
pub open spec fn index_color(index: usize, palette: Palette) -> StraightRgba {
    palette.color_of(scope_slot(scope_name(index as int)))
}

/// The scope that is open after `events`: the one that the latest start or
/// end event left, and none at the beginning.
pub open spec fn open_scope(events: Seq<TokenEvent>) -> Option<usize>
    decreases events.len(),
{
    if events.len() == 0 {
        None
    } else {
        match events.last() {
            TokenEvent::HighlightStart(index) => Some(index),
            TokenEvent::HighlightEnd => None,
            TokenEvent::Source { .. } => open_scope(events.drop_last()),
        }
    }
}

/// How far into the document `events` have come: the end of the latest
/// source range, and 0 at the beginning.
pub open spec fn scanned_to(events: Seq<TokenEvent>) -> int
    decreases events.len(),
{
    if events.len() == 0 {
        0
    } else {
        match events.last() {
            TokenEvent::Source { start, end } => end as int,
            _ => scanned_to(events.drop_last()),
        }
    }
}

/// The source ranges of `events` are non-empty, come in byte order without
/// overlap, and stay inside a document of `len` bytes.
pub open spec fn in_byte_order(events: Seq<TokenEvent>, len: int) -> bool
    decreases events.len(),
{
    if events.len() == 0 {
        true
    } else {
        &&& in_byte_order(events.drop_last(), len)
        &&& match events.last() {
            TokenEvent::Source { start, end } => {
                &&& scanned_to(events.drop_last()) <= start
                &&& start < end
                &&& end <= len
            },
            _ => true,
        }
    }
}

/// The spans that `events` give: one for each source range that comes
/// while a scope is open, in the color of that scope.
pub open spec fn event_spans(events: Seq<TokenEvent>, palette: Palette) -> Seq<HighlightSpan>
    decreases events.len(),
{
    if events.len() == 0 {
        Seq::empty()
    } else {
        let before = event_spans(events.drop_last(), palette);
        match events.last() {
            TokenEvent::Source { start, end } => match open_scope(events.drop_last()) {
                Some(index) => before.push(
                    HighlightSpan {
                        start_byte: start,
                        end_byte: end,
                        color: index_color(index, palette),
                    },
                ),
                None => before,
            },
            _ => before,
        }
    }
}

/// The spans that a classification leaves in the cache of a document of
/// `len` bytes: the spans of its events, or nothing when the classifier
/// failed or its events are not in byte order.
pub open spec fn classification_spans(
    outcome: Option<Seq<TokenEvent>>,
    len: int,
    palette: Palette,
) -> Seq<HighlightSpan> {
    match outcome {
        Some(events) => if in_byte_order(events, len) {
            event_spans(events, palette)
        } else {
            Seq::empty()
        },
        None => Seq::empty(),
    }
}

/// Events that are in byte order were in byte order at every earlier point.
pub proof fn lemma_in_byte_order_prefix(events: Seq<TokenEvent>, len: int, count: int)
    requires
        in_byte_order(events, len),
        0 <= count <= events.len(),
    ensures
        in_byte_order(events.take(count), len),
    decreases events.len(),
{
    if count == events.len() {
        assert(events.take(count) =~= events);
    } else {
        assert(events.drop_last().take(count) =~= events.take(count));
        lemma_in_byte_order_prefix(events.drop_last(), len, count);
    }
}

/// Events in byte order give ordered spans that end where the events have
/// come to, inside the document.
pub proof fn lemma_event_spans_ordered(events: Seq<TokenEvent>, len: int, palette: Palette)
    requires
        0 <= len,
        in_byte_order(events, len),
    ensures
        spans_ordered(event_spans(events, palette)),
        spans_within(event_spans(events, palette), 0, scanned_to(events)),
        0 <= scanned_to(events) <= len,
    decreases events.len(),
{
    if events.len() > 0 {
        let before = events.drop_last();
        lemma_event_spans_ordered(before, len, palette);
    }
}

/// Every span comes from a source range that was reported while a scope
/// was open, and it has the color of that scope. The result is the
/// position of such a source event.
pub proof fn lemma_span_has_source(events: Seq<TokenEvent>, palette: Palette, k: int) -> (at:
    int)
    requires
        0 <= k < event_spans(events, palette).len(),
    ensures
        0 <= at < events.len(),
        events[at] == (TokenEvent::Source {
            start: event_spans(events, palette)[k].start_byte,
            end: event_spans(events, palette)[k].end_byte,
        }),
        open_scope(events.take(at)) is Some,
        event_spans(events, palette)[k].color == index_color(
            open_scope(events.take(at))->Some_0,
            palette,
        ),
    decreases events.len(),
{
    let before = events.drop_last();
    if k < event_spans(before, palette).len() {
        let at = lemma_span_has_source(before, palette, k);
        assert(before.take(at) =~= events.take(at));
        assert(before[at] == events[at]);
        at
    } else {
        assert(events.take(events.len() - 1) =~= before);
        events.len() - 1
    }
}

/// Every source range that is reported while a scope is open has its
/// span, in the color of that scope. The result is the position of the
/// span.
pub proof fn lemma_source_has_span(events: Seq<TokenEvent>, palette: Palette, at: int) -> (k:
    int)
    requires
        0 <= at < events.len(),
        events[at] is Source,
        open_scope(events.take(at)) is Some,
    ensures
        0 <= k < event_spans(events, palette).len(),
        event_spans(events, palette)[k] == (HighlightSpan {
            start_byte: events[at]->start,
            end_byte: events[at]->end,
            color: index_color(open_scope(events.take(at))->Some_0, palette),
        }),
    decreases events.len(),
{
    let before = events.drop_last();
    if at < events.len() - 1 {
        assert(before.take(at) =~= events.take(at));
        assert(before[at] == events[at]);
        lemma_source_has_span(before, palette, at)
    } else {
        assert(events.take(at) =~= before);
        event_spans(before, palette).len() as int
    }
}

/// The spans of a classification are ordered and inside the document,
/// whatever the classifier reported.
pub proof fn lemma_classification_spans_ordered(
    outcome: Option<Seq<TokenEvent>>,
    len: int,
    palette: Palette,
)
    requires
        0 <= len,
    ensures
        spans_ordered(classification_spans(outcome, len, palette)),
        spans_within(classification_spans(outcome, len, palette), 0, len),
{
    match outcome {
        Some(events) => {
            if in_byte_order(events, len) {
                lemma_event_spans_ordered(events, len, palette);
            }
        },
        None => {},
    }
}

/// Turns the events of a classifier into the spans of a document of `len`
/// bytes. Gives `None` when the source ranges are not in byte order inside
/// the document.
pub fn build_spans(events: &Vec<TokenEvent>, len: usize, fb: &Palette) -> (spans: Option<
    Vec<HighlightSpan>,
>)
    ensures
        in_byte_order(events@, len as int) ==> spans is Some && spans->Some_0@ == event_spans(
            events@,
            *fb,
        ),
        !in_byte_order(events@, len as int) ==> spans is None,
{
    let mut out: Vec<HighlightSpan> = Vec::new();
    let mut current: Option<usize> = None;
    let mut cursor: usize = 0;
    let mut i: usize = 0;
    assert(events@.take(0) =~= Seq::<TokenEvent>::empty());
    while i < events.len()
        invariant
            i <= events.len(),
            in_byte_order(events@.take(i as int), len as int),
            current == open_scope(events@.take(i as int)),
            cursor == scanned_to(events@.take(i as int)),
            out@ == event_spans(events@.take(i as int), *fb),
        decreases events.len() - i,
    {
        let event = events[i];
        proof {
            assert(events@.take(i + 1).drop_last() =~= events@.take(i as int));
            assert(events@.take(i + 1).last() == event);
        }
        match event {
            TokenEvent::Source { start, end } => {
                if cursor <= start && start < end && end <= len {
                    match current {
                        Some(index) => {
                            let color = get_highlight_color(highlight_name(index), fb);
                            out.push(HighlightSpan { start_byte: start, end_byte: end, color });
                        },
                        None => {},
                    }
                    cursor = end;
                } else {
                    proof {
                        if in_byte_order(events@, len as int) {
                            lemma_in_byte_order_prefix(events@, len as int, i + 1);
                        }
                    }
                    return None;
                }
            },
            TokenEvent::HighlightStart(index) => {
                current = Some(index);
            },
            TokenEvent::HighlightEnd => {
                current = None;
            },
        }
        i += 1;
    }
    assert(events@.take(events.len() as int) =~= events@);
    Some(out)
}

} // verus!

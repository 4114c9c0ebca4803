use syntax_highlight::color::{Palette, StraightRgba};
use syntax_highlight::events::TokenEvent;
use syntax_highlight::highlighter::SyntaxHighlighter;
use syntax_highlight::language::Language;
use syntax_highlight::span::HighlightSpan;

fn palette() -> Palette {
    let mut colors = [StraightRgba(0); 18];
    for (slot, color) in colors.iter_mut().enumerate() {
        *color = StraightRgba(0xff00_0000 + slot as u32);
    }
    Palette::new(colors)
}

const MAGENTA: StraightRgba = StraightRgba(0xff00_0005);
const GREEN: StraightRgba = StraightRgba(0xff00_0002);
const YELLOW: StraightRgba = StraightRgba(0xff00_0003);

fn span(start_byte: usize, end_byte: usize, color: StraightRgba) -> HighlightSpan {
    HighlightSpan { start_byte, end_byte, color }
}

fn highlighter() -> SyntaxHighlighter {
    SyntaxHighlighter::new(Language::Json).unwrap()
}

fn keyword_then_rest() -> Vec<TokenEvent> {
    vec![
        TokenEvent::HighlightStart(9),
        TokenEvent::Source { start: 0, end: 3 },
        TokenEvent::HighlightEnd,
        TokenEvent::Source { start: 3, end: 10 },
    ]
}

#[test]
fn new_highlighter_is_empty() {
    let mut h = highlighter();
    assert_eq!(h.language(), Language::Json);
    assert_eq!(h.buffer_generation, 0);
    assert_eq!(h.generation(), 0);
    assert_eq!(h.cached_source(), &[] as &[u8]);
    assert!(!h.needs_classification());
    assert_eq!(h.cached_highlights(0, 100), vec![]);
    assert_eq!(h.get_highlights(0, 100, &palette()), vec![]);
}

#[test]
fn empty_document_has_no_highlights() {
    let mut h = highlighter();
    h.update(Vec::new(), 1);
    assert!(!h.needs_classification());
    assert_eq!(h.get_highlights(0, 0, &palette()), vec![]);
    assert_eq!(h.get_highlights(0, 10, &palette()), vec![]);
    assert_eq!(h.buffer_generation, 1);
}

#[test]
fn single_keyword_span_is_returned_for_ranges_that_reach_it() {
    let mut h = highlighter();
    h.update(b"let x = 1;".to_vec(), 1);
    assert!(h.needs_classification());
    h.refresh_with(Some(keyword_then_rest()), &palette());
    assert_eq!(h.cached_highlights(0, 10), vec![span(0, 3, MAGENTA)]);
    assert_eq!(h.cached_highlights(5, 10), vec![]);
    assert_eq!(h.get_highlights(0, 10, &palette()), vec![span(0, 3, MAGENTA)]);
    assert_eq!(h.get_highlights(5, 10, &palette()), vec![]);
}

#[test]
fn adjacent_spans_are_clipped_to_the_query() {
    let mut h = highlighter();
    h.update(b"abcdef".to_vec(), 1);
    let events = vec![
        TokenEvent::HighlightStart(16),
        TokenEvent::Source { start: 0, end: 3 },
        TokenEvent::HighlightEnd,
        TokenEvent::HighlightStart(10),
        TokenEvent::Source { start: 3, end: 6 },
        TokenEvent::HighlightEnd,
    ];
    h.refresh_with(Some(events), &palette());
    assert_eq!(h.get_highlights(2, 4, &palette()), vec![span(2, 3, GREEN), span(3, 4, YELLOW)]);
}

#[test]
fn failed_classification_leaves_the_generation_unhighlighted() {
    let fb = palette();
    let mut h = highlighter();
    h.update(b"let x = 1;".to_vec(), 1);
    h.refresh_with(Some(keyword_then_rest()), &fb);
    assert_eq!(h.cached_highlights(0, 10), vec![span(0, 3, MAGENTA)]);

    h.update(b"let y = 2;".to_vec(), 2);
    assert!(h.needs_classification());
    h.refresh_with(None, &fb);
    assert_eq!(h.cached_highlights(0, 10), vec![]);
    assert_eq!(h.cached_highlights(0, usize::MAX), vec![]);

    h.update(b"let z = 3;".to_vec(), 3);
    assert!(h.needs_classification());
    h.refresh_with(Some(keyword_then_rest()), &fb);
    assert_eq!(h.cached_highlights(0, 10), vec![span(0, 3, MAGENTA)]);
}

#[test]
fn events_out_of_order_count_as_a_failed_classification() {
    let fb = palette();
    let mut h = highlighter();
    h.update(b"0123456789".to_vec(), 1);
    let events = vec![
        TokenEvent::HighlightStart(9),
        TokenEvent::Source { start: 5, end: 8 },
        TokenEvent::Source { start: 0, end: 5 },
    ];
    h.refresh_with(Some(events), &fb);
    assert_eq!(h.cached_highlights(0, 10), vec![]);
    let too_long = vec![TokenEvent::HighlightStart(9), TokenEvent::Source { start: 0, end: 11 }];
    h.refresh_with(Some(too_long), &fb);
    assert_eq!(h.cached_highlights(0, 20), vec![]);
}

#[test]
fn update_with_the_same_generation_changes_nothing() {
    let fb = palette();
    let mut h = highlighter();
    let mut classifier_calls = 0;
    h.update(b"let x = 1;".to_vec(), 7);
    if h.needs_classification() {
        classifier_calls += 1;
    }
    h.refresh_with(Some(keyword_then_rest()), &fb);
    assert_eq!(classifier_calls, 1);

    h.update(b"something else".to_vec(), 7);
    h.update(b"and again".to_vec(), 7);
    assert_eq!(h.cached_source(), b"let x = 1;");
    assert_eq!(h.buffer_generation, 7);
    assert_eq!(h.generation(), 7);
    if h.needs_classification() {
        classifier_calls += 1;
    }
    h.refresh_with(None, &fb);
    assert_eq!(classifier_calls, 1);
    assert_eq!(h.cached_highlights(0, 10), vec![span(0, 3, MAGENTA)]);
}

#[test]
fn first_update_stores_generation_zero_too() {
    let mut h = highlighter();
    h.update(b"[1]".to_vec(), 0);
    assert_eq!(h.cached_source(), b"[1]");
    h.update(b"[2]".to_vec(), 0);
    assert_eq!(h.cached_source(), b"[1]");
}

#[test]
fn update_keeps_the_spans_until_the_next_refresh() {
    let fb = palette();
    let mut h = highlighter();
    h.update(b"let x = 1;".to_vec(), 1);
    h.refresh_with(Some(keyword_then_rest()), &fb);
    h.update(b"let y = 2;".to_vec(), 2);
    assert_eq!(h.cached_source(), b"let y = 2;");
    assert_eq!(h.cached_highlights(0, 10), vec![span(0, 3, MAGENTA)]);
    assert!(h.needs_classification());
}

#[test]
fn fresh_spans_ignore_a_later_outcome_and_palette() {
    let fb = palette();
    let mut h = highlighter();
    h.update(b"let x = 1;".to_vec(), 1);
    h.refresh_with(Some(keyword_then_rest()), &fb);
    let mut other = fb;
    other.colors[5] = StraightRgba(0x0bad_f00d);
    let string_everywhere =
        vec![TokenEvent::HighlightStart(16), TokenEvent::Source { start: 0, end: 10 }];
    h.refresh_with(Some(string_everywhere), &other);
    assert_eq!(h.cached_highlights(0, 10), vec![span(0, 3, MAGENTA)]);
    assert_eq!(h.get_highlights(0, 10, &other), vec![span(0, 3, MAGENTA)]);
}

#[test]
fn repeated_queries_give_the_same_answer() {
    let fb = palette();
    let mut h = highlighter();
    h.update(b"{\"k\": [1, null]}".to_vec(), 1);
    let first = h.get_highlights(0, 16, &fb);
    let second = h.get_highlights(0, 16, &fb);
    assert_eq!(first, second);
    let part_a = h.get_highlights(2, 9, &fb);
    let part_b = h.get_highlights(2, 9, &fb);
    assert_eq!(part_a, part_b);
    assert!(!first.is_empty());
}

#[test]
fn json_document_is_classified_by_the_grammar() {
    let fb = palette();
    let mut h = highlighter();
    h.update(b"[1, null]".to_vec(), 1);
    assert_eq!(
        h.get_highlights(0, 9, &fb),
        vec![span(1, 2, YELLOW), span(4, 8, YELLOW)]
    );
    assert_eq!(h.get_highlights(5, 7, &fb), vec![span(5, 7, YELLOW)]);
    assert!(!h.needs_classification());

    h.update(b"{\"k\": \"v\"}".to_vec(), 2);
    assert_eq!(
        h.get_highlights(0, 10, &fb),
        vec![span(1, 4, GREEN), span(6, 9, GREEN)]
    );
    assert_eq!(h.get_highlights(0, 3, &fb), vec![span(1, 3, GREEN)]);
}

#[test]
fn document_without_tokens_is_classified_again_on_each_query() {
    let fb = palette();
    let mut h = highlighter();
    h.update(b"   ".to_vec(), 1);
    assert!(h.needs_classification());
    assert_eq!(h.get_highlights(0, 3, &fb), vec![]);
    assert!(h.needs_classification());
    assert_eq!(h.get_highlights(0, 3, &fb), vec![]);
}

#[test]
fn whole_document_query_returns_the_whole_cache_in_order() {
    let fb = palette();
    let mut h = highlighter();
    let source = b"{\"k\": [1, null]}".to_vec();
    let len = source.len();
    h.update(source, 1);
    let answer = h.get_highlights(0, len, &fb);
    assert_eq!(answer, h.cached_highlights(0, usize::MAX));
    for part in &answer {
        assert!(part.start_byte < part.end_byte);
        assert!(part.end_byte <= len);
    }
    for pair in answer.windows(2) {
        assert!(pair[0].end_byte <= pair[1].start_byte);
    }
    assert_eq!(
        answer,
        vec![span(1, 4, GREEN), span(7, 8, YELLOW), span(10, 14, YELLOW)]
    );
}

#[test]
fn reused_generation_keeps_spans_of_the_earlier_bytes() {
    // Generations are meant to grow. When an old one comes back for other
    // bytes, the spans computed under it still count as fresh; an answer
    // is cut to the queried range all the same.
    let fb = palette();
    let mut h = highlighter();
    h.update(b"let x = 1;".to_vec(), 1);
    h.refresh_with(Some(keyword_then_rest()), &fb);
    h.update(b"other bytes".to_vec(), 2);
    h.update(b"ab".to_vec(), 1);
    assert!(!h.needs_classification());
    assert_eq!(h.get_highlights(0, 2, &fb), vec![span(0, 2, MAGENTA)]);
}

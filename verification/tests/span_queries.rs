use syntax_highlight::color::StraightRgba;
use syntax_highlight::span::{clip_spans, HighlightSpan};

const A: StraightRgba = StraightRgba(0xaa);
const B: StraightRgba = StraightRgba(0xbb);
const C: StraightRgba = StraightRgba(0xcc);

fn span(start_byte: usize, end_byte: usize, color: StraightRgba) -> HighlightSpan {
    HighlightSpan { start_byte, end_byte, color }
}

#[test]
fn query_cuts_spans_at_both_ends_of_the_range() {
    let cache = vec![span(0, 3, A), span(3, 6, B)];
    assert_eq!(clip_spans(&cache, 2, 4), vec![span(2, 3, A), span(3, 4, B)]);
}

#[test]
fn query_keeps_spans_inside_the_range_whole() {
    let cache = vec![span(0, 3, A), span(5, 8, B), span(10, 12, C)];
    assert_eq!(clip_spans(&cache, 0, 12), cache);
    assert_eq!(clip_spans(&cache, 0, usize::MAX), cache);
    assert_eq!(clip_spans(&cache, 4, 9), vec![span(5, 8, B)]);
}

#[test]
fn query_drops_spans_outside_the_range() {
    let cache = vec![span(0, 3, A), span(5, 8, B), span(10, 12, C)];
    assert_eq!(clip_spans(&cache, 3, 5), vec![]);
    assert_eq!(clip_spans(&cache, 8, 10), vec![]);
    assert_eq!(clip_spans(&cache, 12, 100), vec![]);
    assert_eq!(clip_spans(&cache, 2, 6), vec![span(2, 3, A), span(5, 6, B)]);
}

#[test]
fn query_over_an_empty_range_is_empty() {
    let cache = vec![span(0, 10, A)];
    assert_eq!(clip_spans(&cache, 5, 5), vec![]);
    assert_eq!(clip_spans(&cache, 0, 0), vec![]);
    assert_eq!(clip_spans(&cache, 10, 10), vec![]);
}

#[test]
fn query_over_an_inverted_range_is_empty() {
    let cache = vec![span(0, 10, A)];
    assert_eq!(clip_spans(&cache, 7, 3), vec![]);
    assert_eq!(clip_spans(&cache, usize::MAX, 0), vec![]);
}

#[test]
fn query_over_no_spans_is_empty() {
    assert_eq!(clip_spans(&Vec::new(), 0, 100), vec![]);
}

#[test]
fn clipped_spans_stay_inside_the_range_and_are_not_empty() {
    let cache = vec![span(0, 4, A), span(4, 9, B), span(12, 20, C), span(25, 26, A)];
    for start in 0..28 {
        for end in 0..28 {
            let answer = clip_spans(&cache, start, end);
            for part in &answer {
                assert!(start <= part.start_byte);
                assert!(part.start_byte < part.end_byte);
                assert!(part.end_byte <= end);
            }
            for pair in answer.windows(2) {
                assert!(pair[0].end_byte <= pair[1].start_byte);
            }
        }
    }
}

#[test]
fn clipping_an_answer_again_changes_nothing() {
    let cache = vec![span(0, 4, A), span(4, 9, B), span(12, 20, C)];
    let once = clip_spans(&cache, 2, 15);
    assert_eq!(once, vec![span(2, 4, A), span(4, 9, B), span(12, 15, C)]);
    assert_eq!(clip_spans(&once, 2, 15), once);
    assert_eq!(clip_spans(&once, 3, 13), clip_spans(&cache, 3, 13));
}

#[test]
fn whole_document_query_colors_every_byte_as_the_cache_does() {
    let default = StraightRgba(0);
    let cache = vec![span(1, 3, A), span(3, 4, B), span(6, 9, C)];
    let len = 10;
    let answer = clip_spans(&cache, 0, len);
    let color_at = |spans: &Vec<HighlightSpan>, byte: usize| {
        spans
            .iter()
            .find(|s| s.start_byte <= byte && byte < s.end_byte)
            .map(|s| s.color)
            .unwrap_or(default)
    };
    let expected = [default, A, A, B, default, default, C, C, C, default];
    for byte in 0..len {
        assert_eq!(color_at(&answer, byte), expected[byte]);
        assert_eq!(color_at(&answer, byte), color_at(&cache, byte));
    }
}

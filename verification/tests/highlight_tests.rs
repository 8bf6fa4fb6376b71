use nucleo_ui::highlight::sort_dedup;
use nucleo_ui::highlight::split_highlights;

fn joined(spans: &Vec<(String, bool)>) -> String {
    let mut s = String::new();
    for (text, _) in spans {
        s.push_str(text);
    }
    s
}

#[test]
fn split_marks_exactly_the_given_positions() {
    let spans = split_highlights("abc", &vec![0, 2]);
    assert_eq!(
        spans,
        vec![
            ("a".to_string(), true),
            ("b".to_string(), false),
            ("c".to_string(), true)
        ]
    );
}

#[test]
fn split_empty_index_list_is_one_plain_span() {
    let spans = split_highlights("hello", &vec![]);
    assert_eq!(spans, vec![("hello".to_string(), false)]);
}

#[test]
fn split_empty_text_has_no_spans() {
    let spans = split_highlights("", &vec![]);
    assert!(spans.is_empty());
    let spans = split_highlights("", &vec![3]);
    assert!(spans.is_empty());
}

#[test]
fn split_drops_out_of_range_indices() {
    let spans = split_highlights("ab", &vec![5]);
    assert_eq!(spans, vec![("ab".to_string(), false)]);
    let spans = split_highlights("ab", &vec![1, 17]);
    assert_eq!(
        spans,
        vec![("a".to_string(), false), ("b".to_string(), true)]
    );
}

#[test]
fn split_tolerates_duplicates_and_disorder() {
    let spans = split_highlights("abcd", &vec![2, 0, 0]);
    assert_eq!(
        spans,
        vec![
            ("a".to_string(), true),
            ("b".to_string(), false),
            ("c".to_string(), true),
            ("d".to_string(), false)
        ]
    );
}

#[test]
fn split_respects_character_boundaries() {
    // 'é' is multi-byte; index 1 is a character offset, not a byte offset.
    let spans = split_highlights("h\u{e9}llo", &vec![1]);
    assert_eq!(
        spans,
        vec![
            ("h".to_string(), false),
            ("\u{e9}".to_string(), true),
            ("llo".to_string(), false)
        ]
    );
}

#[test]
fn split_all_highlighted_is_one_span() {
    let spans = split_highlights("ab", &vec![0, 1]);
    assert_eq!(spans, vec![("ab".to_string(), true)]);
}

#[test]
fn split_concatenates_back_to_the_text() {
    let cases: Vec<(&str, Vec<u32>)> = vec![
        ("", vec![]),
        ("a", vec![0]),
        ("alpha", vec![0, 4]),
        ("h\u{e9}ll\u{f6} w\u{f8}rld", vec![1, 4, 9, 2, 2]),
        ("path/to/file", vec![5, 6, 7, 99]),
    ];
    for (text, indices) in cases {
        let spans = split_highlights(text, &indices);
        assert_eq!(joined(&spans), text);
        for (piece, _) in &spans {
            assert!(!piece.is_empty());
        }
        for pair in spans.windows(2) {
            assert_ne!(pair[0].1, pair[1].1);
        }
    }
}

#[test]
fn sort_dedup_orders_and_deduplicates() {
    assert_eq!(sort_dedup(&vec![3, 1, 3, 0]), vec![0, 1, 3]);
    assert_eq!(sort_dedup(&vec![]), Vec::<u32>::new());
    assert_eq!(sort_dedup(&vec![7, 7, 7]), vec![7]);
    assert_eq!(sort_dedup(&vec![2, 1, 0]), vec![0, 1, 2]);
}

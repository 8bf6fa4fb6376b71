use nucleo_ui::highlight::split_highlights;
use nucleo_ui::model::FuzzyMatchModel;

fn model_with(candidates: Vec<&str>) -> FuzzyMatchModel {
    let mut m = FuzzyMatchModel::new(candidates.into_iter().map(String::from).collect(), false);
    m.update_height(50);
    m
}

/// Ticks until the engine reports the wanted matched count.
fn settle(m: &mut FuzzyMatchModel, want: usize) {
    for _ in 0..200 {
        m.tick();
        if m.snapshot.matched_item_count == want {
            return;
        }
    }
    panic!(
        "engine did not settle at {} matches (got {})",
        want, m.snapshot.matched_item_count
    );
}

fn row_texts(m: &FuzzyMatchModel) -> Vec<String> {
    m.snapshot
        .matched_items
        .iter()
        .map(|(text, _)| text.clone())
        .collect()
}

#[test]
fn piped_candidates_come_back_in_input_order() {
    let mut m = model_with(vec!["x", "y", "z"]);
    settle(&mut m, 3);
    assert_eq!(m.snapshot.total_item_count, 3);
    // With an empty query every candidate matches, in push order.
    assert_eq!(row_texts(&m), vec!["x", "y", "z"]);
}

#[test]
fn typing_filters_ranks_and_highlights() {
    let mut m = model_with(vec!["alpha", "beta", "gamma"]);
    settle(&mut m, 3);
    m.enter_char('a');
    // Every candidate contains an 'a'; at minimum alpha and gamma stay.
    settle(&mut m, 3);
    let texts = row_texts(&m);
    assert!(texts.contains(&"alpha".to_string()));
    assert!(texts.contains(&"gamma".to_string()));
    // Each visible row highlights exactly one 'a'.
    for (text, indices) in &m.snapshot.matched_items {
        assert_eq!(indices.len(), 1);
        let spans = split_highlights(text, indices);
        let marked: String = spans
            .iter()
            .filter(|(_, highlighted)| *highlighted)
            .map(|(piece, _)| piece.clone())
            .collect();
        assert_eq!(marked, "a");
        let whole: String = spans.iter().map(|(piece, _)| piece.clone()).collect();
        assert_eq!(&whole, text);
    }
    // Committing the top row makes its text the result.
    let top = m.snapshot.matched_items[0].0.clone();
    assert_eq!(m.items.selected, Some(0));
    m.select();
    assert_eq!(m.result, Some(top));
}

#[test]
fn refinement_matches_a_full_rescan() {
    // Grown query, reparsed as a refinement of its prefix.
    let mut a = model_with(vec!["foo", "bar", "baz", "quux"]);
    settle(&mut a, 4);
    a.enter_char('b');
    settle(&mut a, 2);
    a.enter_char('a');
    settle(&mut a, 2);

    // Same final query, built so the last reparse is a full rescan
    // ("ba" does not start with the previous query "a").
    let mut b = model_with(vec!["foo", "bar", "baz", "quux"]);
    settle(&mut b, 4);
    b.enter_char('a');
    settle(&mut b, 2);
    b.move_cursor_left();
    b.enter_char('b');
    settle(&mut b, 2);

    assert_eq!(row_texts(&a), row_texts(&b));
}

#[test]
fn selection_stays_valid_as_the_matched_set_shrinks_and_grows() {
    let mut m = model_with(vec!["aa", "ab"]);
    settle(&mut m, 2);
    m.down();
    assert_eq!(m.items.selected, Some(1));
    // 'q' matches nothing: the selection must unset, not dangle.
    m.enter_char('q');
    settle(&mut m, 0);
    assert_eq!(m.items.selected, None);
    // Deleting back to the empty query matches everything again.
    m.delete_char();
    settle(&mut m, 2);
    match m.items.selected {
        None => {}
        Some(i) => assert!(i < m.snapshot.matched_item_count),
    }
}

#[test]
fn shrinking_matched_count_clamps_the_selection() {
    let mut m = model_with(vec!["ape", "axe", "arc"]);
    settle(&mut m, 3);
    m.down();
    m.down();
    assert_eq!(m.items.selected, Some(1));
    m.up();
    m.up();
    assert_eq!(m.items.selected, Some(0));
    // "ax" keeps only one candidate. Navigating on the stale snapshot
    // (still three rows) puts the selection at 2; once the engine settles
    // at one match, re-validation must clamp it.
    m.enter_char('a');
    m.enter_char('x');
    m.up();
    m.up();
    assert_eq!(m.items.selected, Some(2));
    settle(&mut m, 1);
    assert_eq!(m.items.selected, Some(0));
}

use catfish::complete::{candidates, completion_mode, filter_prefix, CompletionMode, CursorShape};

fn b(s: &str) -> Vec<u8> {
    s.as_bytes().to_vec()
}

#[test]
fn offset_zero_of_first_token_yields_no_candidates() {
    assert_eq!(
        completion_mode(&CursorShape::InWord { offset: 0 }),
        CompletionMode::NoCompletion
    );
    assert_eq!(
        completion_mode(&CursorShape::OnWordLeftEdge { offset: 0 }),
        CompletionMode::NoCompletion
    );
    assert_eq!(
        completion_mode(&CursorShape::OnWordRightEdge { offset: 0 }),
        CompletionMode::NoCompletion
    );
    assert_eq!(
        completion_mode(&CursorShape::InSpace { word_to_left: false }),
        CompletionMode::NoCompletion
    );
}

#[test]
fn later_positions_yield_filename_mode() {
    assert_eq!(
        completion_mode(&CursorShape::InWord { offset: 1 }),
        CompletionMode::Filename
    );
    assert_eq!(
        completion_mode(&CursorShape::InWord { offset: 7 }),
        CompletionMode::Filename
    );
    assert_eq!(
        completion_mode(&CursorShape::InSpace { word_to_left: true }),
        CompletionMode::Filename
    );
    assert_eq!(
        completion_mode(&CursorShape::OnWordLeftEdge { offset: 1 }),
        CompletionMode::Filename
    );
    assert_eq!(
        completion_mode(&CursorShape::OnWordRightEdge { offset: 2 }),
        CompletionMode::Filename
    );
}

#[test]
fn candidates_are_the_entries_with_the_typed_prefix() {
    let entries = vec![b("foo"), b("bar"), b("foobar"), b("fo"), b(".foo")];
    let got = filter_prefix(&entries, &b("foo"));
    assert_eq!(got, vec![b("foo"), b("foobar")]);
}

#[test]
fn empty_prefix_keeps_every_entry_in_order() {
    let entries = vec![b("b"), b("a"), b("c")];
    let got = filter_prefix(&entries, &b(""));
    assert_eq!(got, entries);
}

#[test]
fn inactive_mode_offers_nothing_active_mode_filters() {
    let entries = vec![b("notes.txt"), b("nope"), b("src")];
    // cursor at offset 0 of the first token: no candidates at all
    let mode = completion_mode(&CursorShape::InWord { offset: 0 });
    assert_eq!(candidates(mode, &entries, &b("no")), Vec::<Vec<u8>>::new());
    // cursor inside a word after a space: path candidates by prefix
    let mode = completion_mode(&CursorShape::InWord { offset: 2 });
    assert_eq!(
        candidates(mode, &entries, &b("no")),
        vec![b("notes.txt"), b("nope")]
    );
}

#[test]
fn no_matching_entry_means_no_candidates() {
    let entries = vec![b("alpha"), b("beta")];
    let got = filter_prefix(&entries, &b("zz"));
    assert_eq!(got, Vec::<Vec<u8>>::new());
}

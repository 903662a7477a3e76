use gen_pr::text::{contains_text, join_texts, split_text, text_after_first, to_chars};

fn owned(pieces: &[&str]) -> Vec<String> {
    pieces.iter().map(|piece| piece.to_string()).collect()
}

#[test]
fn split_cuts_at_every_separator() {
    assert_eq!(split_text("a\nb\nc", '\n'), owned(&["a", "b", "c"]));
}

#[test]
fn split_of_empty_text_is_one_empty_piece() {
    assert_eq!(split_text("", '\n'), owned(&[""]));
}

#[test]
fn split_keeps_empty_pieces() {
    assert_eq!(split_text("\na\n\nb\n", '\n'), owned(&["", "a", "", "b", ""]));
}

#[test]
fn split_without_separator_is_the_text() {
    assert_eq!(split_text("no newline here", '\n'), owned(&["no newline here"]));
}

#[test]
fn split_handles_wide_characters() {
    assert_eq!(split_text("añ=✓=😀", '='), owned(&["añ", "✓", "😀"]));
}

#[test]
fn join_puts_separator_between_neighbours() {
    assert_eq!(join_texts(&owned(&["a", "b", "c"]), ", "), "a, b, c");
}

#[test]
fn join_of_nothing_is_empty() {
    assert_eq!(join_texts(&Vec::new(), "\n"), "");
}

#[test]
fn join_of_one_piece_is_the_piece() {
    assert_eq!(join_texts(&owned(&["only"]), "\n"), "only");
}

#[test]
fn join_keeps_empty_pieces() {
    assert_eq!(join_texts(&owned(&["", "", "x", ""]), "-"), "--x-");
}

#[test]
fn join_undoes_split() {
    for text in ["", "\n", "a", "a\nb", "\n\nx\n", "one\ntwo\nthree\n"] {
        assert_eq!(join_texts(&split_text(text, '\n'), "\n"), text);
    }
}

#[test]
fn split_undoes_join() {
    let pieces = owned(&["first", "", "third"]);
    assert_eq!(split_text(&join_texts(&pieces, "\n"), '\n'), pieces);
}

#[test]
fn contains_finds_a_part_anywhere() {
    assert!(contains_text("BASE_BRANCH=main", "BASE"));
    assert!(contains_text("BASE_BRANCH=main", "BRANCH=m"));
    assert!(contains_text("BASE_BRANCH=main", "main"));
    assert!(contains_text("BASE_BRANCH=main", "BASE_BRANCH=main"));
}

#[test]
fn contains_rejects_what_is_not_there() {
    assert!(!contains_text("BASE_BRANCH=main", "BASE_BRANCH_MM"));
    assert!(!contains_text("BASE_BRANCH=main", "mainn"));
    assert!(!contains_text("abc", "abcd"));
    assert!(!contains_text("", "a"));
    assert!(!contains_text("aab", "aba"));
}

#[test]
fn contains_finds_the_empty_text_everywhere() {
    assert!(contains_text("abc", ""));
    assert!(contains_text("", ""));
}

#[test]
fn contains_finds_overlapping_starts() {
    assert!(contains_text("aaab", "aab"));
    assert!(contains_text("ababac", "abac"));
}

#[test]
fn after_first_takes_the_remainder() {
    assert_eq!(text_after_first("KEY=value", '='), "value");
}

#[test]
fn after_first_cuts_at_the_first_separator_only() {
    assert_eq!(text_after_first("URL=a=b=c", '='), "a=b=c");
}

#[test]
fn after_first_without_separator_is_the_text() {
    assert_eq!(text_after_first("no separator", '='), "no separator");
    assert_eq!(text_after_first("", '='), "");
}

#[test]
fn after_first_may_be_empty() {
    assert_eq!(text_after_first("KEY=", '='), "");
    assert_eq!(text_after_first("=", '='), "");
}

#[test]
fn to_chars_gives_each_character() {
    assert_eq!(to_chars("añ✓"), vec!['a', 'ñ', '✓']);
    assert_eq!(to_chars(""), Vec::<char>::new());
}

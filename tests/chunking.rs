use desktop_companion::chunks::aggregate_chunks;
use desktop_companion::text::{chunk_summary, log_lines, sanitize_line};

fn owned(lines: &[&str]) -> Vec<String> {
    lines.iter().map(|l| l.to_string()).collect()
}

#[test]
fn empty_input_gives_no_chunks() {
    assert!(aggregate_chunks(&Vec::new(), 100).is_empty());
}

#[test]
fn lines_that_fit_share_one_chunk() {
    let chunks = aggregate_chunks(&owned(&["build started", "step 1 ok"]), 8192);
    assert_eq!(chunks, vec!["build started\nstep 1 ok".to_string()]);
}

#[test]
fn chunk_reaching_budget_is_closed() {
    let chunks = aggregate_chunks(&owned(&["aaaa", "bbbb", "cc"]), 9);
    assert_eq!(chunks, owned(&["aaaa\nbbbb", "cc"]));
}

#[test]
fn line_that_would_overflow_starts_new_chunk() {
    let chunks = aggregate_chunks(&owned(&["aaaa", "bbbbb"]), 9);
    assert_eq!(chunks, owned(&["aaaa", "bbbbb"]));
}

#[test]
fn oversized_line_stands_alone_unsplit() {
    let chunks = aggregate_chunks(&owned(&["ab", "xxxxxxxxxx", "c"]), 5);
    assert_eq!(chunks, owned(&["ab", "xxxxxxxxxx", "c"]));
}

#[test]
fn budget_counts_bytes_not_characters() {
    let chunks = aggregate_chunks(&owned(&["é", "é"]), 4);
    assert_eq!(chunks, owned(&["é", "é"]));
    let chunks = aggregate_chunks(&owned(&["é", "é"]), 5);
    assert_eq!(chunks, owned(&["é\né"]));
}

#[test]
fn chunks_give_back_every_line_in_order() {
    let lines = owned(&["one", "two", "three", "a rather longer line here", "x", "y", "z"]);
    let chunks = aggregate_chunks(&lines, 12);
    let back: Vec<String> = chunks
        .iter()
        .flat_map(|c| c.split('\n').map(|l| l.to_string()).collect::<Vec<_>>())
        .collect();
    assert_eq!(back, lines);
}

#[test]
fn chunks_stay_within_budget_unless_single_line() {
    let lines = owned(&["one", "two", "three", "a rather longer line here", "x", "y", "z"]);
    let chunks = aggregate_chunks(&lines, 12);
    for c in &chunks {
        assert!(c.len() <= 12 || (lines.contains(c) && c.len() > 12));
    }
    assert!(chunks.contains(&"a rather longer line here".to_string()));
}

#[test]
fn short_line_is_kept() {
    assert_eq!(sanitize_line("step 1 ok", 180), "step 1 ok");
}

#[test]
fn long_line_is_cut_with_ellipsis() {
    assert_eq!(sanitize_line("abcdef", 3), "abc…");
    let long = "x".repeat(200);
    let cut = sanitize_line(&long, 180);
    assert_eq!(cut, format!("{}…", "x".repeat(180)));
}

#[test]
fn cut_never_splits_a_character() {
    assert_eq!(sanitize_line("aé", 2), "a…");
}

#[test]
fn summary_takes_last_line_and_counts_lines() {
    let (headline, lines) = chunk_summary("build started\nstep 1 ok");
    assert_eq!(headline, "step 1 ok");
    assert_eq!(lines, 2);
}

#[test]
fn summary_of_empty_chunk_uses_fixed_headline() {
    let (headline, lines) = chunk_summary("");
    assert_eq!(headline, "Streaming log update");
    assert_eq!(lines, 0);
}

#[test]
fn log_lines_drop_endings_and_trailing_space() {
    assert_eq!(log_lines("a  \r\nb\t\nc"), owned(&["a", "b", "c"]));
}

#[test]
fn empty_line_opening_a_chunk_is_kept() {
    assert_eq!(aggregate_chunks(&owned(&["", "a"]), 10), owned(&["\na"]));
    assert_eq!(aggregate_chunks(&owned(&[""]), 10), owned(&[""]));
    assert_eq!(aggregate_chunks(&owned(&["abcd", "", "x"]), 4), owned(&["abcd", "\nx"]));
}

#[test]
fn blank_lines_survive_packing() {
    let lines = owned(&["", "step", "", "", "done", ""]);
    let chunks = aggregate_chunks(&lines, 6);
    let back: Vec<String> = chunks
        .iter()
        .flat_map(|c| c.split('\n').map(|l| l.to_string()).collect::<Vec<_>>())
        .collect();
    assert_eq!(back, lines);
}

use out_of_context::guard::is_looping;

fn texts(items: &[&str]) -> Vec<String> {
    items.iter().map(|s| s.to_string()).collect()
}

fn distinct(prefix: &str, n: usize) -> Vec<String> {
    (0..n).map(|i| format!("{prefix}{i}")).collect()
}

#[test]
fn short_window_never_flags_even_if_degenerate() {
    // 39 identical entries: below the minimum history, never flagged.
    let w = vec!["the".to_string(); 39];
    assert!(!is_looping(&w));
}

#[test]
fn empty_window_does_not_flag() {
    let w: Vec<String> = Vec::new();
    assert!(!is_looping(&w));
}

#[test]
fn seven_gram_repeat_flags() {
    // 26 distinct fillers followed by a seven-entry phrase twice: 40 entries.
    let mut w = distinct("f", 26);
    for _ in 0..2 {
        for t in ["a", "b", "c", "d", "e", "f", "g"] {
            w.push(t.to_string());
        }
    }
    assert_eq!(w.len(), 40);
    assert!(is_looping(&w));
}

#[test]
fn five_gram_repeat_flags() {
    let mut w = distinct("f", 30);
    for _ in 0..2 {
        for t in ["a", "b", "c", "d", "e"] {
            w.push(t.to_string());
        }
    }
    assert_eq!(w.len(), 40);
    assert!(is_looping(&w));
}

#[test]
fn four_gram_repeat_flags() {
    let mut w = distinct("f", 32);
    for _ in 0..2 {
        for t in ["a", "b", "c", "d"] {
            w.push(t.to_string());
        }
    }
    assert_eq!(w.len(), 40);
    assert!(is_looping(&w));
}

#[test]
fn diverse_window_does_not_flag() {
    let w = distinct("w", 60);
    assert!(!is_looping(&w));
}

#[test]
fn dominant_text_flags() {
    // 48 occurrences of one text interleaved with distinct fillers.
    let mut w = Vec::new();
    for i in 0..48 {
        w.push("x".to_string());
        w.push(format!("f{i}"));
    }
    w.extend(texts(&["g0", "g1", "g2", "g3"]));
    assert_eq!(w.len(), 100);
    assert!(is_looping(&w));
}

#[test]
fn forty_seven_occurrences_do_not_flag() {
    let mut w = Vec::new();
    for i in 0..47 {
        w.push("x".to_string());
        w.push(format!("f{i}"));
    }
    w.extend(texts(&["g0", "g1", "g2", "g3", "g4", "g5"]));
    assert_eq!(w.len(), 100);
    assert!(!is_looping(&w));
}

#[test]
fn dominance_only_counts_last_160_entries() {
    // 48 copies up front, pushed out of the trailing 160 by distinct texts.
    let mut w = vec!["x".to_string(); 48];
    w.extend(distinct("f", 152));
    assert_eq!(w.len(), 200);
    assert!(!is_looping(&w));
}

#[test]
fn low_diversity_flags() {
    // A cycle of 38 distinct values over 120 entries: 38/120 < 0.32.
    let w: Vec<String> = (0..120).map(|i| format!("v{}", i % 38)).collect();
    assert!(is_looping(&w));
}

#[test]
fn thirty_nine_distinct_values_do_not_flag() {
    // 39/120 >= 0.32, and no other rule applies.
    let w: Vec<String> = (0..120).map(|i| format!("v{}", i % 39)).collect();
    assert!(!is_looping(&w));
}

use spectral_emotions::edge_key;

#[test]
fn edge_key_keeps_ordered_pair() {
    assert_eq!(edge_key("alice", "bob"), ("alice".to_string(), "bob".to_string()));
}

#[test]
fn edge_key_swaps_reversed_pair() {
    assert_eq!(edge_key("bob", "alice"), ("alice".to_string(), "bob".to_string()));
}

#[test]
fn edge_key_is_symmetric() {
    for (a, b) in [("a", "b"), ("x", "xy"), ("Zed", "abe"), ("é", "z"), ("same", "same")] {
        assert_eq!(edge_key(a, b), edge_key(b, a));
    }
}

#[test]
fn edge_key_prefix_first() {
    assert_eq!(edge_key("node10", "node1"), ("node1".to_string(), "node10".to_string()));
}

#[test]
fn edge_key_code_point_order() {
    // 'Z' (U+005A) comes before 'a' (U+0061), which comes before 'é' (U+00E9)
    assert_eq!(edge_key("a", "Z"), ("Z".to_string(), "a".to_string()));
    assert_eq!(edge_key("é", "a"), ("a".to_string(), "é".to_string()));
}

#[test]
fn edge_key_self_loop() {
    assert_eq!(edge_key("a", "a"), ("a".to_string(), "a".to_string()));
}

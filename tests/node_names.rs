use node_config::generate_node_name;
use node_config::node_name::{accept_node_name, truncate_node_name, NODE_NAME_MAX_LENGTH};

#[test]
fn generated_names_are_short() {
    for _ in 0..10_000 {
        let name = generate_node_name();
        assert!(name.chars().count() < NODE_NAME_MAX_LENGTH);
    }
}

#[test]
fn generated_names_are_numbered_words() {
    for _ in 0..1_000 {
        let name: Vec<char> = generate_node_name().chars().collect();
        let n = name.len();
        assert!(n >= 8);
        assert_eq!(name[n - 5], '-');
        assert!(name[n - 4..].iter().all(|c| c.is_ascii_digit()));
        assert!(name[..n - 5].contains(&'-'));
    }
}

#[test]
fn candidates_are_accepted_below_the_limit() {
    let ok = "a".repeat(31);
    assert_eq!(accept_node_name(ok.clone()), Some(ok));
    assert_eq!(accept_node_name("a".repeat(32)), None);
    assert_eq!(accept_node_name(String::new()), Some(String::new()));
    assert_eq!(accept_node_name("é".repeat(31)), Some("é".repeat(31)));
}

#[test]
fn truncation_keeps_a_prefix() {
    assert_eq!(truncate_node_name("short"), "short");
    assert_eq!(truncate_node_name(&"b".repeat(40)), "b".repeat(31));
}

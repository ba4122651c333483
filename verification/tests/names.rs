use eywa_axum::names::{rank_names, NameMap, Rank};
use eywa_axum::text::join;
use std::collections::BTreeMap;

#[test]
fn names_rank_as_str_compares() {
    let samples = ["", "a", "A", "ab", "b", "/health", "/health/live", "/health/ready", "é", "z", "日本"];
    for a in samples {
        for b in samples {
            let expected = a.cmp(b);
            let rank = rank_names(a, b);
            match expected {
                std::cmp::Ordering::Less => assert!(matches!(rank, Rank::Before)),
                std::cmp::Ordering::Equal => assert!(matches!(rank, Rank::Same)),
                std::cmp::Ordering::Greater => assert!(matches!(rank, Rank::After)),
            }
        }
    }
}

#[test]
fn insert_keeps_names_in_order_and_replaces_values() {
    let mut map: NameMap<u32> = NameMap::new();
    assert_eq!(map.len(), 0);
    assert_eq!(map.insert("pear".to_string(), 1), None);
    assert_eq!(map.insert("apple".to_string(), 2), None);
    assert_eq!(map.insert("zebra".to_string(), 3), None);
    assert_eq!(map.insert("mango".to_string(), 4), None);
    assert_eq!(map.insert("pear".to_string(), 5), Some(1));
    assert_eq!(map.len(), 4);
    let names: Vec<&str> = (0..map.len()).map(|i| map.name_at(i)).collect();
    assert_eq!(names, vec!["apple", "mango", "pear", "zebra"]);
    let values: Vec<u32> = (0..map.len()).map(|i| *map.value_at(i)).collect();
    assert_eq!(values, vec![2, 4, 5, 3]);
    assert_eq!(map.get("pear"), Some(&5));
    assert_eq!(map.get("plum"), None);
    assert!(map.contains_key("apple"));
    assert!(!map.contains_key("appl"));
    assert!(!map.contains_key("apples"));
}

#[test]
fn map_behaves_as_a_b_tree_map() {
    let keys = ["/b", "/a/1", "/a", "/c", "/a/1", "", "/b", "/A", "/ä", "/a/0"];
    let mut ours: NameMap<usize> = NameMap::new();
    let mut theirs: BTreeMap<String, usize> = BTreeMap::new();
    for (i, key) in keys.iter().enumerate() {
        assert_eq!(ours.insert(key.to_string(), i), theirs.insert(key.to_string(), i));
    }
    assert_eq!(ours.len(), theirs.len());
    let entries = ours.into_entries();
    let expected: Vec<(String, usize)> = theirs.into_iter().collect();
    assert_eq!(entries, expected);
}

#[test]
fn insert_all_applies_registrations_in_order() {
    let mut map: NameMap<&'static str> = NameMap::new();
    map.insert("kept".to_string(), "start");
    map.insert("b".to_string(), "start");
    map.insert_all(vec![
        ("b".to_string(), "first"),
        ("a".to_string(), "first"),
        ("b".to_string(), "second"),
    ]);
    assert_eq!(map.get("a"), Some(&"first"));
    assert_eq!(map.get("b"), Some(&"second"));
    assert_eq!(map.get("kept"), Some(&"start"));
    assert_eq!(map.len(), 3);
    map.insert_all(Vec::new());
    assert_eq!(map.len(), 3);
}

#[test]
fn join_puts_the_separator_between_parts() {
    assert_eq!(join(&vec![], ", "), "");
    assert_eq!(join(&vec!["GET"], ", "), "GET");
    assert_eq!(join(&vec!["GET", "POST", "PUT"], ", "), "GET, POST, PUT");
    assert_eq!(join(&vec!["a", "", "b"], "-"), "a--b");
}

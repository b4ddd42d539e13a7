use dptree::DependencyMap;

#[test]
fn insert_get_replace_remove() {
    let mut m: DependencyMap<&'static str> = DependencyMap::new();
    assert_eq!(m.len(), 0);
    assert_eq!(m.insert(1, "a"), None);
    assert_eq!(m.insert(2, "b"), None);
    assert_eq!(m.len(), 2);
    assert_eq!(m.get(1), Some(&"a"));
    // One value per key: inserting again replaces and hands back the old one.
    assert_eq!(m.insert(1, "c"), Some("a"));
    assert_eq!(m.len(), 2);
    assert_eq!(m.get(1), Some(&"c"));
    assert!(m.contains(2));
    assert_eq!(m.remove(2), Some("b"));
    assert!(!m.contains(2));
    assert_eq!(m.remove(2), None);
    assert_eq!(m.get(2), None);
    assert_eq!(m.len(), 1);
}

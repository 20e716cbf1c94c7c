use nux::properties::Properties;

fn entries(p: &Properties) -> Vec<(String, String)> {
    (0..p.len()).map(|i| {
        let (k, v) = p.entry(i);
        (k.clone(), v.clone())
    }).collect()
}

#[test]
fn insert_adds_new_keys_in_order() {
    let mut p = Properties::new();
    assert_eq!(p.len(), 0);
    p.insert("compression".to_string(), "lz4".to_string());
    p.insert("atime".to_string(), "off".to_string());
    assert_eq!(
        entries(&p),
        vec![
            ("compression".to_string(), "lz4".to_string()),
            ("atime".to_string(), "off".to_string())
        ]
    );
}

#[test]
fn insert_of_existing_key_replaces_value_in_place() {
    let mut p = Properties::new();
    p.insert("compression".to_string(), "lz4".to_string());
    p.insert("atime".to_string(), "off".to_string());
    p.insert("compression".to_string(), "zstd".to_string());
    assert_eq!(p.len(), 2);
    assert_eq!(
        entries(&p),
        vec![
            ("compression".to_string(), "zstd".to_string()),
            ("atime".to_string(), "off".to_string())
        ]
    );
}

#[test]
fn duplicate_keeps_entries() {
    let mut p = Properties::new();
    p.insert("a".to_string(), "1".to_string());
    p.insert("b".to_string(), "2".to_string());
    let q = p.duplicate();
    assert_eq!(entries(&q), entries(&p));
}

use pve_sdk_rs::params::PveParams;

#[test]
fn pve_params_handles_bool() {
    let mut params = PveParams::new();
    params.insert_bool("full", true);
    params.insert_bool("onboot", false);

    assert_eq!(params.get("full"), Some("1"));
    assert_eq!(params.get("onboot"), Some("0"));
}

#[test]
fn insert_overwrites() {
    let mut params = PveParams::new();
    params.insert("name", "first");
    params.insert("other", "x");
    params.insert("name", "second");
    assert_eq!(params.get("name"), Some("second"));
    assert_eq!(params.get("other"), Some("x"));
    let pairs = params.into_inner();
    assert_eq!(
        pairs,
        vec![
            ("name".to_string(), "second".to_string()),
            ("other".to_string(), "x".to_string()),
        ]
    );
}

#[test]
fn insert_bool_writes_one_or_zero() {
    for value in [true, false] {
        let params = PveParams::new().with_bool("flag", value);
        let text = params.get("flag").expect("flag");
        assert_eq!(text, if value { "1" } else { "0" });
        assert_ne!(text, "true");
        assert_ne!(text, "false");
    }
    let mut params = PveParams::new();
    params.insert_bool("flag", true);
    params.insert_bool("flag", false);
    assert_eq!(params.get("flag"), Some("0"));
    assert_eq!(params.into_inner().len(), 1);
}

#[test]
fn insert_opt_skips_none() {
    let mut params = PveParams::new();
    params.insert_opt("a", None);
    assert!(params.is_empty());
    assert_eq!(params.get("a"), None);
    params.insert_opt("a", Some("1"));
    params.insert_opt("a", None);
    assert_eq!(params.get("a"), Some("1"));
    params.insert_opt("a", Some(""));
    assert_eq!(params.get("a"), Some(""));
    params.insert_opt_u32("n", None);
    params.insert_opt_u64("m", Some(u64::MAX));
    params.insert_opt_bool("b", Some(true));
    params.insert_number("k", 42);
    assert_eq!(params.get("n"), None);
    assert_eq!(params.get("m"), Some("18446744073709551615"));
    assert_eq!(params.get("b"), Some("1"));
    assert_eq!(params.get("k"), Some("42"));
}

#[test]
fn extend_lets_the_other_map_win() {
    let mut params = PveParams::new().with("a", "1").with("b", "2");
    let other = PveParams::new().with("b", "3").with("c", "4");
    params.extend(&other);
    assert_eq!(params.get("a"), Some("1"));
    assert_eq!(params.get("b"), Some("3"));
    assert_eq!(params.get("c"), Some("4"));
    assert_eq!(other.get("b"), Some("3"));
    assert_eq!(params.into_inner().len(), 3);
}

#[test]
fn remove_returns_the_value() {
    let mut params = PveParams::new().with("a", "1").with("b", "2");
    assert_eq!(params.remove("a"), Some("1".to_string()));
    assert_eq!(params.remove("a"), None);
    assert_eq!(params.get("a"), None);
    assert_eq!(params.get("b"), Some("2"));
    assert!(!params.is_empty());
    assert_eq!(params.remove("b"), Some("2".to_string()));
    assert!(params.is_empty());
}

#[test]
fn keys_are_compared_exactly() {
    let params = PveParams::new().with("Key", "1").with("key", "2").with("key ", "3");
    assert_eq!(params.get("Key"), Some("1"));
    assert_eq!(params.get("key"), Some("2"));
    assert_eq!(params.get("key "), Some("3"));
    assert_eq!(params.get("KEY"), None);
    assert_eq!(params.get(""), None);
}

#[test]
fn clone_and_default() {
    let params = PveParams::new().with("a", "1");
    let copy = params.clone();
    assert_eq!(copy.get("a"), Some("1"));
    assert!(PveParams::default().is_empty());
    assert!(PveParams::new().is_empty());
}

#[test]
fn pairs_come_out_in_ascending_order_of_their_keys() {
    let keys = ["vmid", "name", "", "Name", "net0", "net", "é", "z", "日本", "a b", "a"];
    let mut params = PveParams::new();
    for key in keys {
        params.insert(key, "first");
    }
    for key in keys.iter().rev() {
        params.insert(key, key);
    }
    let pairs = params.into_inner();
    let mut expected: Vec<(String, String)> = keys
        .iter()
        .map(|k| (k.to_string(), k.to_string()))
        .collect();
    expected.sort();
    assert_eq!(pairs, expected);
}

#[test]
fn from_pairs_lets_the_last_pair_win() {
    let pairs = vec![
        ("b".to_string(), "1".to_string()),
        ("a".to_string(), "2".to_string()),
        ("b".to_string(), "3".to_string()),
    ];
    let params = PveParams::from_pairs(&pairs);
    assert_eq!(params.get("a"), Some("2"));
    assert_eq!(params.get("b"), Some("3"));
    assert_eq!(
        params.into_inner(),
        vec![
            ("a".to_string(), "2".to_string()),
            ("b".to_string(), "3".to_string()),
        ]
    );
    assert!(PveParams::from_pairs(&Vec::new()).is_empty());
}

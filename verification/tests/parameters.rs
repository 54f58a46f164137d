use rustfm_scrobble::params::{Param, Params};

fn keys(params: &Params) -> Vec<String> {
    params.entries().iter().map(|entry| entry.key.clone()).collect()
}

#[test]
fn new_parameter_set_is_empty() {
    let params = Params::new();
    assert!(params.is_empty());
    assert_eq!(params.len(), 0);
    assert!(params.entries().is_empty());
    assert_eq!(params.get("a"), None);
    assert!(!params.contains_key("a"));
}

#[test]
fn insert_keeps_keys_sorted_and_unique() {
    let mut params = Params::new();
    params.insert("track".to_string(), "A".to_string());
    params.insert("artist".to_string(), "B".to_string());
    params.insert("timestamp".to_string(), "100".to_string());
    params.insert("artist".to_string(), "C".to_string());
    assert_eq!(params.len(), 3);
    assert!(!params.is_empty());
    assert_eq!(keys(&params), vec!["artist", "timestamp", "track"]);
    assert_eq!(params.get("artist"), Some(&"C".to_string()));
    assert_eq!(params.get("track"), Some(&"A".to_string()));
    assert_eq!(params.get("timestamp"), Some(&"100".to_string()));
    assert_eq!(params.get("album"), None);
    assert!(params.contains_key("track"));
    assert!(!params.contains_key("trac"));
    assert!(!params.contains_key("tracks"));
}

#[test]
fn entries_hold_names_and_values() {
    let mut params = Params::new();
    params.insert("b".to_string(), "2".to_string());
    params.insert("a".to_string(), "1".to_string());
    assert_eq!(
        params.entries(),
        &vec![
            Param { key: "a".to_string(), value: "1".to_string() },
            Param { key: "b".to_string(), value: "2".to_string() },
        ]
    );
}

#[test]
fn remove_takes_one_key_out() {
    let mut params = Params::new();
    params.insert("a".to_string(), "1".to_string());
    params.insert("b".to_string(), "2".to_string());
    params.insert("c".to_string(), "3".to_string());
    params.remove("b");
    assert_eq!(keys(&params), vec!["a", "c"]);
    params.remove("b");
    params.remove("zzz");
    assert_eq!(keys(&params), vec!["a", "c"]);
    params.remove("a");
    params.remove("c");
    assert!(params.is_empty());
}

#[test]
fn extend_lets_the_other_set_win() {
    let mut base = Params::new();
    base.insert("api_key".to_string(), "k1".to_string());
    base.insert("sk".to_string(), "SK".to_string());
    let mut caller = Params::new();
    caller.insert("track".to_string(), "A".to_string());
    caller.insert("sk".to_string(), "other".to_string());
    base.extend(&caller);
    assert_eq!(keys(&base), vec!["api_key", "sk", "track"]);
    assert_eq!(base.get("sk"), Some(&"other".to_string()));
    assert_eq!(base.get("api_key"), Some(&"k1".to_string()));
    assert_eq!(base.get("track"), Some(&"A".to_string()));
    assert_eq!(caller.len(), 2);
}

#[test]
fn extend_with_empty_set_changes_nothing() {
    let mut base = Params::new();
    base.insert("a".to_string(), "1".to_string());
    let copy = base.clone();
    base.extend(&Params::new());
    assert_eq!(base, copy);
}

#[test]
fn clone_is_equal_and_independent() {
    let mut params = Params::new();
    params.insert("a".to_string(), "1".to_string());
    let mut copy = params.clone();
    assert_eq!(copy, params);
    copy.insert("b".to_string(), "2".to_string());
    assert_eq!(params.len(), 1);
    assert_eq!(copy.len(), 2);
}

#[test]
fn empty_key_and_value_are_parameters() {
    let mut params = Params::new();
    params.insert("a".to_string(), String::new());
    params.insert(String::new(), "v".to_string());
    assert_eq!(keys(&params), vec!["", "a"]);
    assert_eq!(params.get(""), Some(&"v".to_string()));
    assert_eq!(params.get("a"), Some(&String::new()));
}

use plist_plus2::{Boolean, Dictionary, Integer, PString, Value};

const ARRAY: [u64; 4] = [0, 1, 2, 3];
const KEYS: [&str; 4] = ["First", "Second", "Third", "Fourth"];

fn int_dict(pairs: &[(&str, u64)]) -> Dictionary {
    let mut d = Dictionary::new();
    for (k, v) in pairs {
        d.insert(k, Integer::new_unsigned(*v).into());
    }
    d
}

#[test]
fn dict_test() {
    let b = Boolean::new(false);
    let mut p = Dictionary::new();
    p.insert("b", b.into());
    let b = p.get("b").unwrap();
    assert_eq!(b.as_boolean().unwrap().as_bool(), false);
}

#[test]
fn dict_to_vec() {
    let mut plist = Dictionary::new();
    for (key, value) in KEYS.into_iter().zip(ARRAY) {
        plist.insert(key, Integer::new_unsigned(value).into());
    }

    let vec = plist.to_vec();
    let mut iter = vec.into_iter();

    for (key, value) in KEYS.into_iter().zip(ARRAY) {
        let (plist_key, plist_value) = iter.next().unwrap();
        assert_eq!(key, plist_key);
        assert_eq!(value, plist_value.as_integer().unwrap().as_unsinged());
    }
}

#[test]
fn dict_iter() {
    let mut plist = Dictionary::new();
    for (key, value) in KEYS.into_iter().zip(ARRAY) {
        plist.insert(key, Integer::new_unsigned(value).into());
    }
    println!("{plist:?}");

    // Walking the dictionary and dropping every view leaves the entries in place
    let mut iter = plist.iter();
    while let Some(item) = iter.next() {
        std::mem::drop(item);
    }

    let mut iter = plist.iter();
    for (key, value) in KEYS.into_iter().zip(ARRAY) {
        let (i_key, i_value) = iter.next().unwrap();
        assert_eq!(key, i_key);
        assert_eq!(value, i_value.as_integer().unwrap().as_unsinged());
    }
}

#[test]
fn dict_iter_mut() {
    let mut plist = Dictionary::new();
    for key in KEYS {
        plist.insert(key, PString::new("something").into());
    }

    let mut mut_iter = plist.iter_mut();
    for x in ARRAY {
        mut_iter
            .next()
            .unwrap()
            .1
            .replace_with(&Integer::new_unsigned(x).into());
    }
    std::mem::drop(mut_iter);

    let mut iter = plist.iter();
    for (key, value) in KEYS.into_iter().zip(ARRAY) {
        let (i_key, i_value) = iter.next().unwrap();
        assert_eq!(key, i_key);
        assert_eq!(value, i_value.as_integer().unwrap().as_unsinged());
    }
}

#[test]
fn dictionary_equality_is_unordered() {
    assert!(int_dict(&[("a", 1), ("b", 2)]) == int_dict(&[("b", 2), ("a", 1)]));
    assert!(int_dict(&[("a", 1)]) != int_dict(&[("a", 1), ("b", 2)]));
    assert!(int_dict(&[("a", 1)]) != int_dict(&[("a", 2)]));
    assert!(int_dict(&[("a", 1)]) != int_dict(&[("b", 1)]));
    assert!(Dictionary::new() == Dictionary::new());
}

#[test]
fn insert_overwrites_in_place() {
    let mut d = int_dict(&[("a", 1), ("b", 2), ("c", 3)]);
    d.insert("b", PString::new("two").into());
    assert_eq!(d.len(), 3);
    let pairs = d.to_vec();
    assert_eq!(pairs[1].0, "b");
    assert_eq!(pairs[1].1.as_string().unwrap().as_str(), "two");
    assert_eq!(pairs[2].0, "c");
}

#[test]
fn remove_absent_key_is_noop() {
    let mut d = int_dict(&[("a", 1), ("b", 2)]);
    d.remove("zzz");
    assert!(d == int_dict(&[("a", 1), ("b", 2)]));
    d.remove("a");
    assert!(d == int_dict(&[("b", 2)]));
    assert!(d.get("a").is_none());
    assert_eq!(d.len(), 1);
}

#[test]
fn get_missing_key_is_none() {
    let mut d = int_dict(&[("a", 1)]);
    assert!(d.get("b").is_none());
    assert!(d.get_mut("b").is_none());
    assert!(Dictionary::new().is_empty());
    assert!(!d.is_empty());
}

#[test]
fn get_mut_writes_through() {
    let mut d = int_dict(&[("a", 1), ("b", 2)]);
    d.get_mut("b").unwrap().as_integer_mut().unwrap().set_unsigned(20);
    assert!(d == int_dict(&[("a", 1), ("b", 20)]));
}

#[test]
fn merge_overwrites_and_keeps_source() {
    let mut target = int_dict(&[("a", 1), ("b", 2)]);
    let source = int_dict(&[("b", 20), ("c", 30)]);
    target.merge(&source);
    assert!(target == int_dict(&[("a", 1), ("b", 20), ("c", 30)]));
    assert!(source == int_dict(&[("b", 20), ("c", 30)]));
    let keys: Vec<String> = target.to_vec().into_iter().map(|(k, _)| k).collect();
    assert_eq!(keys, vec!["a", "b", "c"]);
}

#[test]
fn iter_mut_hands_out_keys() {
    let mut d = int_dict(&[("x", 1), ("y", 2)]);
    let mut it = d.iter_mut();
    let (k, _) = it.next().unwrap();
    assert_eq!(k.get(), "x");
    let (k, _) = it.next().unwrap();
    assert_eq!(k.get(), "y");
    assert!(it.next().is_none());
}

#[test]
fn nested_containers_compare_deeply() {
    let mut a = Dictionary::new();
    a.insert("inner", int_dict(&[("k", 1)]).into());
    let mut b = Dictionary::new();
    b.insert("inner", int_dict(&[("k", 1)]).into());
    assert!(a == b);
    b.get_mut("inner").unwrap().as_dictionary_mut().unwrap().insert("k", Integer::new_unsigned(2).into());
    assert!(a != b);
    let c: Value = a.clone().into();
    assert!(c == Value::Dictionary(a));
}

#[test]
fn from_pairs_later_pair_wins() {
    let d = Dictionary::from_pairs(vec![
        ("a".to_string(), Integer::new_unsigned(1).into()),
        ("b".to_string(), Integer::new_unsigned(2).into()),
        ("a".to_string(), Integer::new_unsigned(3).into()),
    ]);
    assert_eq!(d.len(), 2);
    assert!(d == int_dict(&[("a", 3), ("b", 2)]));
    let keys: Vec<String> = d.to_vec().into_iter().map(|(k, _)| k).collect();
    assert_eq!(keys, vec!["a", "b"]);
    assert!(Dictionary::default().is_empty());
}

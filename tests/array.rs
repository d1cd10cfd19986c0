use plist_plus2::{Array, Boolean, Integer, PString, Value};

const ARRAY: [u64; 4] = [0, 1, 2, 3];

fn int_array(values: &[u64]) -> Array {
    let mut array = Array::new();
    for x in values {
        array.append(Value::Integer(Integer::new_unsigned(*x)));
    }
    array
}

#[test]
fn array_append() {
    let boolean = Boolean::new(true);
    let mut array = Array::new();
    array.append(Value::Boolean(boolean));
    let result = array.get(0).unwrap().as_boolean().unwrap().as_bool();
    assert!(result);
}

#[test]
fn array_get_item() {
    // Create a new array with 3 items
    let mut arr = Array::new();
    arr.append(PString::new("1").into());
    arr.append(PString::new("2").into());
    arr.append(PString::new("3").into());

    // Get items and immediately drop them
    std::mem::drop(arr.get(0).unwrap());
    std::mem::drop(arr.get(1).unwrap());
    std::mem::drop(arr.get(2).unwrap());

    // The items are still there: a view never frees what it looks at
    assert_eq!("1", arr.get(0).unwrap().as_string().unwrap().as_str());
    assert_eq!("2", arr.get(1).unwrap().as_string().unwrap().as_str());
    assert_eq!("3", arr.get(2).unwrap().as_string().unwrap().as_str());
}

#[test]
fn array_to_vec() {
    let plist = int_array(&ARRAY);

    let mut numbers = Vec::with_capacity(ARRAY.len());
    for value in plist.to_vec() {
        numbers.push(value);
    }

    let mut iter = numbers.iter();
    for x in ARRAY {
        assert_eq!(x, iter.next().unwrap().as_integer().unwrap().as_unsinged())
    }
}

#[test]
fn array_iter() {
    let plist = int_array(&ARRAY);

    // Walking the array and dropping every view leaves the elements in place
    let mut iter = plist.iter();
    while let Some(item) = iter.next() {
        std::mem::drop(item);
    }

    let mut iter = plist.iter();
    for x in ARRAY {
        assert_eq!(x, iter.next().unwrap().as_integer().unwrap().as_unsinged())
    }
}

#[test]
fn array_iter_mut() {
    let mut plist = int_array(&[9, 9, 9, 9]);
    println!("{plist:?}");

    // Set array items to [0, 1, 2, 3] with a mutable iter
    let mut mut_iter = plist.iter_mut();
    for x in ARRAY {
        mut_iter
            .next()
            .unwrap()
            .as_integer_mut()
            .unwrap()
            .set_unsigned(x);
    }
    std::mem::drop(mut_iter);

    let mut iter = plist.iter();
    for x in ARRAY {
        assert_eq!(x, iter.next().unwrap().as_integer().unwrap().as_unsinged())
    }
}

#[test]
fn replace_with() {
    let mut a: Value = Boolean::new(true).into();
    let b: Value = PString::new("str").into();
    a.replace_with(&b);
    assert_eq!(a, b);
    std::mem::drop(b);
    assert_eq!(a.as_string().unwrap().as_str(), "str");
}

#[test]
fn array_replace_with() {
    let mut a = int_array(&[0]);
    let b: Value = PString::new("world").into();
    a.get_mut(0).unwrap().replace_with(&b);
    assert_eq!(*a.get(0).unwrap(), b);
    std::mem::drop(b);
    assert_eq!(a.get(0).unwrap().as_string().unwrap().as_str(), "world");
}

#[test]
fn replacing_a_leaf_leaves_its_neighbours() {
    let mut a = Array::new();
    a.append(Integer::new_unsigned(7).into());
    a.append(Boolean::new(true).into());
    a.append(PString::new("tail").into());
    let world: Value = PString::new("world").into();
    a.get_mut(1).unwrap().replace_with(&world);
    assert_eq!(a.len(), 3);
    assert_eq!(a.get(0).unwrap().as_integer().unwrap().as_unsinged(), 7);
    assert_eq!(a.get(1).unwrap().as_string().unwrap().as_str(), "world");
    assert_eq!(a.get(2).unwrap().as_string().unwrap().as_str(), "tail");
}

#[test]
fn array_equality_is_ordered() {
    assert!(int_array(&[1, 2, 3]) == int_array(&[1, 2, 3]));
    assert!(int_array(&[1, 2, 3]) != int_array(&[1, 3, 2]));
    assert!(int_array(&[1, 2]) != int_array(&[1, 2, 3]));
    assert!(Array::new() == Array::new());
}

#[test]
fn get_out_of_bounds_is_none() {
    let mut a = int_array(&[5, 6]);
    assert!(a.get(2).is_none());
    assert!(a.get_mut(2).is_none());
    assert!(Array::new().get(0).is_none());
    assert!(Array::new().is_empty());
    assert!(!a.is_empty());
}

#[test]
fn set_insert_remove() {
    let mut a = int_array(&[1, 2, 3]);
    a.set(Integer::new_unsigned(20).into(), 1);
    assert!(a == int_array(&[1, 20, 3]));
    a.insert(Integer::new_unsigned(10).into(), 0);
    assert!(a == int_array(&[10, 1, 20, 3]));
    a.remove(2);
    assert!(a == int_array(&[10, 1, 3]));
    assert_eq!(a.len(), 3);
}

#[test]
fn iterator_yields_all_then_exhausts() {
    let a = int_array(&[4, 3, 2, 1]);
    let mut it = a.iter();
    let mut seen = Vec::new();
    while let Some(v) = it.next() {
        seen.push(v.as_integer().unwrap().as_unsinged());
    }
    assert_eq!(seen, vec![4, 3, 2, 1]);
    assert!(it.next().is_none());
    assert!(it.next().is_none());
}

#[test]
fn mutable_iterator_rewrites_every_element() {
    let mut a = int_array(&[0, 0, 0, 0]);
    let mut it = a.iter_mut();
    let mut n: u64 = 10;
    while let Some(v) = it.next() {
        v.as_integer_mut().unwrap().set_unsigned(n);
        n += 1;
    }
    assert!(it.next().is_none());
    assert!(a == int_array(&[10, 11, 12, 13]));
}

#[test]
fn appended_value_is_owned_once() {
    let mut inner = Array::new();
    inner.append(PString::new("leaf").into());
    let mut outer = Array::new();
    let inner_value: Value = inner.into();
    outer.append(inner_value);
    let copy = outer.clone();
    std::mem::drop(outer);
    let nested = copy.get(0).unwrap().as_array().unwrap();
    assert_eq!(nested.get(0).unwrap().as_string().unwrap().as_str(), "leaf");
}

#[test]
fn clone_is_independent() {
    let a = int_array(&[1, 2]);
    let mut b = a.clone();
    b.get_mut(0).unwrap().as_integer_mut().unwrap().set_unsigned(9);
    assert!(a == int_array(&[1, 2]));
    assert!(b == int_array(&[9, 2]));
}

#[test]
fn from_values_keeps_order() {
    let a = Array::from_values(vec![
        Integer::new_unsigned(3).into(),
        PString::new("x").into(),
    ]);
    assert_eq!(a.len(), 2);
    assert_eq!(a.get(0).unwrap().as_integer().unwrap().as_unsinged(), 3);
    assert_eq!(a.get(1).unwrap().as_string().unwrap().as_str(), "x");
    assert!(Array::default() == Array::new());
}

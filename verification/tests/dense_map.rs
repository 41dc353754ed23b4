use mesh_pipeline::dense_map::DenseMap;

#[test]
fn a_dense_map_holds_what_was_put_into_it() {
    let mut map: DenseMap<&'static str> = DenseMap::new();
    assert_eq!(map.len(), 0);
    assert!(!map.contains_key(1));
    assert_eq!(map.get(1), None);
    assert_eq!(map.insert(1, "one"), None);
    assert_eq!(map.insert(u64::MAX, "most"), None);
    assert_eq!(map.insert(0, "none"), None);
    assert_eq!(map.len(), 3);
    assert!(map.contains_key(1));
    assert!(map.contains_key(u64::MAX));
    assert!(!map.contains_key(2));
    assert_eq!(map.get(1), Some(&"one"));
    assert_eq!(map.get(u64::MAX), Some(&"most"));
    assert_eq!(map.get(0), Some(&"none"));
    assert_eq!(map.get(2), None);
}

#[test]
fn a_key_that_is_put_in_again_keeps_its_place() {
    let mut map: DenseMap<u32> = DenseMap::new();
    map.insert(5, 50);
    map.insert(6, 60);
    assert_eq!(map.insert(5, 51), Some(50));
    assert_eq!(map.len(), 2);
    assert_eq!(map.get(5), Some(&51));
    assert_eq!(map.key_at(0), 5);
    assert_eq!(map.key_at(1), 6);
    assert_eq!(map.value_at(0), &51);
    assert_eq!(map.value_at(1), &60);
}

#[test]
fn the_last_key_takes_the_place_of_one_that_leaves() {
    let mut map: DenseMap<u32> = DenseMap::new();
    for key in 1..=4 {
        map.insert(key, key as u32 * 10);
    }
    assert_eq!(map.remove(2), Some(20));
    assert_eq!(map.remove(2), None);
    assert_eq!(map.remove(9), None);
    assert_eq!(map.len(), 3);
    assert_eq!((map.key_at(0), map.key_at(1), map.key_at(2)), (1, 4, 3));
    assert_eq!(
        (map.value_at(0), map.value_at(1), map.value_at(2)),
        (&10, &40, &30)
    );
    assert_eq!(map.get(4), Some(&40));
    assert_eq!(map.get(3), Some(&30));
    assert_eq!(map.get(2), None);
    assert_eq!(map.remove(3), Some(30));
    assert_eq!(map.remove(1), Some(10));
    assert_eq!(map.len(), 1);
    assert_eq!(map.key_at(0), 4);
    assert_eq!(map.remove(4), Some(40));
    assert_eq!(map.len(), 0);
    assert_eq!(map.insert(2, 21), None);
    assert_eq!(map.get(2), Some(&21));
}

#[test]
fn a_dense_map_agrees_with_a_plain_list() {
    let mut map: DenseMap<u64> = DenseMap::new();
    let mut list: Vec<(u64, u64)> = Vec::new();
    for step in 0..200u64 {
        let key = (step * 37) % 23;
        if step % 3 == 0 {
            let expected = list.iter().position(|pair| pair.0 == key).map(|at| list.remove(at).1);
            assert_eq!(map.remove(key), expected);
        } else {
            let expected = match list.iter_mut().find(|pair| pair.0 == key) {
                Some(pair) => Some(std::mem::replace(&mut pair.1, step)),
                None => {
                    list.push((key, step));
                    None
                }
            };
            assert_eq!(map.insert(key, step), expected);
        }
        assert_eq!(map.len(), list.len());
        for pair in &list {
            assert_eq!(map.get(pair.0), Some(&pair.1));
        }
        for position in 0..map.len() {
            assert_eq!(map.get(map.key_at(position)), Some(map.value_at(position)));
        }
    }
}

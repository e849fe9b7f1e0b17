use winit_tray::id_map::IdMap;

#[test]
fn codes_start_at_one_and_grow() {
    let mut map: IdMap<&'static str> = IdMap::new();
    assert_eq!(map.insert("open"), 1);
    assert_eq!(map.insert("exit"), 2);
    assert_eq!(map.insert("open"), 3);
    assert_eq!(map.len(), 3);
}

#[test]
fn every_inserted_item_is_found_again() {
    let items = vec![10u32, 20, 30, 40];
    let mut map: IdMap<u32> = IdMap::new();
    let mut codes = Vec::new();
    for item in items.iter() {
        codes.push(map.insert(*item));
    }
    for (item, code) in items.iter().zip(codes.iter()) {
        assert_eq!(map.get(*code), Some(*item));
    }
    assert_eq!(map.get(0), None);
    assert_eq!(map.get(items.len() as u32 + 1), None);
}

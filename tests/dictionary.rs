use tarantool_rust_api::dict::{
    add_space_dict_entry, add_space_index_dict_entry, clear_dictionaries, search_index_id,
    search_space_id, IndexDictionary, SpaceDictionary,
};

#[test]
fn space_entry_is_found_after_adding() {
    let mut spaces = SpaceDictionary::new();
    assert_eq!(search_space_id(&spaces, "test_space"), None);
    add_space_dict_entry(&mut spaces, 512, "test_space".to_string());
    assert_eq!(search_space_id(&spaces, "test_space"), Some(512));
    assert_eq!(search_space_id(&spaces, "other"), None);
}

#[test]
fn space_entry_is_overwritten_by_later_add() {
    let mut spaces = SpaceDictionary::new();
    add_space_dict_entry(&mut spaces, 512, "s".to_string());
    add_space_dict_entry(&mut spaces, 513, "s".to_string());
    assert_eq!(search_space_id(&spaces, "s"), Some(513));
}

#[test]
fn index_entries_are_kept_per_space() {
    let mut indexes = IndexDictionary::new();
    add_space_index_dict_entry(&mut indexes, 512, 0, "primary".to_string());
    add_space_index_dict_entry(&mut indexes, 512, 1, "secondary".to_string());
    add_space_index_dict_entry(&mut indexes, 513, 7, "primary".to_string());
    assert_eq!(search_index_id(&indexes, 512, "primary"), Some(0));
    assert_eq!(search_index_id(&indexes, 512, "secondary"), Some(1));
    assert_eq!(search_index_id(&indexes, 513, "primary"), Some(7));
    assert_eq!(search_index_id(&indexes, 513, "secondary"), None);
    assert_eq!(search_index_id(&indexes, 514, "primary"), None);
}

#[test]
fn clear_forgets_everything() {
    let mut spaces = SpaceDictionary::new();
    let mut indexes = IndexDictionary::new();
    add_space_dict_entry(&mut spaces, 512, "s".to_string());
    add_space_index_dict_entry(&mut indexes, 512, 0, "primary".to_string());
    clear_dictionaries(&mut spaces, &mut indexes);
    assert_eq!(search_space_id(&spaces, "s"), None);
    assert_eq!(search_index_id(&indexes, 512, "primary"), None);
}

#[test]
fn disjoint_writes_in_either_order_agree() {
    let names: Vec<String> = (0..50).map(|i| format!("space_{}", i)).collect();
    let mut forward = SpaceDictionary::new();
    let mut backward = SpaceDictionary::new();
    for (i, n) in names.iter().enumerate() {
        add_space_dict_entry(&mut forward, i as u32, n.clone());
    }
    for (i, n) in names.iter().enumerate().rev() {
        add_space_dict_entry(&mut backward, i as u32, n.clone());
    }
    for (i, n) in names.iter().enumerate() {
        assert_eq!(search_space_id(&forward, n), Some(i as u32));
        assert_eq!(search_space_id(&backward, n), Some(i as u32));
    }
}

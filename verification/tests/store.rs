use resource_store::world::resource::BorrowConflict;
use resource_store::world::resource::ResourceMap;

#[test]
fn resources() {
    let mut res_map = ResourceMap::default();
    res_map.insert(255_u8);
    {
        assert!(res_map.has_value::<u8>());
        let mut u = res_map.fetch_mut::<u8>().unwrap().unwrap();
        *u -= 100;
        assert_eq!(*u, 255 - 100);
    }
    assert_eq!(Ok(Some(255 - 100)), res_map.remove::<u8>());
}

#[test]
fn insert_then_fetch_reads_the_value() {
    let mut store = ResourceMap::default();
    store.insert(String::from("hello"));
    let handle = store.fetch::<String>().unwrap().unwrap();
    assert_eq!(*handle, "hello");
}

#[test]
fn types_do_not_see_each_other() {
    let mut store = ResourceMap::default();
    store.insert(1_u8);
    assert!(store.fetch::<u16>().unwrap().is_none());
    assert!(store.fetch_mut::<i8>().unwrap().is_none());
    assert!(!store.has_value::<u16>());
    store.insert(2_u16);
    assert_eq!(*store.fetch::<u8>().unwrap().unwrap(), 1);
    assert_eq!(*store.fetch::<u16>().unwrap().unwrap(), 2);
}

#[test]
fn second_insert_replaces_the_first() {
    let mut store = ResourceMap::default();
    store.insert(1_u32);
    store.insert(2_u32);
    assert_eq!(*store.fetch::<u32>().unwrap().unwrap(), 2);
    assert_eq!(store.remove::<u32>(), Ok(Some(2)));
    assert_eq!(store.remove::<u32>(), Ok(None));
}

#[test]
fn exclusive_handle_shuts_others_out() {
    let mut store = ResourceMap::default();
    store.insert(7_u64);
    {
        let _writer = store.fetch_mut::<u64>().unwrap().unwrap();
        assert_eq!(store.fetch::<u64>().err(), Some(BorrowConflict::Shared));
        assert_eq!(store.fetch_mut::<u64>().err(), Some(BorrowConflict::Exclusive));
    }
    assert_eq!(*store.fetch::<u64>().unwrap().unwrap(), 7);
    assert_eq!(*store.fetch_mut::<u64>().unwrap().unwrap(), 7);
}

#[test]
fn shared_handles_live_side_by_side() {
    let mut store = ResourceMap::default();
    store.insert(vec![1_u8, 2, 3]);
    let first = store.fetch::<Vec<u8>>().unwrap().unwrap();
    let second = store.fetch::<Vec<u8>>().unwrap().unwrap();
    assert_eq!(*first, vec![1, 2, 3]);
    assert_eq!(*second, *first);
    assert_eq!(store.fetch_mut::<Vec<u8>>().err(), Some(BorrowConflict::Exclusive));
}

#[test]
fn a_conflict_on_one_type_leaves_the_others_free() {
    let mut store = ResourceMap::default();
    store.insert(1_u8);
    store.insert(2_u16);
    let _writer = store.fetch_mut::<u8>().unwrap().unwrap();
    assert_eq!(*store.fetch_mut::<u16>().unwrap().unwrap(), 2);
}

#[test]
fn remove_hands_the_value_over() {
    let mut store = ResourceMap::default();
    store.insert(String::from("gone"));
    assert_eq!(store.remove::<String>(), Ok(Some(String::from("gone"))));
    assert!(!store.has_value::<String>());
}

#[test]
fn remove_of_an_absent_type_changes_nothing() {
    let mut store = ResourceMap::default();
    store.insert(5_u8);
    assert_eq!(store.remove::<u16>(), Ok(None));
    assert!(store.has_value::<u8>());
    assert_eq!(*store.fetch::<u8>().unwrap().unwrap(), 5);
}

#[test]
fn remove_refuses_while_a_leaked_shared_handle_counts() {
    let mut store = ResourceMap::default();
    store.insert(9_u8);
    store.insert(1_u16);
    std::mem::forget(store.fetch::<u8>().unwrap().unwrap());
    assert_eq!(store.remove::<u8>(), Err(BorrowConflict::Exclusive));
    assert!(store.has_value::<u8>());
    assert_eq!(*store.fetch::<u8>().unwrap().unwrap(), 9);
    assert_eq!(store.remove::<u8>(), Err(BorrowConflict::Exclusive));
    assert_eq!(store.remove::<u16>(), Ok(Some(1)));
}

#[test]
fn remove_refuses_while_a_leaked_exclusive_handle_counts() {
    let mut store = ResourceMap::default();
    store.insert(9_u8);
    std::mem::forget(store.fetch_mut::<u8>().unwrap().unwrap());
    assert_eq!(store.remove::<u8>(), Err(BorrowConflict::Exclusive));
    assert!(store.has_value::<u8>());
    assert_eq!(store.fetch::<u8>().err(), Some(BorrowConflict::Shared));
}

#[test]
fn insert_over_a_leaked_handle_starts_afresh() {
    let mut store = ResourceMap::default();
    store.insert(9_u8);
    std::mem::forget(store.fetch_mut::<u8>().unwrap().unwrap());
    store.insert(10_u8);
    assert_eq!(*store.fetch::<u8>().unwrap().unwrap(), 10);
    assert_eq!(store.remove::<u8>(), Ok(Some(10)));
}

#[test]
fn empty_store_has_nothing() {
    let store = ResourceMap::default();
    assert!(!store.has_value::<u8>());
    assert!(store.fetch::<u8>().unwrap().is_none());
    assert!(store.fetch_mut::<u8>().unwrap().is_none());
}

#[test]
fn each_type_has_a_slot_of_its_own() {
    assert_eq!(ResourceMap::key::<u8>(), ResourceMap::key::<u8>());
    assert_ne!(ResourceMap::key::<u8>(), ResourceMap::key::<u16>());
    assert_ne!(ResourceMap::key::<u8>(), ResourceMap::key::<Box<u8>>());
}

fn shared_between_threads<T: Send + Sync>() {}

#[test]
fn store_and_world_can_be_shared() {
    shared_between_threads::<ResourceMap>();
    shared_between_threads::<resource_store::world::World>();
    shared_between_threads::<resource_store::world::resource::Fetch<'static, u8>>();
    shared_between_threads::<resource_store::world::resource::FetchMut<'static, u8>>();
}

#[test]
fn a_cell_that_counts_a_borrow_goes_back_into_its_slot() {
    let mut store = ResourceMap::default();
    store.insert(1_u16);
    let busy = atomic_refcell::AtomicRefCell::new(5_u8);
    assert_eq!(store.taken(Err(busy)), Err(BorrowConflict::Exclusive));
    assert!(store.has_value::<u8>());
    assert_eq!(*store.fetch::<u8>().unwrap().unwrap(), 5);
    assert_eq!(*store.fetch::<u16>().unwrap().unwrap(), 1);
}

use resource_store::world::resource::erase;
use resource_store::world::resource::Resource;

fn boxed<R: Resource>(value: R) -> Box<dyn Resource> {
    erase(value).item
}

#[test]
fn is_accepts_only_the_same_type() {
    let item = boxed(7_u8);
    assert!(item.is::<u8>());
    assert!(!item.is::<u16>());
    assert!(!item.is::<i8>());
    assert!(!item.is::<Box<u8>>());
}

#[test]
fn downcast_ref_gives_the_value_back() {
    let item = boxed(String::from("abc"));
    assert_eq!(item.downcast_ref::<String>(), Some(&String::from("abc")));
    assert!(item.downcast_ref::<u8>().is_none());
}

#[test]
fn downcast_mut_writes_through() {
    let mut item = boxed(255_u8);
    assert!(item.downcast_mut::<u16>().is_none());
    *item.downcast_mut::<u8>().unwrap() -= 100;
    assert_eq!(item.downcast_ref::<u8>(), Some(&155));
}

#[test]
fn downcast_moves_the_value_out() {
    let item = boxed(vec![1_u32, 2, 3]);
    match item.downcast::<Vec<u32>>() {
        Ok(value) => assert_eq!(*value, vec![1, 2, 3]),
        Err(_) => panic!("a Vec<u32> was stored"),
    }
}

#[test]
fn downcast_hands_a_mismatch_back() {
    let item = boxed(9_u64);
    match item.downcast::<u8>() {
        Ok(_) => panic!("a u64 was stored"),
        Err(same) => assert_eq!(same.downcast_ref::<u64>(), Some(&9)),
    }
}

#[test]
fn erase_keeps_the_value_and_its_type() {
    let erased = erase(7_u32);
    assert!(erased.item.is::<u32>());
    assert!(!erased.item.is::<u64>());
    match erased.item.downcast::<u32>() {
        Ok(value) => assert_eq!(*value, 7),
        Err(_) => panic!("a u32 was erased"),
    }
}

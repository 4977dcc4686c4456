use resource_store::system::FetchError;
use resource_store::system::FetchFailure;
use resource_store::system::System;
use resource_store::system::SystemData;
use resource_store::world::resource::BorrowConflict;
use resource_store::world::resource::Fetch;
use resource_store::world::resource::FetchMut;
use resource_store::world::resource::ResourceMap;
use resource_store::world::World;

struct AddStep {
    step: u32,
    runs: u32,
}

impl<'a> System<'a> for AddStep {
    type SystemData = (Fetch<'a, String>, FetchMut<'a, u32>);

    fn runs(&self, _data: Self::SystemData, after: &Self) -> bool {
        after.runs == self.runs + 1
    }

    fn run(&mut self, data: Self::SystemData) {
        let (label, mut total) = data;
        assert_eq!(*label, "total");
        *total += self.step;
        self.runs += 1;
    }
}

#[test]
fn new_world_is_empty() {
    let world = World::new();
    assert!(!world.resources.has_value::<u8>());
    assert!(!World::default().resources.has_value::<String>());
}

#[test]
fn run_now_hands_the_system_its_handles() {
    let mut world = World::new();
    world.resources.insert(String::from("total"));
    world.resources.insert(40_u32);
    let mut system = AddStep { step: 2, runs: 0 };
    assert_eq!(system.run_now(&world), Ok(()));
    assert_eq!(system.runs, 1);
    assert_eq!(system.run_now(&world), Ok(()));
    assert_eq!(system.runs, 2);
    assert_eq!(world.resources.remove::<u32>(), Ok(Some(44)));
}

#[test]
fn a_system_without_its_resources_is_told_apart() {
    let mut world = World::new();
    world.resources.insert(String::from("total"));
    type Shape<'a> = <AddStep as System<'a>>::SystemData;
    assert_eq!(Shape::missing(&world), Some(ResourceMap::key::<u32>()));
    world.resources.insert(1_u32);
    assert_eq!(Shape::missing(&world), None);
}

#[test]
fn tuple_lacks_what_one_element_lacks() {
    let mut world = World::new();
    world.resources.insert(1_u8);
    assert_eq!(<(Fetch<u8>, FetchMut<u16>)>::missing(&world), Some(ResourceMap::key::<u16>()));
    assert_eq!(<(FetchMut<u16>, Fetch<u8>)>::missing(&world), Some(ResourceMap::key::<u16>()));
    let again = world.resources.fetch_mut::<u8>();
    assert!(matches!(again, Ok(Some(_))));
}

#[test]
fn tuple_reports_the_first_missing_element() {
    let world = World::new();
    assert_eq!(
        <(Fetch<u8>, Fetch<u16>, Fetch<u32>)>::missing(&world),
        Some(ResourceMap::key::<u8>())
    );
    assert_eq!(
        <(Fetch<u32>, (Fetch<u16>, Fetch<u8>))>::missing(&world),
        Some(ResourceMap::key::<u32>())
    );
    let mut world = World::new();
    world.resources.insert(0_u8);
    assert_eq!(
        <(Fetch<u8>, Fetch<u16>, Fetch<u32>)>::missing(&world),
        Some(ResourceMap::key::<u16>())
    );
}

#[test]
fn single_handle_reports_its_own_slot() {
    let mut world = World::new();
    assert_eq!(<Fetch<u8>>::missing(&world), Some(ResourceMap::key::<u8>()));
    assert_eq!(<FetchMut<u8>>::missing(&world), Some(ResourceMap::key::<u8>()));
    world.resources.insert(1_u8);
    assert_eq!(<Fetch<u8>>::missing(&world), None);
    assert_eq!(<FetchMut<u8>>::missing(&world), None);
    assert_eq!(<FetchMut<u16>>::missing(&world), Some(ResourceMap::key::<u16>()));
}

#[test]
fn single_fetch_reports_a_conflict() {
    let mut world = World::new();
    world.resources.insert(3_u8);
    let writer = <FetchMut<u8>>::fetch(&world);
    assert!(writer.is_ok());
    let reader = <Fetch<u8>>::fetch(&world);
    assert_eq!(
        reader.err(),
        Some(FetchError { slot: ResourceMap::key::<u8>(), conflict: BorrowConflict::Shared })
    );
    let second = <FetchMut<u8>>::fetch(&world);
    assert_eq!(
        second.err(),
        Some(FetchError { slot: ResourceMap::key::<u8>(), conflict: BorrowConflict::Exclusive })
    );
    drop(writer);
    assert!(<Fetch<u8>>::fetch(&world).is_ok());
}

#[test]
fn run_now_stops_at_a_conflict() {
    let mut world = World::new();
    world.resources.insert(String::from("total"));
    world.resources.insert(40_u32);
    let mut system = AddStep { step: 2, runs: 0 };
    {
        let _reader = world.resources.fetch::<u32>().unwrap().unwrap();
        assert_eq!(
            system.run_now(&world),
            Err(FetchError {
                slot: ResourceMap::key::<u32>(),
                conflict: BorrowConflict::Exclusive,
            })
        );
        assert_eq!(system.runs, 0);
    }
    assert_eq!(system.run_now(&world), Ok(()));
    assert_eq!(system.runs, 1);
}

#[test]
fn try_fetch_reports_a_missing_resource() {
    let mut world = World::new();
    world.resources.insert(1_u8);
    assert_eq!(
        <Fetch<u16>>::try_fetch(&world).err(),
        Some(FetchFailure::Missing { slot: ResourceMap::key::<u16>() })
    );
    assert_eq!(
        <(Fetch<u8>, FetchMut<u16>)>::try_fetch(&world).err(),
        Some(FetchFailure::Missing { slot: ResourceMap::key::<u16>() })
    );
    assert!(matches!(world.resources.fetch_mut::<u8>(), Ok(Some(_))));
    assert!(<(Fetch<u8>, FetchMut<u8>)>::try_fetch(&World::new()).is_err());
}

#[test]
fn try_fetch_reports_the_first_failure_whichever_it_is() {
    let mut world = World::new();
    world.resources.insert(1_u8);
    let _writer = world.resources.fetch_mut::<u8>().unwrap().unwrap();
    assert_eq!(
        <(Fetch<u8>, Fetch<u16>)>::try_fetch(&world).err(),
        Some(FetchFailure::Conflict {
            slot: ResourceMap::key::<u8>(),
            conflict: BorrowConflict::Shared,
        })
    );
    assert_eq!(
        <(Fetch<u16>, Fetch<u8>)>::try_fetch(&world).err(),
        Some(FetchFailure::Missing { slot: ResourceMap::key::<u16>() })
    );
}

#[test]
fn try_fetch_gives_the_handles() {
    let mut world = World::new();
    world.resources.insert(1_u8);
    world.resources.insert(2_u16);
    let (a, mut b) = <(Fetch<u8>, FetchMut<u16>)>::try_fetch(&world).unwrap();
    *b += u16::from(*a);
    assert_eq!(*b, 3);
}

#[test]
fn try_run_now_does_not_run_without_its_resources() {
    let mut world = World::new();
    world.resources.insert(String::from("total"));
    let mut system = AddStep { step: 2, runs: 0 };
    assert_eq!(
        system.try_run_now(&world),
        Err(FetchFailure::Missing { slot: ResourceMap::key::<u32>() })
    );
    assert_eq!(system.runs, 0);
    world.resources.insert(40_u32);
    assert_eq!(system.try_run_now(&world), Ok(()));
    assert_eq!(system.runs, 1);
    assert_eq!(world.resources.remove::<u32>(), Ok(Some(42)));
}

#[test]
fn failure_says_which_slot_and_why() {
    let missing = FetchFailure::Missing { slot: ResourceMap::key::<u8>() };
    assert_eq!(missing.slot(), ResourceMap::key::<u8>());
    assert_eq!(missing.reason(), "the resource does not exist.");
    let error = FetchError { slot: ResourceMap::key::<u16>(), conflict: BorrowConflict::Shared };
    let refused = FetchFailure::refused(error);
    assert_eq!(
        refused,
        FetchFailure::Conflict { slot: ResourceMap::key::<u16>(), conflict: BorrowConflict::Shared }
    );
    assert_eq!(refused.slot(), ResourceMap::key::<u16>());
    assert_eq!(refused.reason(), "already mutably borrowed");
}

#[test]
fn tuple_that_asks_twice_for_one_type() {
    let mut world = World::new();
    world.resources.insert(3_u8);
    assert!(<(Fetch<u8>, Fetch<u8>)>::fetch(&world).is_ok());
    let clash = <(Fetch<u8>, FetchMut<u8>)>::fetch(&world);
    assert_eq!(
        clash.err(),
        Some(FetchError { slot: ResourceMap::key::<u8>(), conflict: BorrowConflict::Exclusive })
    );
    assert!(<FetchMut<u8>>::fetch(&world).is_ok());
}

#[test]
fn nested_tuples_are_shapes() {
    let mut world = World::new();
    world.resources.insert(1_u8);
    world.resources.insert(2_u16);
    world.resources.insert(3_u32);
    let ((a, b), mut c) = <((Fetch<u8>, Fetch<u16>), FetchMut<u32>)>::fetch(&world).unwrap();
    *c += u32::from(*a) + u32::from(*b);
    assert_eq!(*c, 6);
}

#[test]
fn sixteen_handles_at_once() {
    let mut world = World::new();
    world.resources.insert(1_u8);
    world.resources.insert(2_u16);
    type Shape<'a> = (
        Fetch<'a, u8>,
        Fetch<'a, u16>,
        Fetch<'a, u8>,
        Fetch<'a, u16>,
        Fetch<'a, u8>,
        Fetch<'a, u16>,
        Fetch<'a, u8>,
        Fetch<'a, u16>,
        Fetch<'a, u8>,
        Fetch<'a, u16>,
        Fetch<'a, u8>,
        Fetch<'a, u16>,
        Fetch<'a, u8>,
        Fetch<'a, u16>,
        Fetch<'a, u8>,
        Fetch<'a, u16>,
    );
    let shape = Shape::fetch(&world).unwrap();
    assert_eq!(*shape.0, 1);
    assert_eq!(*shape.15, 2);
}

#[test]
fn error_says_which_slot_and_why() {
    let shared = FetchError { slot: ResourceMap::key::<u16>(), conflict: BorrowConflict::Shared };
    assert_eq!(shared.slot, ResourceMap::key::<u16>());
    assert_eq!(shared.reason(), "already mutably borrowed");
    let exclusive =
        FetchError { slot: ResourceMap::key::<u16>(), conflict: BorrowConflict::Exclusive };
    assert_eq!(exclusive.reason(), "already borrowed");
}

use game_patterns::component::{
    movement_system, render_system, Component, Displacement, Velocity, World, APPEARANCE,
    DISPLACEMENT, ENTITY_COUNT, ONE, THREE, TWO, VELOCITY,
};
use game_patterns::observer::borrowed::{
    Achievements as BridgeAchievements, EntityFallSubject as BorrowingSubject,
    Observer as BorrowedObserver, Physics as BorrowingPhysics, Subject as BorrowingSubjectOps,
};
use game_patterns::observer::{Achievement, Event, Hero};

#[test]
fn new_world_is_empty() {
    let world = World::new();
    assert_eq!(ENTITY_COUNT, 100);
    assert_eq!(world.entity_count, 100);
    assert_eq!(world.masks, vec![0u32; 100]);
    assert_eq!(world.displacements, vec![Displacement { x: 0, y: 0 }; 100]);
    assert_eq!(world.velocitys, vec![Velocity { x: 0, y: 0 }; 100]);
    assert_eq!(world.appearances.len(), 100);
    assert!(world.appearances.iter().all(|appearance| appearance.name.is_empty()));
    assert_eq!(world.create_entity(), Some(0));
    assert!(world.get_with_mask(DISPLACEMENT).is_empty());
    assert_eq!(world.get_with_mask(0).len(), 100);
}

#[test]
fn component_masks() {
    assert_eq!(Component::Empty.mask(), 0);
    assert_eq!(Component::Velocity.mask(), 1 << 1);
    assert_eq!(Component::Displacement.mask(), 1 << 2);
    assert_eq!(Component::Appearance.mask(), 1 << 3);
    assert_eq!((VELOCITY, DISPLACEMENT, APPEARANCE), (2, 4, 8));
    assert_eq!((ONE, TWO, THREE), (1.0f32.to_bits(), 2.0f32.to_bits(), 3.0f32.to_bits()));
}

#[test]
fn entities_take_the_first_free_place() {
    let mut world = World::new();
    let tree = world.create_tree(1.5f32.to_bits(), 2.5f32.to_bits());
    let crate_box = world.create_box(3.0f32.to_bits(), 4.0f32.to_bits());
    let ghost = world.create_ghost(5.0f32.to_bits(), 6.0f32.to_bits());
    assert_eq!((tree, crate_box, ghost), (0, 1, 2));
    assert_eq!(&world.masks[0..4], &[12, 14, 6, 0]);
    assert_eq!(world.appearances[0].name, "Tree");
    assert_eq!(world.appearances[1].name, "Box");
    assert_eq!(world.appearances[2].name, "");
    assert_eq!(f32::from_bits(world.displacements[0].x), 1.5);
    assert_eq!(f32::from_bits(world.displacements[0].y), 2.5);
    assert_eq!(world.velocitys[0], Velocity { x: 0, y: 0 });
    assert_eq!(f32::from_bits(world.velocitys[1].x), 1.0);
    assert_eq!(f32::from_bits(world.velocitys[1].y), 2.0);
    assert_eq!(f32::from_bits(world.velocitys[2].x), 3.0);
    assert_eq!(f32::from_bits(world.velocitys[2].y), 2.0);
    assert_eq!(f32::from_bits(world.displacements[2].x), 5.0);

    assert_eq!(movement_system(&world), vec![1, 2]);
    assert_eq!(render_system(&world), vec![0, 1]);
    assert_eq!(world.get_with_mask(DISPLACEMENT), vec![0, 1, 2]);
    assert_eq!(world.get_with_mask(DISPLACEMENT | APPEARANCE | VELOCITY), vec![1]);

    world.destroy_entity(1);
    assert_eq!(world.masks[1], 0);
    assert_eq!(world.create_entity(), Some(1));
    assert_eq!(movement_system(&world), vec![2]);
    assert_eq!(world.create_ghost(0, 0), 1);
    assert_eq!(world.create_entity(), Some(3));
}

#[test]
fn full_world_has_no_free_place() {
    let mut world = World::new();
    for expected in 0..100 {
        assert_eq!(world.create_tree(0, 0), expected);
    }
    assert_eq!(world.create_entity(), None);
    assert_eq!(render_system(&world).len(), 100);
    world.destroy_entity(99);
    assert_eq!(world.create_entity(), Some(99));
}

#[test]
fn borrowed_observers_answer_with_what_they_unlock() {
    let hero = Hero::new();
    let on_bridge = BridgeAchievements::new();
    let off_bridge = BridgeAchievements { hero_on_bridge: false };
    assert!(on_bridge.hero_on_bridge);
    assert_eq!(on_bridge.on_notify(&hero, Event::EntityFell), Some(Achievement::FellOfTheBridge));
    assert_eq!(off_bridge.on_notify(&hero, Event::EntityFell), None);
    assert_eq!(on_bridge.unlock(Achievement::FellOfTheBridge), Achievement::FellOfTheBridge);

    let mut physics = BorrowingPhysics::new();
    assert!(physics.update_entity(&hero).is_empty());
    physics.fall_event().add_observer(&on_bridge);
    physics.fall_event().add_observer(&off_bridge);
    physics.fall_event().add_observer(&on_bridge);
    assert_eq!(
        physics.update_entity(&hero),
        vec![Achievement::FellOfTheBridge, Achievement::FellOfTheBridge]
    );
    physics.fall_event().remove_observer(&off_bridge);
    assert_eq!(physics.fall_event().observers.len(), 2);
    assert!(physics.fall_event().observers.iter().all(|observer| observer.hero_on_bridge));
}

#[test]
fn removal_looks_places_up_as_they_were() {
    let a = BridgeAchievements { hero_on_bridge: true };
    let b = BridgeAchievements { hero_on_bridge: false };
    // Two equal observers in front: the second removal takes the place after
    // the one that moved down.
    let mut subject: BorrowingSubject<BridgeAchievements> = BorrowingSubject::new();
    subject.add_observer(&a);
    subject.add_observer(&a);
    subject.add_observer(&b);
    subject.remove_observer(&a);
    assert_eq!(subject.observers.len(), 1);
    assert!(subject.observers[0].hero_on_bridge);
    assert_eq!(
        subject.notify(&Hero::new(), Event::EntityFell),
        vec![Achievement::FellOfTheBridge]
    );
}

use game_patterns::command::player::{make_move_unit_cmd as make_move_player_cmd, Player};
use game_patterns::command::{make_move_unit_cmd, Unit};
use game_patterns::double_buffer::{FrameBuffer, Scene};
use game_patterns::flyweight::{Terrain, World};
use game_patterns::game_loop::{game_loop, Frame, NANOS_PER_UPDATE};
use game_patterns::observer::{
    Achievement, AchievementObserver, Achievements, EntityFallSubject, Entity, Event, Hero,
    Observer, Physics, Subject,
};
use game_patterns::prototype::{Monster, Spawner, SpawnerT, Spectre};
use game_patterns::type_object::{Breed, Monster as BreedMonster};
use std::rc::Rc;

#[test]
pub fn command_command() {
    let mut unit = Unit { x: 0, y: 0 };
    let (cmd, undo) = make_move_unit_cmd(&unit, 5, 10);
    cmd.call(&mut unit);
    assert!(unit.x == 5);
    assert!(unit.y == 10);
    undo.call(&mut unit);
    assert!(unit.x == 0);
    assert!(unit.y == 0);
}

#[test]
pub fn mod_command() {
    let mut unit = Player { x: 0, y: 0 };
    let cmd = make_move_player_cmd(5, 10);
    cmd.call(&mut unit);
    assert!(unit.x == 5);
    assert!(unit.y == 10);
}

#[test]
fn undo_goes_back_to_where_the_unit_was() {
    let mut unit = Unit { x: -3, y: 7 };
    let (cmd, undo) = make_move_unit_cmd(&unit, 100, -100);
    unit.x = 55;
    cmd.call(&mut unit);
    assert_eq!(unit, Unit { x: 100, y: -100 });
    undo.call(&mut unit);
    assert_eq!(unit, Unit { x: -3, y: 7 });
}

#[test]
fn double_buffer() {
    let mut scene = Scene::new();
    assert!(scene.frame_buffers[0].data[0] == 0);
    assert!(scene.frame_buffers[1].data[0] == 0);
    scene.draw();
    assert!(scene.frame_buffers[0].data[45] == 255);
    assert!(scene.frame_buffers[1].data[45] == 0);
    scene.draw();
    assert!(scene.frame_buffers[0].data[45] == 255);
    assert!(scene.frame_buffers[1].data[45] == 255);
}

#[test]
fn frame_buffer_draws_blue_green_red_alpha() {
    let mut buffer = FrameBuffer::new();
    assert_eq!(buffer.data, vec![0u8; 400]);
    buffer.draw((2, 3), (10, 20, 30, 40));
    let pos = (2 + 3 * 10) * 4;
    assert_eq!(&buffer.data[pos..pos + 4], &[30, 20, 10, 40]);
    assert_eq!(buffer.data.iter().filter(|byte| **byte != 0).count(), 4);
    buffer.draw((9, 9), (1, 2, 3, 4));
    assert_eq!(&buffer.data[396..400], &[3, 2, 1, 4]);
    buffer.clear();
    assert_eq!(buffer.data, vec![0u8; 400]);
}

#[test]
fn scene_swaps_after_every_frame() {
    let mut scene = Scene::new();
    assert_eq!(scene.current_buffer, 0);
    scene.draw();
    assert_eq!(scene.current_buffer, 1);
    assert_eq!(&scene.frame_buffers[0].data[44..48], &[255, 255, 255, 255]);
    assert_eq!(&scene.frame_buffers[0].data[136..140], &[255, 255, 255, 255]);
    scene.swap();
    assert_eq!(scene.current_buffer, 0);
    scene.frame_buffers[0].draw((0, 0), (9, 9, 9, 9));
    scene.draw();
    assert_eq!(scene.frame_buffers[0].data[0], 0);
    assert_eq!(scene.current_buffer, 1);
}

#[test]
fn swap_takes_any_current_buffer() {
    let mut scene = Scene::new();
    scene.current_buffer = 7;
    scene.swap();
    assert_eq!(scene.current_buffer, 0);
    scene.current_buffer = 4;
    scene.swap();
    assert_eq!(scene.current_buffer, 1);
    assert_eq!(scene.frame_buffers.len(), 2);
}

#[test]
pub fn flyweight() {
    let mut world = World::new();
    world.generate_world();
    let tile = world.get_tile(2, 4);
    println!("{:#?}", tile);
}

#[test]
fn new_world_is_grass_and_shares_it() {
    let world = World::new();
    assert_eq!(world.tiles.len(), 5);
    for x in 0..5 {
        assert_eq!(world.tiles[x].len(), 5);
        for y in 0..5 {
            let tile = world.get_tile(x, y);
            assert!(Rc::ptr_eq(&tile, &world.grass_terrain));
            assert_eq!(tile.get_movement_cost(), 1);
            assert!(!tile.is_water());
        }
    }
    assert_eq!(world.hill_terrain.get_movement_cost(), 2);
    assert!(!world.hill_terrain.is_water());
    assert_eq!(world.river_terrain.get_movement_cost(), 3);
    assert!(world.river_terrain.is_water());
    let terrain = Terrain::new(7, true);
    assert_eq!(terrain.get_movement_cost(), 7);
    assert!(terrain.is_water());
}

#[test]
fn place_and_carve_river() {
    let mut world = World::new();
    world.place(1, 2, 10);
    world.place(3, 4, 9);
    world.place(0, 0, 0);
    for x in 0..5 {
        for y in 0..5 {
            let tile = world.get_tile(x, y);
            if (x, y) == (1, 2) {
                assert!(Rc::ptr_eq(&tile, &world.hill_terrain));
            } else {
                assert!(Rc::ptr_eq(&tile, &world.grass_terrain));
            }
        }
    }
    world.carve_river(1);
    for x in 0..5 {
        for y in 0..5 {
            let tile = world.get_tile(x, y);
            if x == 1 {
                assert!(Rc::ptr_eq(&tile, &world.river_terrain));
            } else {
                assert!(Rc::ptr_eq(&tile, &world.grass_terrain));
            }
        }
    }
}

#[test]
fn generated_world_has_one_river_and_hills_by_chance() {
    let mut rivers = [0usize; 5];
    let mut hills = 0usize;
    let mut grass = 0usize;
    for _ in 0..200 {
        let mut world = World::new();
        world.generate_world();
        let columns: Vec<usize> = (0..5)
            .filter(|x| (0..5).all(|y| world.get_tile(*x, y).is_water()))
            .collect();
        assert_eq!(columns.len(), 1);
        rivers[columns[0]] += 1;
        for x in 0..5 {
            for y in 0..5 {
                let tile = world.get_tile(x, y);
                if x == columns[0] {
                    assert!(Rc::ptr_eq(&tile, &world.river_terrain));
                } else if Rc::ptr_eq(&tile, &world.hill_terrain) {
                    hills += 1;
                } else {
                    assert!(Rc::ptr_eq(&tile, &world.grass_terrain));
                    grass += 1;
                }
            }
        }
    }
    // The draws do vary: the river is not always in the first column, and
    // both hills and grass come up.
    assert!(rivers[0] < 200);
    assert!(hills > 0);
    assert!(grass > hills);
}

#[test]
fn game_loop_makes_whole_steps_and_carries_the_rest() {
    assert_eq!(NANOS_PER_UPDATE, 16_000_000);
    assert_eq!(game_loop(0, 0), Frame { updates: 0, lag: 0 });
    assert_eq!(game_loop(0, 15_999_999), Frame { updates: 0, lag: 15_999_999 });
    assert_eq!(game_loop(15_999_999, 1), Frame { updates: 1, lag: 0 });
    assert_eq!(game_loop(5_000_000, 50_000_000), Frame { updates: 3, lag: 7_000_000 });
}

#[test]
pub fn observer() {
    let hero = Hero::new();
    let achievements = Achievements::new();
    let a_observer = AchievementObserver::new(achievements);
    let mut physics = Physics::new();
    physics.fall_event().add_observer(a_observer);
    physics.update_entity(&hero);
    assert!(physics.fall_event().observers[0].achievements().hero_fallen);
}

struct Rock;

impl Entity for Rock {
    fn hero(&self) -> bool {
        false
    }

    fn is_hero(&self) -> bool {
        false
    }
}

#[test]
fn only_a_hero_unlocks_and_only_once() {
    let mut observer = AchievementObserver::new(Achievements::new());
    assert_eq!(observer.id(), "AchievmentObserver");
    assert!(!observer.is_unlocked(Achievement::FellOfTheBridge));
    observer.on_notify(&Rock, Event::EntityFell);
    assert!(!observer.is_unlocked(Achievement::FellOfTheBridge));
    assert!(!observer.achievements().hero_fallen);
    observer.on_notify(&Hero::new(), Event::EntityFell);
    assert!(observer.is_unlocked(Achievement::FellOfTheBridge));
    assert!(observer.achievements().hero_fallen);
    observer.on_notify(&Hero::new(), Event::EntityFell);
    assert!(observer.is_unlocked(Achievement::FellOfTheBridge));
    let mut achievements = Achievements::new();
    assert!(achievements.unlock(Achievement::FellOfTheBridge));
    assert!(!achievements.unlock(Achievement::FellOfTheBridge));
    assert!(achievements.hero_fallen);
}

#[test]
fn remove_observer_goes_by_id() {
    let mut subject: EntityFallSubject<AchievementObserver> = EntityFallSubject::new();
    subject.add_observer(AchievementObserver::new(Achievements::new()));
    assert_eq!(subject.observers.len(), 1);
    let probe = AchievementObserver::new(Achievements::new());
    subject.remove_observer(&probe);
    assert_eq!(subject.observers.len(), 0);
    subject.remove_observer(&probe);
    assert_eq!(subject.observers.len(), 0);
    subject.notify(&Hero::new(), Event::EntityFell);
    assert_eq!(subject.observers.len(), 0);
}

#[test]
pub fn prototype() {
    let ghost_prototype = Spectre::new(15, 3);
    let ghost_spawner = Spawner::new(ghost_prototype);
    let ghost = ghost_spawner.spawn();
    assert!(ghost.health() == 15);
    assert!(ghost.speed() == 3);

    // Using generic spawner.
    let ghost2 = SpawnerT::spawn::<Spectre>();
    assert!(ghost2.health() == 8);
    assert!(ghost2.speed() == 2);
}

#[test]
fn spawner_keeps_its_prototype() {
    let spawner = Spawner::new(Spectre::new(-4, 9));
    let first = spawner.spawn();
    let second = spawner.spawn();
    assert_eq!((first.health(), first.speed()), (-4, 9));
    assert_eq!((second.health(), second.speed()), (-4, 9));
    let copy = Monster::clone(&first);
    assert_eq!((copy.health(), copy.speed()), (-4, 9));
}

#[test]
fn type_object() {
    let parent = Breed::new(None, 15, "ARGH!".to_owned());
    assert!(parent.get_attack() == "ARGH!");
    assert!(parent.get_health() == 15);
    let child = Breed::new(Some(&parent), 0, "".to_owned());
    assert!(child.get_attack() == "ARGH!");
    assert!(child.get_health() == 15);
    child.attack();
}

#[test]
fn attack_says_the_breed_attack() {
    let parent = Breed::new(None, 15, "ARGH!".to_owned());
    let child = Breed::new(Some(&parent), 3, "Boo".to_owned());
    assert_eq!(BreedMonster::attack(&child), "ARGH!");
    assert_eq!(BreedMonster::attack(&Breed::new(None, 3, "Boo".to_owned())), "Boo");
}

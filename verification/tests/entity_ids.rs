use leafish::entity::versions::{mapping1_10_2, mapping1_12_2};
use leafish::direction::Direction;
use leafish::entity::digging::{dig_step, next_state, BlockPosition, DigStep, DiggingState};
use leafish::entity::EntityType;

#[test]
fn ids_of_known_entities() {
    assert_eq!(mapping1_12_2::to_id(EntityType::Zombie), 54);
    assert_eq!(mapping1_12_2::to_id(EntityType::Villager), 120);
    assert_eq!(mapping1_12_2::to_id(EntityType::EnderCrystal), 200);
    assert_eq!(mapping1_12_2::to_id(EntityType::DroppedItem), 1);
    assert_eq!(mapping1_12_2::to_id(EntityType::Parrot), 105);
}

#[test]
fn entities_without_an_id() {
    assert_eq!(mapping1_12_2::to_id(EntityType::Player), -1);
    assert_eq!(mapping1_12_2::to_id(EntityType::TippedArrow), -1);
    assert_eq!(mapping1_12_2::to_id(EntityType::Turtle), -1);
    assert_eq!(mapping1_12_2::to_id(EntityType::PiglinBrute), -1);
    assert_eq!(mapping1_12_2::to_id(EntityType::Unknown), -1);
}

#[test]
fn entity_types_of_ids() {
    assert_eq!(mapping1_12_2::to_entity_type(54), EntityType::Zombie);
    assert_eq!(mapping1_12_2::to_entity_type(3), EntityType::AreaEffectCloud);
    assert_eq!(mapping1_12_2::to_entity_type(200), EntityType::EnderCrystal);
    assert_eq!(mapping1_12_2::to_entity_type(-1), EntityType::ComplexPart);
    assert_eq!(mapping1_12_2::to_entity_type(0), EntityType::Unknown);
    assert_eq!(mapping1_12_2::to_entity_type(999), EntityType::Unknown);
    assert_eq!(mapping1_12_2::to_entity_type(-5), EntityType::Unknown);
}

#[test]
fn type_id_roundtrip() {
    let kinds = [
        EntityType::Arrow,
        EntityType::Boat,
        EntityType::Creeper,
        EntityType::Evoker,
        EntityType::Horse,
        EntityType::LlamaSpit,
        EntityType::MinecartHopper,
        EntityType::Shulker,
        EntityType::ZombieVillager,
        EntityType::WitherSkull,
    ];
    for k in kinds {
        let id = mapping1_12_2::to_id(k);
        assert_ne!(id, -1);
        assert_eq!(mapping1_12_2::to_entity_type(id), k);
    }
}

#[test]
fn version_1_10_numbers_as_1_12() {
    assert_eq!(mapping1_10_2::to_id(EntityType::Slime), 55);
    assert_eq!(mapping1_10_2::to_entity_type(55), EntityType::Slime);
    assert_eq!(mapping1_10_2::to_entity_type(-1), EntityType::ComplexPart);
    assert_eq!(mapping1_10_2::to_entity_type(1000), EntityType::Unknown);
}

#[test]
fn only_zombies_are_spawned() {
    assert!(EntityType::Zombie.supported());
    assert!(!EntityType::Slime.supported());
    assert!(!EntityType::Player.supported());
}

fn at(x: i32) -> BlockPosition {
    BlockPosition { x, y: 64, z: 0 }
}

#[test]
fn digging_a_block() {
    let target = Some((at(1), 'b', Direction::Up));
    let mut current = next_state(&None::<DiggingState<char, u32>>, true, target, 10);
    let first = current.unwrap();
    assert_eq!(first.position, at(1));
    assert_eq!(first.start, 10);
    assert!(!first.finished);
    assert_eq!(dig_step(&None, &mut current, false), DigStep::Start);

    let last = current;
    let mut current = next_state(&last, true, target, 20);
    assert_eq!(current.unwrap().start, 10);
    assert_eq!(dig_step(&last, &mut current, false), DigStep::Nothing);
    assert_eq!(dig_step(&last, &mut current, true), DigStep::Finish);
    assert!(current.unwrap().finished);

    let last = current;
    let mut current = next_state(&last, false, target, 30);
    assert!(current.is_none());
    assert_eq!(dig_step(&last, &mut current, false), DigStep::Nothing);
}

#[test]
fn digging_stopped_or_moved() {
    let target = Some((at(1), 'b', Direction::Up));
    let last = next_state(&None::<DiggingState<char, u32>>, true, target, 0);
    let mut released = next_state(&last, false, target, 5);
    assert_eq!(dig_step(&last, &mut released, false), DigStep::Abort);

    let other = Some((at(2), 'c', Direction::North));
    let mut moved = next_state(&last, true, other, 5);
    assert_eq!(moved.unwrap().position, at(2));
    assert_eq!(moved.unwrap().start, 5);
    assert_eq!(dig_step(&last, &mut moved, true), DigStep::AbortAndStart);

    let mut lost = next_state(&last, true, None, 5);
    assert!(lost.is_none());
    assert_eq!(dig_step(&last, &mut lost, false), DigStep::Abort);
}

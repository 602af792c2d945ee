use crate::entity::EntityType;
use vstd::prelude::*;

verus! {

/// The numeric type id of an entity kind in protocol 1.12.2; `-1` where the
/// version has no id for it.
pub open spec fn entity_id(t: EntityType) -> int {
    match t {
        EntityType::DroppedItem => 1,
        EntityType::ExperienceOrb => 2,
        EntityType::LeashHitch => 8,
        EntityType::Painting => 9,
        EntityType::Arrow => 10,
        EntityType::Snowball => 11,
        EntityType::Fireball => 12,
        EntityType::SmallFireball => 13,
        EntityType::EnderPearl => 14,
        EntityType::EnderSignal => 15,
        EntityType::ThrownExpBottle => 17,
        EntityType::ItemFrame => 18,
        EntityType::WitherSkull => 19,
        EntityType::PrimedTnt => 20,
        EntityType::FallingBlock => 21,
        EntityType::Firework => 22,
        EntityType::TippedArrow => -1,
        EntityType::SpectralArrow => 24,
        EntityType::ShulkerBullet => 25,
        EntityType::DragonFireball => 26,
        EntityType::ArmorStand => 30,
        EntityType::MinecartCommand => 40,
        EntityType::Boat => 41,
        EntityType::Minecart => 42,
        EntityType::MinecartChest => 43,
        EntityType::MinecartFurnace => 44,
        EntityType::MinecartTnt => 45,
        EntityType::MinecartHopper => 46,
        EntityType::MinecartMobSpawner => 47,
        EntityType::Creeper => 50,
        EntityType::Skeleton => 51,
        EntityType::Spider => 52,
        EntityType::Giant => 53,
        EntityType::Zombie => 54,
        EntityType::Slime => 55,
        EntityType::Ghast => 56,
        EntityType::PigZombie => 57,
        EntityType::Enderman => 58,
        EntityType::CaveSpider => 59,
        EntityType::Silverfish => 60,
        EntityType::Blaze => 61,
        EntityType::MagmaCube => 62,
        EntityType::EnderDragon => 63,
        EntityType::Wither => 64,
        EntityType::Bat => 65,
        EntityType::Witch => 66,
        EntityType::Endermite => 67,
        EntityType::Guardian => 68,
        EntityType::Shulker => 69,
        EntityType::Pig => 90,
        EntityType::Sheep => 91,
        EntityType::Cow => 92,
        EntityType::Chicken => 93,
        EntityType::Squid => 94,
        EntityType::Wolf => 95,
        EntityType::MushroomCow => 96,
        EntityType::Snowman => 97,
        EntityType::Ocelot => 98,
        EntityType::IronGolem => 99,
        EntityType::Horse => 100,
        EntityType::Rabbit => 101,
        EntityType::PolarBear => 102,
        EntityType::Villager => 120,
        EntityType::EnderCrystal => 200,
        EntityType::SplashPotion => 16,
        EntityType::LingeringPotion => -1,
        EntityType::AreaEffectCloud => 3,
        EntityType::Egg => 7,
        EntityType::FishingHook => -1,
        EntityType::Lightning => -1,
        EntityType::Weather => -1,
        EntityType::Player => -1,
        EntityType::ComplexPart => -1,
        EntityType::Unknown => -1,
        EntityType::ElderGuardian => 4,
        EntityType::WitherSkeleton => 5,
        EntityType::Stray => 6,
        EntityType::Husk => 23,
        EntityType::ZombieVillager => 27,
        EntityType::SkeletonHorse => 28,
        EntityType::ZombieHorse => 29,
        EntityType::Donkey => 31,
        EntityType::Mule => 32,
        EntityType::EvokerFangs => 33,
        EntityType::Evoker => 34,
        EntityType::Vex => 35,
        EntityType::Vindicator => 36,
        EntityType::Llama => 103,
        EntityType::LlamaSpit => 104,
        EntityType::Illusioner => 37,
        EntityType::Parrot => 105,
        EntityType::Turtle => -1,
        EntityType::Phantom => -1,
        EntityType::Trident => -1,
        EntityType::Cod => -1,
        EntityType::Salmon => -1,
        EntityType::Pufferfish => -1,
        EntityType::TropicalFish => -1,
        EntityType::Drowned => -1,
        EntityType::Dolphin => -1,
        EntityType::Cat => -1,
        EntityType::Panda => -1,
        EntityType::Pillager => -1,
        EntityType::Ravager => -1,
        EntityType::TraderLlama => -1,
        EntityType::WanderingTrader => -1,
        EntityType::Fox => -1,
        EntityType::Bee => -1,
        EntityType::ZombifiedPiglin => -1,
        EntityType::Hoglin => -1,
        EntityType::Piglin => -1,
        EntityType::Strider => -1,
        EntityType::Zoglin => -1,
        EntityType::PiglinBrute => -1,
    }
}

/// Whether some entity kind has `id` as its type id.
pub open spec fn id_known(id: int) -> bool {
    exists|t: EntityType| entity_id(t) == id
}

/// The type id sent for an entity kind.
pub fn to_id(entity_type: EntityType) -> (id: i16)
    ensures
        id == entity_id(entity_type),
{
    match entity_type {
        EntityType::DroppedItem => 1,
        EntityType::ExperienceOrb => 2,
        EntityType::LeashHitch => 8,
        EntityType::Painting => 9,
        EntityType::Arrow => 10,
        EntityType::Snowball => 11,
        EntityType::Fireball => 12,
        EntityType::SmallFireball => 13,
        EntityType::EnderPearl => 14,
        EntityType::EnderSignal => 15,
        EntityType::ThrownExpBottle => 17,
        EntityType::ItemFrame => 18,
        EntityType::WitherSkull => 19,
        EntityType::PrimedTnt => 20,
        EntityType::FallingBlock => 21,
        EntityType::Firework => 22,
        EntityType::TippedArrow => -1,
        EntityType::SpectralArrow => 24,
        EntityType::ShulkerBullet => 25,
        EntityType::DragonFireball => 26,
        EntityType::ArmorStand => 30,
        EntityType::MinecartCommand => 40,
        EntityType::Boat => 41,
        EntityType::Minecart => 42,
        EntityType::MinecartChest => 43,
        EntityType::MinecartFurnace => 44,
        EntityType::MinecartTnt => 45,
        EntityType::MinecartHopper => 46,
        EntityType::MinecartMobSpawner => 47,
        EntityType::Creeper => 50,
        EntityType::Skeleton => 51,
        EntityType::Spider => 52,
        EntityType::Giant => 53,
        EntityType::Zombie => 54,
        EntityType::Slime => 55,
        EntityType::Ghast => 56,
        EntityType::PigZombie => 57,
        EntityType::Enderman => 58,
        EntityType::CaveSpider => 59,
        EntityType::Silverfish => 60,
        EntityType::Blaze => 61,
        EntityType::MagmaCube => 62,
        EntityType::EnderDragon => 63,
        EntityType::Wither => 64,
        EntityType::Bat => 65,
        EntityType::Witch => 66,
        EntityType::Endermite => 67,
        EntityType::Guardian => 68,
        EntityType::Shulker => 69,
        EntityType::Pig => 90,
        EntityType::Sheep => 91,
        EntityType::Cow => 92,
        EntityType::Chicken => 93,
        EntityType::Squid => 94,
        EntityType::Wolf => 95,
        EntityType::MushroomCow => 96,
        EntityType::Snowman => 97,
        EntityType::Ocelot => 98,
        EntityType::IronGolem => 99,
        EntityType::Horse => 100,
        EntityType::Rabbit => 101,
        EntityType::PolarBear => 102,
        EntityType::Villager => 120,
        EntityType::EnderCrystal => 200,
        EntityType::SplashPotion => 16,
        EntityType::LingeringPotion => -1,
        EntityType::AreaEffectCloud => 3,
        EntityType::Egg => 7,
        EntityType::FishingHook => -1,
        EntityType::Lightning => -1,
        EntityType::Weather => -1,
        EntityType::Player => -1,
        EntityType::ComplexPart => -1,
        EntityType::Unknown => -1,
        EntityType::ElderGuardian => 4,
        EntityType::WitherSkeleton => 5,
        EntityType::Stray => 6,
        EntityType::Husk => 23,
        EntityType::ZombieVillager => 27,
        EntityType::SkeletonHorse => 28,
        EntityType::ZombieHorse => 29,
        EntityType::Donkey => 31,
        EntityType::Mule => 32,
        EntityType::EvokerFangs => 33,
        EntityType::Evoker => 34,
        EntityType::Vex => 35,
        EntityType::Vindicator => 36,
        EntityType::Llama => 103,
        EntityType::LlamaSpit => 104,
        EntityType::Illusioner => 37,
        EntityType::Parrot => 105,
        EntityType::Turtle => -1,
        EntityType::Phantom => -1,
        EntityType::Trident => -1,
        EntityType::Cod => -1,
        EntityType::Salmon => -1,
        EntityType::Pufferfish => -1,
        EntityType::TropicalFish => -1,
        EntityType::Drowned => -1,
        EntityType::Dolphin => -1,
        EntityType::Cat => -1,
        EntityType::Panda => -1,
        EntityType::Pillager => -1,
        EntityType::Ravager => -1,
        EntityType::TraderLlama => -1,
        EntityType::WanderingTrader => -1,
        EntityType::Fox => -1,
        EntityType::Bee => -1,
        EntityType::ZombifiedPiglin => -1,
        EntityType::Hoglin => -1,
        EntityType::Piglin => -1,
        EntityType::Strider => -1,
        EntityType::Zoglin => -1,
        EntityType::PiglinBrute => -1,
    }
}

/// The entity kind a received type id names. The id `-1` is read as a
/// complex part; an id that no kind has gives `Unknown`.
#[verifier::rlimit(40)]
pub fn to_entity_type(type_id: i16) -> (t: EntityType)
    ensures
        type_id == -1 ==> t == EntityType::ComplexPart,
        type_id != -1 && id_known(type_id as int) ==> entity_id(t) == type_id,
        type_id != -1 && !id_known(type_id as int) ==> t == EntityType::Unknown,
{
    let t = match type_id {
        3 => EntityType::AreaEffectCloud,
        30 => EntityType::ArmorStand,
        10 => EntityType::Arrow,
        65 => EntityType::Bat,
        61 => EntityType::Blaze,
        41 => EntityType::Boat,
        59 => EntityType::CaveSpider,
        93 => EntityType::Chicken,
        -1 => EntityType::ComplexPart,
        92 => EntityType::Cow,
        50 => EntityType::Creeper,
        31 => EntityType::Donkey,
        26 => EntityType::DragonFireball,
        1 => EntityType::DroppedItem,
        7 => EntityType::Egg,
        4 => EntityType::ElderGuardian,
        58 => EntityType::Enderman,
        67 => EntityType::Endermite,
        200 => EntityType::EnderCrystal,
        63 => EntityType::EnderDragon,
        14 => EntityType::EnderPearl,
        15 => EntityType::EnderSignal,
        34 => EntityType::Evoker,
        33 => EntityType::EvokerFangs,
        2 => EntityType::ExperienceOrb,
        21 => EntityType::FallingBlock,
        12 => EntityType::Fireball,
        22 => EntityType::Firework,
        56 => EntityType::Ghast,
        53 => EntityType::Giant,
        68 => EntityType::Guardian,
        100 => EntityType::Horse,
        23 => EntityType::Husk,
        37 => EntityType::Illusioner,
        99 => EntityType::IronGolem,
        18 => EntityType::ItemFrame,
        8 => EntityType::LeashHitch,
        103 => EntityType::Llama,
        104 => EntityType::LlamaSpit,
        62 => EntityType::MagmaCube,
        42 => EntityType::Minecart,
        43 => EntityType::MinecartChest,
        40 => EntityType::MinecartCommand,
        44 => EntityType::MinecartFurnace,
        46 => EntityType::MinecartHopper,
        47 => EntityType::MinecartMobSpawner,
        45 => EntityType::MinecartTnt,
        32 => EntityType::Mule,
        96 => EntityType::MushroomCow,
        98 => EntityType::Ocelot,
        9 => EntityType::Painting,
        105 => EntityType::Parrot,
        90 => EntityType::Pig,
        57 => EntityType::PigZombie,
        102 => EntityType::PolarBear,
        20 => EntityType::PrimedTnt,
        101 => EntityType::Rabbit,
        91 => EntityType::Sheep,
        69 => EntityType::Shulker,
        25 => EntityType::ShulkerBullet,
        60 => EntityType::Silverfish,
        51 => EntityType::Skeleton,
        28 => EntityType::SkeletonHorse,
        55 => EntityType::Slime,
        13 => EntityType::SmallFireball,
        11 => EntityType::Snowball,
        97 => EntityType::Snowman,
        24 => EntityType::SpectralArrow,
        52 => EntityType::Spider,
        16 => EntityType::SplashPotion,
        94 => EntityType::Squid,
        6 => EntityType::Stray,
        17 => EntityType::ThrownExpBottle,
        35 => EntityType::Vex,
        120 => EntityType::Villager,
        36 => EntityType::Vindicator,
        66 => EntityType::Witch,
        64 => EntityType::Wither,
        5 => EntityType::WitherSkeleton,
        19 => EntityType::WitherSkull,
        95 => EntityType::Wolf,
        54 => EntityType::Zombie,
        29 => EntityType::ZombieHorse,
        27 => EntityType::ZombieVillager,
        _ => EntityType::Unknown,
    };
    proof {
        if t != EntityType::Unknown && type_id != -1 {
            assert(entity_id(t) == type_id);
        }
    }
    t
}

/// The type ids of protocol 1.12.2, in the protocol's own numbering: every
/// entity kind that the protocol knows, with the id its registry gives it.
/// Kinds not listed here have no id in this protocol (they are sent as `-1`).
pub proof fn law_protocol_type_ids()
    ensures
        entity_id(EntityType::DroppedItem) == 1,
        entity_id(EntityType::ExperienceOrb) == 2,
        entity_id(EntityType::AreaEffectCloud) == 3,
        entity_id(EntityType::ElderGuardian) == 4,
        entity_id(EntityType::WitherSkeleton) == 5,
        entity_id(EntityType::Stray) == 6,
        entity_id(EntityType::Egg) == 7,
        entity_id(EntityType::LeashHitch) == 8,
        entity_id(EntityType::Painting) == 9,
        entity_id(EntityType::Arrow) == 10,
        entity_id(EntityType::Snowball) == 11,
        entity_id(EntityType::Fireball) == 12,
        entity_id(EntityType::SmallFireball) == 13,
        entity_id(EntityType::EnderPearl) == 14,
        entity_id(EntityType::EnderSignal) == 15,
        entity_id(EntityType::SplashPotion) == 16,
        entity_id(EntityType::ThrownExpBottle) == 17,
        entity_id(EntityType::ItemFrame) == 18,
        entity_id(EntityType::WitherSkull) == 19,
        entity_id(EntityType::PrimedTnt) == 20,
        entity_id(EntityType::FallingBlock) == 21,
        entity_id(EntityType::Firework) == 22,
        entity_id(EntityType::Husk) == 23,
        entity_id(EntityType::SpectralArrow) == 24,
        entity_id(EntityType::ShulkerBullet) == 25,
        entity_id(EntityType::DragonFireball) == 26,
        entity_id(EntityType::ZombieVillager) == 27,
        entity_id(EntityType::SkeletonHorse) == 28,
        entity_id(EntityType::ZombieHorse) == 29,
        entity_id(EntityType::ArmorStand) == 30,
        entity_id(EntityType::Donkey) == 31,
        entity_id(EntityType::Mule) == 32,
        entity_id(EntityType::EvokerFangs) == 33,
        entity_id(EntityType::Evoker) == 34,
        entity_id(EntityType::Vex) == 35,
        entity_id(EntityType::Vindicator) == 36,
        entity_id(EntityType::Illusioner) == 37,
        entity_id(EntityType::MinecartCommand) == 40,
        entity_id(EntityType::Boat) == 41,
        entity_id(EntityType::Minecart) == 42,
        entity_id(EntityType::MinecartChest) == 43,
        entity_id(EntityType::MinecartFurnace) == 44,
        entity_id(EntityType::MinecartTnt) == 45,
        entity_id(EntityType::MinecartHopper) == 46,
        entity_id(EntityType::MinecartMobSpawner) == 47,
        entity_id(EntityType::Creeper) == 50,
        entity_id(EntityType::Skeleton) == 51,
        entity_id(EntityType::Spider) == 52,
        entity_id(EntityType::Giant) == 53,
        entity_id(EntityType::Zombie) == 54,
        entity_id(EntityType::Slime) == 55,
        entity_id(EntityType::Ghast) == 56,
        entity_id(EntityType::PigZombie) == 57,
        entity_id(EntityType::Enderman) == 58,
        entity_id(EntityType::CaveSpider) == 59,
        entity_id(EntityType::Silverfish) == 60,
        entity_id(EntityType::Blaze) == 61,
        entity_id(EntityType::MagmaCube) == 62,
        entity_id(EntityType::EnderDragon) == 63,
        entity_id(EntityType::Wither) == 64,
        entity_id(EntityType::Bat) == 65,
        entity_id(EntityType::Witch) == 66,
        entity_id(EntityType::Endermite) == 67,
        entity_id(EntityType::Guardian) == 68,
        entity_id(EntityType::Shulker) == 69,
        entity_id(EntityType::Pig) == 90,
        entity_id(EntityType::Sheep) == 91,
        entity_id(EntityType::Cow) == 92,
        entity_id(EntityType::Chicken) == 93,
        entity_id(EntityType::Squid) == 94,
        entity_id(EntityType::Wolf) == 95,
        entity_id(EntityType::MushroomCow) == 96,
        entity_id(EntityType::Snowman) == 97,
        entity_id(EntityType::Ocelot) == 98,
        entity_id(EntityType::IronGolem) == 99,
        entity_id(EntityType::Horse) == 100,
        entity_id(EntityType::Rabbit) == 101,
        entity_id(EntityType::PolarBear) == 102,
        entity_id(EntityType::Llama) == 103,
        entity_id(EntityType::LlamaSpit) == 104,
        entity_id(EntityType::Parrot) == 105,
        entity_id(EntityType::Villager) == 120,
        entity_id(EntityType::EnderCrystal) == 200,
        forall|t: EntityType|
            entity_id(t) != -1 ==> 1 <= #[trigger] entity_id(t) <= 200,
{
}

/// No two entity kinds share a type id other than `-1`: reading back the id
/// sent for a kind that has one gives that kind again.
pub proof fn law_type_id_roundtrip(t: EntityType, u: EntityType)
    requires
        entity_id(t) != -1,
        entity_id(u) == entity_id(t),
    ensures
        u == t,
{
}

} // verus!

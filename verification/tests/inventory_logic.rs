use leafish::inventory::anvil_inventory::AnvilInventory;
use leafish::inventory::beacon_inventory::{BeaconInventory, Effect};
use leafish::inventory::brewing_stand_inventory::BrewingStandInventory;
use leafish::inventory::chest_inventory::{chest_height, ChestInventory};
use leafish::inventory::crafting_table::CraftingTableInventory;
use leafish::inventory::enchanting_table_inventory::{
    slot_accepts, Enchantment, EnchantmentButton, EnchantmentTableInventory,
};
use leafish::inventory::furnace_inventory::{FurnaceInventory, SmeltingState};
use leafish::inventory::grindstone::GrindStoneInventory;
use leafish::inventory::{simulate_click, InventoryType, Item, Material, Stack, Tool, ToolMaterial};
use leafish::version::Version;

fn item(material: Material, count: isize) -> Item {
    Item { stack: Stack { id: 1, count, damage: None }, material }
}

#[test]
fn window_types_by_name() {
    assert_eq!(InventoryType::from_name("minecraft:anvil", 0), Some(InventoryType::Anvil));
    assert_eq!(InventoryType::from_name("minecraft:chest", 27), Some(InventoryType::Chest(3)));
    assert_eq!(InventoryType::from_name("minecraft:container", 54), Some(InventoryType::Chest(6)));
    assert_eq!(InventoryType::from_name("minecraft:chest", 26), None);
    assert_eq!(InventoryType::from_name("minecraft:dispenser", 9), Some(InventoryType::Dropper));
    assert_eq!(InventoryType::from_name("minecraft:shulker_box", 27), Some(InventoryType::ShulkerBox));
    assert_eq!(InventoryType::from_name("minecraft:villager", 0), None);
    assert_eq!(InventoryType::from_name("", 0), None);
}

#[test]
fn window_types_by_id() {
    assert_eq!(InventoryType::from_id(Version::V1_16, 0), Some(InventoryType::Chest(1)));
    assert_eq!(InventoryType::from_id(Version::V1_16, 5), Some(InventoryType::Chest(6)));
    assert_eq!(InventoryType::from_id(Version::V1_16, 20), Some(InventoryType::SmithingTable));
    assert_eq!(InventoryType::from_id(Version::V1_15, 20), Some(InventoryType::Smoker));
    assert_eq!(InventoryType::from_id(Version::V1_14, 19), Some(InventoryType::ShulkerBox));
    assert_eq!(InventoryType::from_id(Version::V1_15, 22), Some(InventoryType::Stonecutter));
    assert_eq!(InventoryType::from_id(Version::V1_15, 23), None);
    assert_eq!(InventoryType::from_id(Version::V1_16, 24), None);
    assert_eq!(InventoryType::from_id(Version::V1_16, -1), None);
}

#[test]
fn left_click_merges_up_to_the_stack_size() {
    let (c, i) = simulate_click(Some(item(Material::Stone, 40)), Some(item(Material::Stone, 30)), true, 64);
    assert_eq!(c.unwrap().stack.count, 6);
    assert_eq!(i.unwrap().stack.count, 64);
    let (c, i) = simulate_click(Some(item(Material::Stone, 4)), Some(item(Material::Stone, 3)), true, 64);
    assert!(c.is_none());
    assert_eq!(i.unwrap().stack.count, 7);
}

#[test]
fn right_click_moves_one_item() {
    let (c, i) = simulate_click(Some(item(Material::Dirt, 5)), Some(item(Material::Dirt, 2)), false, 64);
    assert_eq!(c.unwrap().stack.count, 4);
    assert_eq!(i.unwrap().stack.count, 3);
    let (c, i) = simulate_click(Some(item(Material::Dirt, 1)), Some(item(Material::Dirt, 2)), false, 64);
    assert!(c.is_none());
    assert_eq!(i.unwrap().stack.count, 3);
    let (c, i) = simulate_click(Some(item(Material::Dirt, 5)), Some(item(Material::Dirt, 64)), false, 64);
    assert_eq!(c.unwrap().stack.count, 5);
    assert_eq!(i.unwrap().stack.count, 64);
}

#[test]
fn different_items_are_swapped() {
    let (c, i) = simulate_click(Some(item(Material::Dirt, 5)), Some(item(Material::Stone, 2)), true, 64);
    assert_eq!(c.unwrap().material, Material::Stone);
    assert_eq!(i.unwrap().material, Material::Dirt);
    let mut damaged = item(Material::Stone, 2);
    damaged.stack.damage = Some(3);
    let (c, i) = simulate_click(Some(item(Material::Stone, 5)), Some(damaged), true, 64);
    assert_eq!(c.unwrap().stack.damage, Some(3));
    assert_eq!(i.unwrap().stack.count, 5);
}

#[test]
fn clicks_on_an_empty_slot_or_with_an_empty_cursor() {
    let (c, i) = simulate_click(Some(item(Material::Dirt, 5)), None, false, 64);
    assert_eq!(c.unwrap().stack.count, 4);
    assert_eq!(i.unwrap().stack.count, 1);
    let (c, i) = simulate_click(Some(item(Material::Dirt, 1)), None, false, 64);
    assert!(c.is_none());
    assert_eq!(i.unwrap().stack.count, 1);
    let (c, i) = simulate_click(Some(item(Material::Dirt, 5)), None, true, 64);
    assert!(c.is_none());
    assert_eq!(i.unwrap().stack.count, 5);
    let (c, i) = simulate_click(None, Some(item(Material::Dirt, 7)), false, 64);
    assert_eq!(c.unwrap().stack.count, 4);
    assert_eq!(i.unwrap().stack.count, 3);
    let (c, i) = simulate_click(None, Some(item(Material::Dirt, 7)), true, 64);
    assert_eq!(c.unwrap().stack.count, 7);
    assert!(i.is_none());
    let (c, i) = simulate_click(None, Some(item(Material::Dirt, 1)), false, 64);
    assert_eq!(c.unwrap().stack.count, 1);
    assert!(i.is_none());
    assert_eq!(simulate_click(None, None, true, 64), (None, None));
}

#[test]
fn clicks_keep_the_number_of_items() {
    for cursor in [None, Some(1), Some(5), Some(64)] {
        for slot in [None, Some(1), Some(2), Some(63)] {
            for left in [true, false] {
                let c = cursor.map(|n| item(Material::Sand, n));
                let s = slot.map(|n| item(Material::Sand, n));
                let (c2, s2) = simulate_click(c, s, left, 64);
                let before = cursor.unwrap_or(0) + slot.unwrap_or(0);
                let after = c2.map_or(0, |x| x.stack.count) + s2.map_or(0, |x| x.stack.count);
                assert_eq!(before, after);
            }
        }
    }
}

#[test]
fn material_names_and_textures() {
    assert_eq!(Material::Air.name(), "Air");
    assert_eq!(Material::default().name(), "Air");
    assert_eq!(Material::GoldIngot.name(), "GoldIngot");
    assert_eq!(Material::Stone.name(), "Stone");
    assert_eq!(Material::DiamondSword.name(), "DiamondSword");
    assert_eq!(Material::LegacyMap.name(), "Map");
    assert_eq!(Material::String.name(), "String");
    assert_eq!(
        Material::DiamondSword.texture_locations(),
        ("item/diamond_sword".to_string(), "block/diamond_sword".to_string())
    );
    assert_eq!(Material::Tnt.texture_locations().0, "item/tnt");
    assert_eq!(Material::LegacyMap.texture_locations().1, "block/map");
    assert_eq!(Material::LapisLazuli.texture_locations().0, "item/lapis_lazuli");
}

#[test]
fn tools() {
    assert_eq!(Material::IronPickaxe.as_tool(), Some(Tool::Pickaxe(ToolMaterial::Iron)));
    assert_eq!(Material::NetheriteShovel.as_tool(), Some(Tool::Shovel(ToolMaterial::Netherite)));
    assert_eq!(Material::Shears.as_tool(), Some(Tool::Shears));
    assert_eq!(Material::Stick.as_tool(), None);
}

#[test]
fn placable_blocks() {
    assert!(Material::Stone.is_placable_block(Version::V1_12, 255));
    assert!(!Material::Stone.is_placable_block(Version::V1_12, 256));
    assert!(Material::Stone.is_placable_block(Version::V1_13, 5000));
}

#[test]
fn stackable_items() {
    let a = item(Material::Stone, 3);
    let mut b = item(Material::Stone, 9);
    assert!(a.is_stackable(&b));
    b.stack.damage = Some(1);
    assert!(!a.is_stackable(&b));
    assert!(!a.is_stackable(&item(Material::Dirt, 3)));
}

#[test]
fn beacon_effects() {
    assert_eq!(Effect::try_from(1), Ok(Effect::Speed));
    assert_eq!(Effect::try_from(10), Ok(Effect::Regeneration));
    assert_eq!(Effect::try_from(33), Ok(Effect::Darkness));
    assert_eq!(Effect::try_from(-1), Err("no effect"));
    assert_eq!(Effect::try_from(0), Err("tried to set a effect that is unknown"));
    assert_eq!(Effect::try_from(34), Err("tried to set a effect that is unknown"));
    for v in 1..=33i16 {
        assert_eq!(Effect::try_from(v).unwrap().into_u8() as i16, v);
    }
    assert_eq!(Effect::Speed.get_texture(), "minecraft:mob_effect/speed");
    assert_eq!(Effect::MiningFatigue.get_texture(), "minecraft:mob_effect/minig_fatigue");
    assert_eq!(Effect::HerooftheVillage.get_texture(), "minecraft:mob_effect/hero_of_the_village");
    assert_eq!(Effect::Absorption.get_texture(), "minecraft:mob_effect/absorption");
}

#[test]
fn beacon_properties() {
    let mut b = BeaconInventory::new(3);
    b.dirty = false;
    b.handle_property_packet(0, 4);
    assert_eq!(b.info.power_level, 4);
    assert!(b.dirty);
    b.handle_property_packet(1, 3);
    assert_eq!(b.info.effect1, Some(Effect::Haste));
    b.handle_property_packet(2, -1);
    assert_eq!(b.info.effect2, None);
    b.handle_property_packet(2, 10);
    assert_eq!(b.info.effect2, Some(Effect::Regeneration));
    b.handle_property_packet(7, 1);
    assert_eq!(b.info.effect1, Some(Effect::Haste));
    b.handle_property_packet(0, 260);
    assert_eq!(b.info.power_level, 4);
    assert_eq!(b.ty(), InventoryType::Beacon);
    b.set_client_state_id(9);
    assert_eq!(b.get_client_state_id(), 9);
    assert_eq!(b.id(), 3);
}

#[test]
fn enchantments() {
    assert_eq!(Enchantment::try_from(0), Ok(Enchantment::Protection));
    assert_eq!(Enchantment::try_from(37), Ok(Enchantment::CurseofVanishing));
    assert_eq!(Enchantment::try_from(38), Err("something went wrong"));
    assert_eq!(Enchantment::try_from(-1), Err("something went wrong"));
    assert_eq!(Enchantment::try_from(256 + 12), Ok(Enchantment::Sharpness));
    assert_eq!(Enchantment::BaneofArthropods.display_name(), "Bane of Arthropds");
    assert_eq!(Enchantment::Sharpness.display_name(), "Sharpness");
    assert_eq!(Enchantment::LuckoftheSea.display_name(), "Luck of the Sea");
}

#[test]
fn enchanting_table_properties() {
    let mut t = EnchantmentTableInventory::new("Enchant".to_string(), 2);
    t.handle_property_packet(1, 5);
    assert_eq!(t.button_data[1].level_required, Some(5));
    t.handle_property_packet(2, 0);
    assert_eq!(t.button_data[2].level_required, None);
    t.handle_property_packet(4, 12);
    assert_eq!(t.button_data[0].enchantment_hint, Some(Enchantment::Sharpness));
    t.handle_property_packet(9, 3);
    assert_eq!(t.button_data[2].enchantment_level, Some(3));
    t.handle_property_packet(9, -1);
    assert_eq!(t.button_data[2].enchantment_level, None);
    t.handle_property_packet(3, 77);
    t.handle_property_packet(42, 1);
    assert_eq!(t.button_data[1].level_required, Some(5));
    assert!(t.dirty);
}

#[test]
fn enchanting_offer_view() {
    let b = EnchantmentButton {
        level_required: Some(7),
        enchantment_hint: Some(Enchantment::Efficiency),
        enchantment_level: Some(2),
    };
    let lapis = Some(item(Material::LapisLazuli, 2));
    let v = b.view(1, lapis, 10, false);
    assert!(v.shown && v.active);
    assert_eq!(v.name_text, "Efficiency 2");
    assert_eq!(v.cost_text, "lvl required: 7");
    assert!(!b.view(2, lapis, 10, false).active);
    assert!(!b.view(1, lapis, 6, false).active);
    assert!(b.view(2, None, 0, true).active);
    let unknown = EnchantmentButton { level_required: None, enchantment_hint: Some(Enchantment::Power), enchantment_level: None };
    let v = unknown.view(0, None, 0, false);
    assert_eq!(v.name_text, "Power level unknown");
    assert_eq!(v.cost_text, "lvl required: lvl required: unknown");
    let empty = EnchantmentButton { level_required: None, enchantment_hint: None, enchantment_level: None };
    let v = empty.view(0, lapis, 100, true);
    assert!(!v.shown && !v.active);
    assert_eq!(v.name_text, "");
    assert_eq!(v.cost_text, "");
}

#[test]
fn anvil_state() {
    let mut a = AnvilInventory::new(4);
    assert_eq!(a.cost_text(), "");
    a.handle_property_packet(0, 12);
    assert_eq!(a.repair_cost, Some(12));
    assert_eq!(a.cost_text(), "Cost: 12");
    assert!(!a.update_enough_level(11));
    assert!(a.update_enough_level(12));
    a.handle_property_packet(0, 0);
    assert_eq!(a.repair_cost, None);
    assert!(a.update_enough_level(0));
    a.handle_property_packet(1, 5);
    assert_eq!(a.repair_cost, None);
    assert!(a.rename("Sword"));
    assert!(!a.rename("Sword"));
    assert!(a.rename(""));
    assert_eq!(a.ty(), InventoryType::Anvil);
}

#[test]
fn brewing_stand_state() {
    let mut b = BrewingStandInventory::new("Brewing".to_string(), 1);
    assert_eq!(b.brew_time, 400);
    b.handle_property_packet(0, 350);
    assert_eq!((b.brew_time, b.last_brew_time), (350, 400));
    b.handle_property_packet(0, 300);
    assert_eq!((b.brew_time, b.last_brew_time), (300, 350));
    b.handle_property_packet(1, 20);
    assert_eq!(b.fuel_time, 20);
    b.handle_property_packet(2, 99);
    assert_eq!((b.brew_time, b.fuel_time), (300, 20));
}

#[test]
fn furnace_state() {
    let s = SmeltingState::new();
    assert_eq!(s.max_progress, 0);
    let mut f = FurnaceInventory::new(InventoryType::Smoker, 6);
    f.handle_property_packet(0, 200);
    f.handle_property_packet(1, 300);
    f.handle_property_packet(2, 50);
    f.handle_property_packet(3, 100);
    f.handle_property_packet(4, 1);
    assert_eq!(
        f.smelting_state,
        SmeltingState { remaining_burn_time: 200, max_burn_time: 300, current_progress: 50, max_progress: 100 }
    );
    assert_eq!(f.ty(), InventoryType::Smoker);
}

#[test]
fn chest_layout() {
    assert_eq!(chest_height(3), 71);
    assert_eq!(chest_height(6), 125);
    let c = ChestInventory::new(3, "Chest".to_string(), 8);
    assert_eq!(c.player_slot_range(), (27, 63));
    assert_eq!(c.ty(), InventoryType::Chest(3));
}

#[test]
fn simple_windows() {
    let mut t = CraftingTableInventory::new(5);
    t.set_client_state_id(-2);
    assert_eq!(t.get_client_state_id(), -2);
    assert_eq!(t.ty(), InventoryType::CraftingTable);
    let mut g = GrindStoneInventory::new(7);
    g.dirty = false;
    g.set_client_state_id(1);
    assert!(g.dirty);
    assert!(GrindStoneInventory::arrow_crossed(true, false, false));
    assert!(!GrindStoneInventory::arrow_crossed(true, true, true));
    assert!(!GrindStoneInventory::arrow_crossed(false, false, false));
}

#[test]
fn window_titles() {
    let title = |name: &str| ChestInventory::new(3, name.to_string(), 1).title();
    assert_eq!(title("container.barrel"), "Barrel");
    assert_eq!(title("container.chest"), "Chest");
    assert_eq!(title("container.chestDouble"), "Large Chest");
    assert_eq!(title("container.enderchest"), "Ender Chest");
    assert_eq!(title("My Loot"), "My Loot");
    assert_eq!(EnchantmentTableInventory::new("container.enchant".to_string(), 1).title(), "Enchant");
    assert_eq!(EnchantmentTableInventory::new("Magic".to_string(), 1).title(), "Magic");
    assert_eq!(FurnaceInventory::new(InventoryType::Furnace, 1).title(), "Furnace");
    assert_eq!(FurnaceInventory::new(InventoryType::BlastFurnace, 1).title(), "Blast Furnace");
    assert_eq!(FurnaceInventory::new(InventoryType::Smoker, 1).title(), "Smoker");
}

#[test]
fn the_lapis_slot_takes_only_lapis() {
    assert!(slot_accepts(1, &Some(item(Material::LapisLazuli, 3))));
    assert!(slot_accepts(1, &None));
    assert!(!slot_accepts(1, &Some(item(Material::Stone, 3))));
    assert!(slot_accepts(0, &Some(item(Material::Stone, 3))));
    assert!(slot_accepts(2, &Some(item(Material::Dirt, 1))));
}

#[test]
fn texture_names_are_snake_case() {
    for m in [Material::GoldIngot, Material::DiamondSword, Material::Stone, Material::LapisLazuli] {
        let (item, block) = m.texture_locations();
        let name = m.name();
        let s = item.strip_prefix("item/").unwrap();
        assert_eq!(block.strip_prefix("block/").unwrap(), s);
        assert!(!s.starts_with('_'));
        assert!(!s.chars().any(|c| c.is_ascii_uppercase()));
        assert_eq!(s.replace('_', ""), name.to_ascii_lowercase());
        assert_eq!(
            s.matches('_').count(),
            name.chars().filter(|c| c.is_ascii_uppercase()).count() - 1
        );
    }
    assert_eq!(Material::GoldIngot.texture_locations().0, "item/gold_ingot");
}

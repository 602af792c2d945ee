use leafish::inventory::anvil_inventory::AnvilInventory;
use leafish::inventory::beacon_inventory::{
    get_button_state, get_texture, set_button_state, set_secondary_power, BeaconInventory,
    BeaconPanel, ButtonState, Effect,
};
use leafish::inventory::context::{
    base_slot_layout, ClickOutcome, ConfirmTarget, InventoryContext, InventoryOperation, Scroll,
    OUTSIDE_SLOT,
};
use leafish::inventory::layout::{
    anvil_layout, beacon_layout, brewing_stand_layout, chest_layout, crafting_table_layout,
    enchanting_table_layout, furnace_layout, grindstone_layout,
};
use leafish::inventory::player_inventory::PlayerInventory;
use leafish::inventory::{InventoryType, Item, Material, Stack};
use leafish::version::Version;

fn item(material: Material, count: isize) -> Item {
    Item { stack: Stack { id: 1, count, damage: None }, material }
}

#[test]
fn player_slot_layout() {
    let v = base_slot_layout();
    assert_eq!(v.len(), 36);
    assert_eq!(v[0], (0, (0, 0)));
    assert_eq!(v[1], (9, (0, 18)));
    assert_eq!(v[2], (18, (0, 36)));
    assert_eq!(v[3], (1, (18, 0)));
    assert_eq!(v[26], (26, (144, 36)));
    assert_eq!(v[27], (27, (0, 58)));
    assert_eq!(v[35], (35, (144, 58)));
}

#[test]
fn clicks_without_a_window_do_nothing() {
    let mut c = InventoryContext::new();
    let r = c.on_click(Some((0, Some(item(Material::Stone, 3)))), true, false, 64, 0);
    assert_eq!(r, ClickOutcome::Nothing);
    assert_eq!(c.cursor, None);
    assert!(!c.dirty);
}

#[test]
fn clicking_a_slot_and_beside_the_window() {
    let mut c = InventoryContext::new();
    assert_eq!(c.open_inventory(5, false), (false, None));
    let stones = item(Material::Stone, 10);
    let r = c.on_click(Some((3, Some(stones))), false, false, 64, 7);
    match r {
        ClickOutcome::Slot { packet, slot, item: new_item } => {
            assert_eq!(packet.window_id, 5);
            assert_eq!(packet.slot, 3);
            assert_eq!(packet.operation, InventoryOperation::RightClick);
            assert_eq!(packet.state_id, 7);
            assert_eq!(packet.stack, Some(stones.stack));
            assert_eq!(slot, 3);
            assert_eq!(new_item.unwrap().stack.count, 5);
        }
        _ => panic!("expected a slot click"),
    }
    assert_eq!(c.cursor.unwrap().stack.count, 5);
    assert!(c.dirty);

    let r = c.on_click(None, false, true, 64, 7);
    match r {
        ClickOutcome::Outside { packet } => {
            assert_eq!(packet.slot, OUTSIDE_SLOT);
            assert_eq!(packet.operation, InventoryOperation::RightClickOutside);
            assert_eq!(packet.stack.unwrap().count, 5);
        }
        _ => panic!("expected a click outside"),
    }
    assert_eq!(c.cursor.unwrap().stack.count, 4);

    let r = c.on_click(None, true, false, 64, 7);
    match r {
        ClickOutcome::Outside { packet } => {
            assert_eq!(packet.operation, InventoryOperation::LeftClickOutside);
            assert_eq!(packet.stack.unwrap().count, 4);
        }
        _ => panic!("expected a click outside"),
    }
    assert_eq!(c.cursor, None);
    assert_eq!(c.on_click(None, true, false, 64, 7), ClickOutcome::Nothing);
}

#[test]
fn shift_left_click_is_reported_as_such() {
    let mut c = InventoryContext::new();
    c.open_inventory(2, false);
    match c.on_click(Some((0, None)), true, true, 64, 0) {
        ClickOutcome::Slot { packet, item: new_item, .. } => {
            assert_eq!(packet.operation, InventoryOperation::ShiftLeftClick);
            assert_eq!(packet.stack, None);
            assert_eq!(new_item, None);
        }
        _ => panic!("expected a slot click"),
    }
}

#[test]
fn closing_throws_the_held_item() {
    let mut c = InventoryContext::new();
    c.open_inventory(5, false);
    c.set_cursor(Some(item(Material::Dirt, 1)));
    assert_eq!(c.try_close_inventory(false), (true, Some(5)));
    assert_eq!(c.cursor, None);
    assert!(!c.has_inv_open);
    assert_eq!(c.try_close_inventory(false), (false, None));

    c.open_inventory(6, false);
    assert_eq!(c.try_close_inventory(true), (true, None));

    c.open_inventory(8, false);
    assert_eq!(c.open_inventory(9, false), (true, Some(8)));
    assert_eq!(c.open_window, Some(9));
}

#[test]
fn confirmations_by_window() {
    let mut c = InventoryContext::new();
    assert_eq!(c.on_confirm_transaction(0, 0), ConfirmTarget::Player);
    assert_eq!(c.on_confirm_transaction(3, 0), ConfirmTarget::Nothing);
    c.open_inventory(7, false);
    assert_eq!(c.on_confirm_transaction(7, 0), ConfirmTarget::Open);
    assert_eq!(c.on_confirm_transaction(8, 0), ConfirmTarget::Mismatch { expected: 7 });
}

#[test]
fn beacon_panel_controls() {
    let mut p = BeaconPanel::new();
    for b in 1..=8 {
        assert_eq!(get_button_state(b, &p), ButtonState::Inactive);
    }
    assert_eq!(get_texture(9, &p), "minecraft:mob_effect/speed");
    assert_eq!(get_texture(14, &p), "minecraft:mob_effect/regeneration");
    assert_eq!(get_texture(15, &p), "");
    set_button_state(ButtonState::Focused, 3, &mut p);
    assert_eq!(get_button_state(3, &p), ButtonState::Focused);
    set_secondary_power("minecraft:mob_effect/haste".to_string(), &mut p);
    assert_eq!(get_texture(15, &p), "minecraft:mob_effect/haste");
    assert!(p.secondary_shown);
}

#[test]
fn beacon_choosing_and_confirming_an_effect() {
    let mut b = BeaconInventory::new(1);
    let mut p = BeaconPanel::new();
    assert_eq!(b.tick(&mut p, None), None);
    assert!(!b.dirty);
    for k in 1..=8 {
        assert_eq!(get_button_state(k, &p), ButtonState::Inactive);
    }

    b.handle_property_packet(0, 4);
    assert_eq!(b.tick(&mut p, None), None);
    for k in 1..=7 {
        assert_eq!(get_button_state(k, &p), ButtonState::Active);
    }
    assert_eq!(get_button_state(8, &p), ButtonState::Inactive);

    set_button_state(ButtonState::Pressed, 1, &mut p);
    assert_eq!(b.tick(&mut p, Some(Material::Diamond)), None);
    assert_eq!(b.info.effect1, Some(Effect::Speed));
    assert_eq!(b.info.effect2, None);
    assert_eq!(get_button_state(1, &p), ButtonState::Pressed);
    assert_eq!(get_button_state(2, &p), ButtonState::Active);
    assert_eq!(get_button_state(8, &p), ButtonState::Active);
    assert_eq!(get_texture(15, &p), "minecraft:mob_effect/speed");
    assert!(p.secondary_shown);

    set_button_state(ButtonState::Pressed, 6, &mut p);
    b.tick(&mut p, Some(Material::Diamond));
    assert_eq!(b.info.effect2, None);
    b.set_client_state_id(1);
    b.tick(&mut p, Some(Material::Diamond));
    assert_eq!(b.info.effect2, Some(Effect::Regeneration));
    assert_eq!(get_button_state(7, &p), ButtonState::Active);

    set_button_state(ButtonState::Pressed, 8, &mut p);
    assert_eq!(b.tick(&mut p, Some(Material::Diamond)), Some((1, 10)));
    assert_eq!(get_button_state(8, &p), ButtonState::Active);
}

#[test]
fn beacon_tick_is_inactive_without_payment() {
    let mut b = BeaconInventory::new(1);
    let mut p = BeaconPanel::new();
    b.handle_property_packet(0, 1);
    b.tick(&mut p, Some(Material::Stone));
    assert_eq!(get_button_state(1, &p), ButtonState::Active);
    assert_eq!(get_button_state(2, &p), ButtonState::Active);
    assert_eq!(get_button_state(3, &p), ButtonState::Inactive);
    assert_eq!(get_button_state(8, &p), ButtonState::Inactive);
}

#[test]
fn anvil_frames() {
    let mut a = AnvilInventory::new(1);
    a.handle_property_packet(0, 5);
    let t = a.tick(10, false, true, true, "sword");
    let (text, colour) = t.cost.unwrap();
    assert_eq!(text, "Cost: 5");
    assert_eq!(colour, (104, 176, 60, 255));
    assert_eq!(t.arrow_alpha, Some(0));
    assert_eq!(t.bar_cover_alpha, 0);
    assert_eq!(t.rename.as_deref(), Some("sword"));
    assert!(!t.clear_name);
    assert!(!a.dirty);

    let t = a.tick(10, false, true, true, "sword");
    assert!(t.cost.is_none());
    assert!(t.arrow_alpha.is_none());
    assert!(t.rename.is_none());

    a.set_client_state_id(3);
    let t = a.tick(1, false, false, true, "");
    let (_, colour) = t.cost.unwrap();
    assert_eq!(colour, (255, 50, 50, 255));
    assert_eq!(t.arrow_alpha, Some(255));
    assert_eq!(t.bar_cover_alpha, 255);
    assert!(t.clear_name);
    assert!(t.rename.is_none());
    assert!(!a.enough_level);

    a.set_client_state_id(4);
    let t = a.tick(1, true, false, false, "");
    let (_, colour) = t.cost.unwrap();
    assert_eq!(colour, (104, 176, 60, 255));
    assert_eq!(t.arrow_alpha, Some(255));
}

#[test]
fn scrolling_the_hotbar() {
    let mut c = InventoryContext::new();
    assert_eq!(c.scroll_hotbar(Scroll::Up), 8);
    assert_eq!(c.hotbar_index, 8);
    assert_eq!(c.scroll_hotbar(Scroll::Down), 0);
    assert_eq!(c.scroll_hotbar(Scroll::Down), 1);
    assert_eq!(c.scroll_hotbar(Scroll::Other), 1);
    for _ in 0..9 {
        c.scroll_hotbar(Scroll::Down);
    }
    assert_eq!(c.hotbar_index, 1);
}

#[test]
fn window_slot_layouts() {
    let a = anvil_layout();
    assert_eq!(a.size, (176, 166));
    assert_eq!(a.slots, vec![(0, (27, 47)), (1, (76, 47)), (2, (134, 47))]);
    assert_eq!(a.player_first, 3);
    assert_eq!(a.player_offset, (8, 84));
    assert_eq!(grindstone_layout().slots[2], (2, (129, 34)));
    assert_eq!(furnace_layout().slots[1], (1, (56, 53)));
    assert_eq!(brewing_stand_layout().player_first, 5);
    assert_eq!(enchanting_table_layout().slots.len(), 2);
    let b = beacon_layout();
    assert_eq!(b.size, (230, 219));
    assert_eq!(b.player_offset, (36, 137));

    let c = crafting_table_layout();
    assert_eq!(c.slots[0], (0, (124, 35)));
    assert_eq!(c.slots[1], (1, (30, 17)));
    assert_eq!(c.slots[2], (4, (30, 35)));
    assert_eq!(c.slots[4], (2, (48, 17)));
    assert_eq!(c.slots[9], (9, (66, 53)));
    assert_eq!(c.player_first, 10);

    let ch = chest_layout(3);
    assert_eq!(ch.size, (176, 3 * 18 + 17 + 96));
    assert_eq!(ch.slots.len(), 27);
    assert_eq!(ch.slots[0], (0, (8, 18)));
    assert_eq!(ch.slots[10], (10, (26, 36)));
    assert_eq!(ch.slots[26], (26, (152, 54)));
    assert_eq!(ch.player_first, 27);
    assert_eq!(ch.player_offset, (8, 3 * 18 + 17 + 14));
}

#[test]
fn player_inventory_window() {
    let old = PlayerInventory::new(Version::V1_8);
    let l = old.layout();
    assert_eq!(l.slots.len(), 9);
    assert_eq!(l.slots[0], (0, (154, 28)));
    assert_eq!(l.slots[8], (8, (8, 62)));
    assert_eq!(l.player_first, 9);
    let mut new = PlayerInventory::new(Version::V1_9);
    let l = new.layout();
    assert_eq!(l.slots.len(), 10);
    assert_eq!(l.slots[9], (45, (77, 62)));
    assert_eq!(new.id(), 0);
    new.set_client_state_id(4);
    assert_eq!(new.get_client_state_id(), 4);
    assert_eq!(new.ty(), InventoryType::Main);
}

#[test]
fn empty_hand_clicks_pick_up_and_split() {
    let mut c = InventoryContext::new();
    c.open_inventory(4, false);
    // A right click with an empty hand takes the larger half.
    match c.on_click(Some((2, Some(item(Material::Stone, 5)))), false, true, 64, 1) {
        ClickOutcome::Slot { packet, slot, item: left_in_slot } => {
            assert_eq!(packet.operation, InventoryOperation::ShiftRightClick);
            assert_eq!(slot, 2);
            assert_eq!(left_in_slot.unwrap().stack.count, 2);
        }
        _ => panic!("expected a slot click"),
    }
    assert_eq!(c.cursor.unwrap().stack.count, 3);
    // A left click with an empty hand takes the whole stack.
    c.set_cursor(None);
    match c.on_click(Some((6, Some(item(Material::Dirt, 9)))), true, false, 64, 1) {
        ClickOutcome::Slot { item: left_in_slot, .. } => assert_eq!(left_in_slot, None),
        _ => panic!("expected a slot click"),
    }
    assert_eq!(c.cursor, Some(item(Material::Dirt, 9)));
}

#[test]
fn different_items_swap_between_hand_and_slot() {
    let mut c = InventoryContext::new();
    c.open_inventory(4, false);
    c.set_cursor(Some(item(Material::Dirt, isize::MAX)));
    match c.on_click(Some((1, Some(item(Material::Stone, 10)))), true, false, 64, 0) {
        ClickOutcome::Slot { item: in_slot, .. } => {
            assert_eq!(in_slot, Some(item(Material::Dirt, isize::MAX)))
        }
        _ => panic!("expected a slot click"),
    }
    assert_eq!(c.cursor, Some(item(Material::Stone, 10)));
}

#[test]
fn left_click_beside_the_window_throws_any_stack() {
    let mut c = InventoryContext::new();
    c.open_inventory(4, false);
    c.set_cursor(Some(item(Material::Dirt, isize::MIN)));
    match c.on_click(None, true, false, 64, 0) {
        ClickOutcome::Outside { packet } => {
            assert_eq!(packet.stack.unwrap().count, isize::MIN)
        }
        _ => panic!("expected a click outside"),
    }
    assert_eq!(c.cursor, None);
}

#[test]
fn beacon_faces_of_any_element() {
    let mut p = BeaconPanel::new();
    // The background (element 0) and an icon (element 9) show no button face
    // until one is set on them; then it reads back.
    assert_eq!(p.faces[0], None);
    assert_eq!(p.faces[9], None);
    set_button_state(ButtonState::Pressed, 9, &mut p);
    assert_eq!(get_button_state(9, &p), ButtonState::Pressed);
    assert_eq!(get_texture(9, &p), "minecraft:mob_effect/speed");
    set_button_state(ButtonState::Focused, 0, &mut p);
    assert_eq!(get_button_state(0, &p), ButtonState::Focused);
    for b in 1..=8 {
        assert_eq!(get_button_state(b, &p), ButtonState::Inactive);
    }
    assert_eq!(get_texture(0, &p), "minecraft:gui/container/beacon");
    assert_eq!(get_texture(8, &p), "minecraft:gui/container/beacon");
    assert_eq!(get_texture(16, &p), "minecraft:gui/container/beacon");
    assert_eq!(get_texture(17, &p), "minecraft:item/netherite_ingot");
    assert_eq!(get_texture(21, &p), "minecraft:item/iron_ingot");
    // An element beyond the window's is left alone.
    set_button_state(ButtonState::Active, 22, &mut p);
    set_button_state(ButtonState::Active, 1000, &mut p);
    assert_eq!(p.faces.len(), 22);
}

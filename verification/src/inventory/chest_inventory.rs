use vstd::prelude::*;

use crate::console::text::text_eq;
use crate::inventory::InventoryType;

verus! {

pub const SLOT_SIZE: i32 = 18;

pub const INVENTORY_HEIGHT: i32 = 96;

/// The height in pixels of the chest part of the window.
pub fn chest_height(rows: u8) -> (h: i32)
    ensures
        h == rows as int * 18 + 17,
{
    rows as i32 * SLOT_SIZE + 17
}

/// The title a chest-like window shows for the name the server gave it: the
/// barrel's, chest's, large chest's and ender chest's translation keys are
/// written out, any other name is shown as it is.
pub open spec fn chest_title(name: Seq<char>) -> Seq<char> {
    if name == "container.barrel"@ {
        "Barrel"@
    } else if name == "container.chest"@ {
        "Chest"@
    } else if name == "container.chestDouble"@ {
        "Large Chest"@
    } else if name == "container.enderchest"@ {
        "Ender Chest"@
    } else {
        name
    }
}

/// The state of a chest window that is kept apart from its slots and drawing.
pub struct ChestInventory {
    pub name: String,
    pub rows: u8,
    pub id: i32,
    pub client_state_id: i16,
}

impl ChestInventory {
    pub fn new(rows: u8, name: String, id: i32) -> (r: Self)
        ensures
            r.rows == rows,
            r.name@ == name@,
            r.id == id,
            r.client_state_id == 0,
    {
        ChestInventory { name, rows, id, client_state_id: 0 }
    }

    /// The slot numbers at which the player's own inventory starts and ends
    /// (exclusive) in this window: right after the chest's slots.
    pub fn player_slot_range(&self) -> (r: (u16, u16))
        ensures
            r.0 == self.rows as int * 9,
            r.1 == self.rows as int * 9 + 36,
    {
        (self.rows as u16 * 9, self.rows as u16 * 9 + 36)
    }

    pub fn id(&self) -> (r: i32)
        ensures
            r == self.id,
    {
        self.id
    }

    pub fn get_client_state_id(&self) -> (r: i16)
        ensures
            r == self.client_state_id,
    {
        self.client_state_id
    }

    pub fn set_client_state_id(&mut self, client_state_id: i16)
        ensures
            final(self).client_state_id == client_state_id,
            final(self).id == old(self).id,
            final(self).rows == old(self).rows,
    {
        self.client_state_id = client_state_id;
    }

    pub fn ty(&self) -> (t: InventoryType)
        ensures
            t == InventoryType::Chest(self.rows),
    {
        InventoryType::Chest(self.rows)
    }

    /// The title shown at the top of the window (see `chest_title`).
    pub fn title(&self) -> (t: String)
        ensures
            t@ == chest_title(self.name@),
    {
        let name = self.name.as_str();
        if text_eq(name, "container.barrel") {
            String::from_str("Barrel")
        } else if text_eq(name, "container.chest") {
            String::from_str("Chest")
        } else if text_eq(name, "container.chestDouble") {
            String::from_str("Large Chest")
        } else if text_eq(name, "container.enderchest") {
            String::from_str("Ender Chest")
        } else {
            self.name.clone()
        }
    }
}

} // verus!

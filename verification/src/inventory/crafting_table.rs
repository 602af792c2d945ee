use vstd::prelude::*;

use crate::inventory::InventoryType;

verus! {

/// The state of a crafting table window that is kept apart from its slots and drawing.
pub struct CraftingTableInventory {
    pub client_state_id: i16,
    pub id: i32,
}

impl CraftingTableInventory {
    pub fn new(id: i32) -> (r: Self)
        ensures
            r.id == id,
            r.client_state_id == 0,
    {
        CraftingTableInventory { client_state_id: 0, id }
    }

    pub fn id(&self) -> (r: i32)
        ensures
            r == self.id,
    {
        self.id
    }

    pub fn get_client_state_id(&self) -> (r: i16)
        ensures
            r == self.client_state_id,
    {
        self.client_state_id
    }

    pub fn set_client_state_id(&mut self, client_state_id: i16)
        ensures
            final(self).client_state_id == client_state_id,
            final(self).id == old(self).id,
    {
        self.client_state_id = client_state_id;
    }

    pub fn ty(&self) -> (t: InventoryType)
        ensures
            t == InventoryType::CraftingTable,
    {
        InventoryType::CraftingTable
    }
}

} // verus!

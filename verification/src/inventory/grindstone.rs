use vstd::prelude::*;

use crate::inventory::InventoryType;

verus! {

/// The state of a grindstone window that is kept apart from its slots and drawing.
pub struct GrindStoneInventory {
    pub client_state_id: i16,
    pub id: i32,
    /// The window needs to be redrawn.
    pub dirty: bool,
}

impl GrindStoneInventory {
    pub fn new(id: i32) -> (r: Self)
        ensures
            r.id == id,
            r.client_state_id == 0,
            r.dirty,
    {
        GrindStoneInventory { client_state_id: 0, id, dirty: true }
    }

    /// The arrow is shown crossed out while something lies in an input slot
    /// and the output slot is empty.
    pub fn arrow_crossed(input0: bool, input1: bool, output: bool) -> (b: bool)
        ensures
            b == (!output && (input0 || input1)),
    {
        !output && (input0 || input1)
    }

    pub fn id(&self) -> (r: i32)
        ensures
            r == self.id,
    {
        self.id
    }

    pub fn get_client_state_id(&self) -> (r: i16)
        ensures
            r == self.client_state_id,
    {
        self.client_state_id
    }

    pub fn set_client_state_id(&mut self, client_state_id: i16)
        ensures
            final(self).client_state_id == client_state_id,
            final(self).id == old(self).id,
            final(self).dirty,
    {
        self.dirty = true;
        self.client_state_id = client_state_id;
    }

    pub fn ty(&self) -> (t: InventoryType)
        ensures
            t == InventoryType::Grindstone,
    {
        InventoryType::Grindstone
    }
}

} // verus!

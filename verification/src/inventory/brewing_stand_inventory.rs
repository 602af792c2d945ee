use vstd::prelude::*;

use crate::inventory::InventoryType;

verus! {

/// The state of a brewing stand window that is kept apart from its slots and drawing.
pub struct BrewingStandInventory {
    pub client_state_id: i16,
    pub name: String,
    pub id: i32,
    /// Ticks left of the current brewing.
    pub brew_time: u16,
    pub last_brew_time: u16,
    pub fuel_time: u8,
    /// The window needs to be redrawn.
    pub dirty: bool,
}

impl BrewingStandInventory {
    pub fn new(name: String, id: i32) -> (r: Self)
        ensures
            r.id == id,
            r.name@ == name@,
            r.client_state_id == 0,
            r.brew_time == 400,
            r.last_brew_time == 0,
            r.fuel_time == 0,
            r.dirty,
    {
        BrewingStandInventory {
            client_state_id: 0,
            name,
            id,
            brew_time: 400,
            last_brew_time: 0,
            fuel_time: 0,
            dirty: true,
        }
    }

    /// Takes in a window property sent by the server: property 0 is the brew
    /// time (the previous one is kept to animate the bubbles), property 1 the
    /// fuel; other properties are ignored.
    pub fn handle_property_packet(&mut self, property: i16, value: i16)
        ensures
            property == 0 ==> final(self).last_brew_time == old(self).brew_time
                && final(self).brew_time == value as u16 && final(self).fuel_time
                == old(self).fuel_time,
            property == 1 ==> final(self).fuel_time == value as u8 && final(self).brew_time
                == old(self).brew_time && final(self).last_brew_time == old(self).last_brew_time,
            property != 0 && property != 1 ==> final(self).fuel_time == old(self).fuel_time
                && final(self).brew_time == old(self).brew_time && final(self).last_brew_time
                == old(self).last_brew_time,
            final(self).dirty,
            final(self).id == old(self).id,
            final(self).client_state_id == old(self).client_state_id,
    {
        if property == 0 {
            self.last_brew_time = self.brew_time;
            self.brew_time = value as u16;
        } else if property == 1 {
            self.fuel_time = value as u8;
        }
        self.dirty = true;
    }

    pub fn id(&self) -> (r: i32)
        ensures
            r == self.id,
    {
        self.id
    }

    pub fn get_client_state_id(&self) -> (r: i16)
        ensures
            r == self.client_state_id,
    {
        self.client_state_id
    }

    pub fn set_client_state_id(&mut self, client_state_id: i16)
        ensures
            final(self).client_state_id == client_state_id,
            final(self).id == old(self).id,
            final(self).dirty,
            final(self).brew_time == old(self).brew_time,
            final(self).last_brew_time == old(self).last_brew_time,
            final(self).fuel_time == old(self).fuel_time,
    {
        self.dirty = true;
        self.client_state_id = client_state_id;
    }

    pub fn ty(&self) -> (t: InventoryType)
        ensures
            t == InventoryType::BrewingStand,
    {
        InventoryType::BrewingStand
    }
}

} // verus!

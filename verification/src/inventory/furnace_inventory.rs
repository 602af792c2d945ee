use vstd::prelude::*;

use crate::inventory::InventoryType;

verus! {

/// Progress of a furnace, in ticks.
#[derive(Clone, Copy, Debug, PartialEq, Eq, Structural)]
pub struct SmeltingState {
    pub remaining_burn_time: i16,
    pub max_burn_time: i16,
    pub current_progress: i16,
    pub max_progress: i16,
}

impl SmeltingState {
    /// Nothing burning and nothing smelting.
    pub fn new() -> (s: Self)
        ensures
            s.remaining_burn_time == 0,
            s.max_burn_time == 0,
            s.current_progress == 0,
            s.max_progress == 0,
    {
        SmeltingState {
            remaining_burn_time: 0,
            max_burn_time: 0,
            current_progress: 0,
            max_progress: 0,
        }
    }
}

/// The state of a furnace (or smoker, or blast furnace) window that is kept
/// apart from its slots and drawing.
pub struct FurnaceInventory {
    pub client_state_id: i16,
    pub ty: InventoryType,
    pub id: i32,
    pub smelting_state: SmeltingState,
}

impl FurnaceInventory {
    pub fn new(ty: InventoryType, id: i32) -> (r: Self)
        ensures
            r.id == id,
            r.ty == ty,
            r.client_state_id == 0,
            r.smelting_state == (SmeltingState {
                remaining_burn_time: 0,
                max_burn_time: 0,
                current_progress: 0,
                max_progress: 0,
            }),
    {
        FurnaceInventory { client_state_id: 0, ty, id, smelting_state: SmeltingState::new() }
    }

    /// Takes in a window property sent by the server: 0 the burn time left,
    /// 1 the full burn time, 2 the smelting progress, 3 the full progress;
    /// other properties are ignored.
    pub fn handle_property_packet(&mut self, property: i16, value: i16)
        ensures
            final(self).smelting_state == (if property == 0 {
                SmeltingState { remaining_burn_time: value, ..old(self).smelting_state }
            } else if property == 1 {
                SmeltingState { max_burn_time: value, ..old(self).smelting_state }
            } else if property == 2 {
                SmeltingState { current_progress: value, ..old(self).smelting_state }
            } else if property == 3 {
                SmeltingState { max_progress: value, ..old(self).smelting_state }
            } else {
                old(self).smelting_state
            }),
            final(self).id == old(self).id,
            final(self).ty == old(self).ty,
            final(self).client_state_id == old(self).client_state_id,
    {
        if property == 0 {
            self.smelting_state.remaining_burn_time = value;
        } else if property == 1 {
            self.smelting_state.max_burn_time = value;
        } else if property == 2 {
            self.smelting_state.current_progress = value;
        } else if property == 3 {
            self.smelting_state.max_progress = value;
        }
    }

    pub fn id(&self) -> (r: i32)
        ensures
            r == self.id,
    {
        self.id
    }

    pub fn get_client_state_id(&self) -> (r: i16)
        ensures
            r == self.client_state_id,
    {
        self.client_state_id
    }

    pub fn set_client_state_id(&mut self, client_state_id: i16)
        ensures
            final(self).client_state_id == client_state_id,
            final(self).id == old(self).id,
            final(self).ty == old(self).ty,
            final(self).smelting_state == old(self).smelting_state,
    {
        self.client_state_id = client_state_id;
    }

    /// The kind of furnace this window belongs to.
    pub fn ty(&self) -> (t: InventoryType)
        ensures
            t == self.ty,
    {
        self.ty
    }

    /// The title shown at the top of the window, which must be one of the
    /// three kinds of furnace.
    pub fn title(&self) -> (t: &'static str)
        requires
            self.ty is Furnace || self.ty is BlastFurnace || self.ty is Smoker,
        ensures
            t@ == (if self.ty is Furnace {
                "Furnace"@
            } else if self.ty is BlastFurnace {
                "Blast Furnace"@
            } else {
                "Smoker"@
            }),
    {
        match self.ty {
            InventoryType::Furnace => "Furnace",
            InventoryType::BlastFurnace => "Blast Furnace",
            _ => "Smoker",
        }
    }
}

} // verus!

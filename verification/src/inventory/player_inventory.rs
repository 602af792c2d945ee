use vstd::prelude::*;

use crate::inventory::layout::SlotLayout;
use crate::inventory::InventoryType;
use crate::version::{version_rank, Version};

verus! {

/// The state of the player's own inventory window that is kept apart from its
/// slots and drawing.
pub struct PlayerInventory {
    pub version: Version,
    pub client_state_id: i16,
}

/// The player's own slots besides the 36 shared with every window: the
/// crafting result, the 2 by 2 crafting grid and the four armour slots, and,
/// after 1.8, the off-hand slot.
pub open spec fn player_slots(version: Version) -> Seq<(u16, (i32, i32))> {
    let base = seq![
        (0u16, (154i32, 28i32)),
        (1u16, (98i32, 18i32)),
        (2u16, (116i32, 18i32)),
        (3u16, (98i32, 36i32)),
        (4u16, (116i32, 36i32)),
        (5u16, (8i32, 8i32)),
        (6u16, (8i32, 26i32)),
        (7u16, (8i32, 44i32)),
        (8u16, (8i32, 62i32)),
    ];
    if version_rank(version) > version_rank(Version::V1_8) {
        base.push((45u16, (77i32, 62i32)))
    } else {
        base
    }
}

impl PlayerInventory {
    pub fn new(version: Version) -> (r: Self)
        ensures
            r.version == version,
            r.client_state_id == 0,
    {
        PlayerInventory { version, client_state_id: 0 }
    }

    /// Where the player's inventory window draws its slots; the 36 shared
    /// slots take the ids from 9 on.
    pub fn layout(&self) -> (l: SlotLayout)
        ensures
            l.size == (176i32, 166i32),
            l.slots@ == player_slots(self.version),
            l.player_first == 9,
            l.player_offset == (8i32, 84i32),
    {
        let mut slots: Vec<(u16, (i32, i32))> = vec![
            (0, (154, 28)),
            (1, (98, 18)),
            (2, (116, 18)),
            (3, (98, 36)),
            (4, (116, 36)),
            (5, (8, 8)),
            (6, (8, 26)),
            (7, (8, 44)),
            (8, (8, 62)),
        ];
        if !self.version.is_before(Version::V1_8) && self.version != Version::V1_8 {
            slots.push((45, (77, 62)));
        }
        SlotLayout { size: (176, 166), slots, player_first: 9, player_offset: (8, 84) }
    }

    /// The player's inventory always has the window id 0.
    pub fn id(&self) -> (r: i32)
        ensures
            r == 0,
    {
        0
    }

    pub fn get_client_state_id(&self) -> (r: i16)
        ensures
            r == self.client_state_id,
    {
        self.client_state_id
    }

    pub fn set_client_state_id(&mut self, client_state_id: i16)
        ensures
            final(self).client_state_id == client_state_id,
            final(self).version == old(self).version,
    {
        self.client_state_id = client_state_id;
    }

    pub fn ty(&self) -> (t: InventoryType)
        ensures
            t == InventoryType::Main,
    {
        InventoryType::Main
    }
}

} // verus!

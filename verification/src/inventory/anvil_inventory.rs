use vstd::prelude::*;

use crate::console::text::{int_text, int_to_text, text_eq};
use crate::inventory::InventoryType;

verus! {

/// The state of an anvil window that is kept apart from its slots and drawing.
pub struct AnvilInventory {
    pub client_state_id: i16,
    pub id: i32,
    /// The item name last sent to the server.
    pub last_name: String,
    pub repair_cost: Option<u8>,
    pub enough_level: bool,
    /// The window needs to be redrawn.
    pub dirty: bool,
}

/// The text that shows the repair cost.
pub open spec fn cost_label(cost: Option<u8>) -> Seq<char> {
    match cost {
        Some(c) => "Cost: "@ + int_text(c as int),
        None => Seq::empty(),
    }
}

impl AnvilInventory {
    pub fn new(id: i32) -> (r: Self)
        ensures
            r.id == id,
            r.client_state_id == 0,
            r.last_name@ == Seq::<char>::empty(),
            r.repair_cost is None,
            !r.enough_level,
            r.dirty,
    {
        AnvilInventory {
            client_state_id: 0,
            id,
            last_name: String::new(),
            repair_cost: None,
            enough_level: false,
            dirty: true,
        }
    }

    /// Takes in a window property sent by the server: property 0 is the repair
    /// cost, where 0 means there is none; other properties are ignored.
    pub fn handle_property_packet(&mut self, property: i16, value: i16)
        ensures
            final(self).repair_cost == (if property == 0 {
                if value == 0 {
                    None
                } else {
                    Some(value as u8)
                }
            } else {
                old(self).repair_cost
            }),
            final(self).dirty,
            final(self).id == old(self).id,
            final(self).client_state_id == old(self).client_state_id,
            final(self).enough_level == old(self).enough_level,
            final(self).last_name == old(self).last_name,
    {
        if property == 0 {
            if value == 0 {
                self.repair_cost = None;
            } else {
                self.repair_cost = Some(value as u8);
            }
        }
        self.dirty = true;
    }

    /// The text that shows the repair cost: `Cost: n`, or nothing.
    pub fn cost_text(&self) -> (s: String)
        ensures
            s@ == cost_label(self.repair_cost),
    {
        match self.repair_cost {
            Some(cost) => {
                let mut s = String::from_str("Cost: ");
                let n = int_to_text(cost as i64);
                s.append(n.as_str());
                s
            },
            None => String::new(),
        }
    }

    /// Records whether the player's experience level pays the repair cost
    /// (no cost counts as zero) and returns it.
    pub fn update_enough_level(&mut self, exp_level: i32) -> (b: bool)
        ensures
            b == (exp_level >= match old(self).repair_cost {
                Some(c) => c as int,
                None => 0,
            }),
            final(self).enough_level == b,
            final(self).repair_cost == old(self).repair_cost,
            final(self).dirty == old(self).dirty,
            final(self).id == old(self).id,
            final(self).client_state_id == old(self).client_state_id,
            final(self).last_name == old(self).last_name,
    {
        let cost: i32 = match self.repair_cost {
            Some(c) => c as i32,
            None => 0,
        };
        self.enough_level = exp_level >= cost;
        self.enough_level
    }

    /// Takes the current text of the rename box; returns whether it differs
    /// from the name last sent, in which case it becomes the name to send.
    pub fn rename(&mut self, text: &str) -> (changed: bool)
        ensures
            changed == (text@ != old(self).last_name@),
            final(self).last_name@ == text@,
            final(self).repair_cost == old(self).repair_cost,
            final(self).dirty == old(self).dirty,
            final(self).enough_level == old(self).enough_level,
            final(self).id == old(self).id,
            final(self).client_state_id == old(self).client_state_id,
    {
        if !text_eq(text, self.last_name.as_str()) {
            self.last_name = String::from_str(text);
            true
        } else {
            false
        }
    }

    pub fn id(&self) -> (r: i32)
        ensures
            r == self.id,
    {
        self.id
    }

    pub fn get_client_state_id(&self) -> (r: i16)
        ensures
            r == self.client_state_id,
    {
        self.client_state_id
    }

    pub fn set_client_state_id(&mut self, client_state_id: i16)
        ensures
            final(self).client_state_id == client_state_id,
            final(self).id == old(self).id,
            final(self).dirty,
            final(self).repair_cost == old(self).repair_cost,
            final(self).enough_level == old(self).enough_level,
            final(self).last_name == old(self).last_name,
    {
        self.dirty = true;
        self.client_state_id = client_state_id;
    }

    pub fn ty(&self) -> (t: InventoryType)
        ensures
            t == InventoryType::Anvil,
    {
        InventoryType::Anvil
    }
}

/// The colour of the cost text when the player can pay (green) or not (red).
pub open spec fn cost_colour(can_pay: bool) -> (u8, u8, u8, u8) {
    if can_pay {
        (104, 176, 60, 255)
    } else {
        (255, 50, 50, 255)
    }
}

/// What a frame of the anvil window changes on screen and sends.
pub struct AnvilTick {
    /// When the window is redrawn: the cost text and its colour.
    pub cost: Option<(String, (u8, u8, u8, u8))>,
    /// When it changes: the alpha of the crossed-out arrow.
    pub arrow_alpha: Option<u8>,
    /// The alpha of the cover over the rename bar (0 shows the bar).
    pub bar_cover_alpha: u8,
    /// The name to send to the server, when the player changed it.
    pub rename: Option<String>,
    /// The rename box is to be emptied.
    pub clear_name: bool,
}

impl AnvilInventory {
    /// One frame of the anvil window (its slots are drawn apart).
    /// `exp_level` and `creative` are the player's level and mode,
    /// `has_input` and `has_output` whether the first and the result slot
    /// hold an item, `name_input` the text of the rename box. When the window
    /// is marked for redrawing, the cost is shown, green where the player can
    /// pay (or is in creative mode) and red otherwise, and the arrow is
    /// crossed out where a result is shown that cannot be paid. The rename
    /// bar shows while the first slot holds an item, and a changed name is
    /// sent; otherwise the box is emptied. The mark is cleared.
    pub fn tick(
        &mut self,
        exp_level: i32,
        creative: bool,
        has_input: bool,
        has_output: bool,
        name_input: &str,
    ) -> (t: AnvilTick)
        ensures
            !final(self).dirty,
            final(self).id == old(self).id,
            final(self).client_state_id == old(self).client_state_id,
            final(self).repair_cost == old(self).repair_cost,
            ({
                let enough = exp_level >= match old(self).repair_cost {
                    Some(c) => c as int,
                    None => 0,
                };
                let can_pay = enough || creative;
                &&& old(self).dirty ==> {
                    &&& t.cost matches Some((text, colour)) && text@ == cost_label(
                        old(self).repair_cost,
                    ) && colour == cost_colour(can_pay)
                    &&& final(self).enough_level == enough
                    &&& t.arrow_alpha == (if can_pay {
                        Some(if has_output {
                            0u8
                        } else {
                            255u8
                        })
                    } else if has_output {
                        Some(255u8)
                    } else {
                        None
                    })
                }
                &&& !old(self).dirty ==> t.cost is None && t.arrow_alpha is None
                    && final(self).enough_level == old(self).enough_level
            }),
            has_input ==> {
                &&& t.bar_cover_alpha == 0
                &&& !t.clear_name
                &&& final(self).last_name@ == name_input@
                &&& if name_input@ != old(self).last_name@ {
                    t.rename is Some && t.rename->0@ == name_input@
                } else {
                    t.rename is None
                }
            },
            !has_input ==> t.bar_cover_alpha == 255 && t.clear_name && t.rename is None
                && final(self).last_name == old(self).last_name,
    {
        let mut cost: Option<(String, (u8, u8, u8, u8))> = None;
        let mut arrow_alpha: Option<u8> = None;
        if self.dirty {
            let text = self.cost_text();
            let enough = self.update_enough_level(exp_level);
            if enough || creative {
                cost = Some((text, (104, 176, 60, 255)));
                arrow_alpha = Some(
                    if has_output {
                        0
                    } else {
                        255
                    },
                );
            } else {
                cost = Some((text, (255, 50, 50, 255)));
                if has_output {
                    arrow_alpha = Some(255);
                }
            }
        }
        let mut rename: Option<String> = None;
        let bar_cover_alpha: u8;
        let clear_name: bool;
        if has_input {
            bar_cover_alpha = 0;
            clear_name = false;
            if self.rename(name_input) {
                rename = Some(String::from_str(name_input));
            }
        } else {
            bar_cover_alpha = 255;
            clear_name = true;
        }
        self.dirty = false;
        AnvilTick { cost, arrow_alpha, bar_cover_alpha, rename, clear_name }
    }
}

} // verus!

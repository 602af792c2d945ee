use vstd::prelude::*;

use crate::inventory::{click_in_range, click_result, simulate_click, Item, Stack};

verus! {

/// The kinds of clicks the client reports to the server.
#[derive(Clone, Copy, Debug, PartialEq, Eq, Structural)]
pub enum InventoryOperation {
    LeftClick,
    ShiftLeftClick,
    RightClick,
    ShiftRightClick,
    LeftClickOutside,
    RightClickOutside,
}

/// The operation reported for a click on a slot.
pub open spec fn slot_operation(left: bool, shift: bool) -> InventoryOperation {
    if left {
        if shift {
            InventoryOperation::ShiftLeftClick
        } else {
            InventoryOperation::LeftClick
        }
    } else if shift {
        InventoryOperation::ShiftRightClick
    } else {
        InventoryOperation::RightClick
    }
}

/// The `k`-th slot added to the player's own slots that every window shows:
/// first a 9 by 3 grid, column by column, then the 9 slots of the hotbar. Each
/// is its slot id and the offset at which it is drawn.
pub open spec fn base_slot_entry(k: int) -> (u16, (i32, i32)) {
    if k < 27 {
        let x = k / 3;
        let y = k % 3;
        ((x + y * 9) as u16, ((x * 18) as i32, (y * 18) as i32))
    } else {
        (k as u16, (((k - 27) * 18) as i32, 58i32))
    }
}

/// The player's own slots that every window shows, in the order they are
/// added (see `base_slot_entry`).
pub fn base_slot_layout() -> (v: Vec<(u16, (i32, i32))>)
    ensures
        v@.len() == 36,
        forall|k: int| 0 <= k < 36 ==> #[trigger] v@[k] == base_slot_entry(k),
{
    let mut v: Vec<(u16, (i32, i32))> = Vec::new();
    let mut x: u16 = 0;
    while x < 9
        invariant
            x <= 9,
            v@.len() == 3 * x,
            forall|k: int| 0 <= k < v@.len() ==> #[trigger] v@[k] == base_slot_entry(k),
        decreases 9 - x,
    {
        let mut y: u16 = 0;
        while y < 3
            invariant
                x < 9,
                y <= 3,
                v@.len() == 3 * x + y,
                forall|k: int| 0 <= k < v@.len() ==> #[trigger] v@[k] == base_slot_entry(k),
            decreases 3 - y,
        {
            proof {
                let k = (3 * x + y) as int;
                assert(k / 3 == x as int && k % 3 == y as int);
            }
            v.push((x + y * 9, ((x as i32) * 18, (y as i32) * 18)));
            y = y + 1;
        }
        x = x + 1;
    }
    let mut h: u16 = 0;
    while h < 9
        invariant
            h <= 9,
            v@.len() == 27 + h,
            forall|k: int| 0 <= k < v@.len() ==> #[trigger] v@[k] == base_slot_entry(k),
        decreases 9 - h,
    {
        v.push((h + 27, ((h as i32) * 18, 58)));
        h = h + 1;
    }
    v
}

/// The slot number the server reads as a click outside the window.
pub const OUTSIDE_SLOT: i16 = -999;

/// A click as the client reports it to the server: the window, the slot, the
/// kind of click, the window's state id and the stack the slot held.
#[derive(Clone, Copy, Debug, PartialEq, Eq, Structural)]
pub struct ClickPacket {
    pub window_id: u8,
    pub slot: i16,
    pub operation: InventoryOperation,
    pub state_id: u16,
    pub stack: Option<Stack>,
}

/// What a click does besides changing the cursor: nothing, a click on a slot
/// (report it and put `item` in slot `slot`), or a click outside the window
/// (report it).
#[derive(Clone, Copy, Debug, PartialEq, Eq, Structural)]
pub enum ClickOutcome {
    Nothing,
    Slot { packet: ClickPacket, slot: u16, item: Option<Item> },
    Outside { packet: ClickPacket },
}

/// The window a transaction confirmation is for: the player's own
/// inventory, the open window, or an open window with another id (the
/// confirmation is then ignored).
#[derive(Clone, Copy, Debug, PartialEq, Eq, Structural)]
pub enum ConfirmTarget {
    Player,
    Open,
    Mismatch { expected: i32 },
    Nothing,
}

pub open spec fn stack_of(i: Option<Item>) -> Option<Stack> {
    match i {
        Some(x) => Some(x.stack),
        None => None,
    }
}

/// Which way the mouse wheel turned: down (the next slot), up (the previous
/// one), or by another amount (no change).
#[derive(Clone, Copy, Debug, PartialEq, Eq, Structural)]
pub enum Scroll {
    Down,
    Up,
    Other,
}

/// The hotbar slot selected after scrolling from `current`: the nine slots
/// are walked round in a ring.
pub open spec fn scrolled_slot(current: u8, scroll: Scroll) -> u8 {
    match scroll {
        Scroll::Down => if current == 8 {
            0
        } else {
            (current + 1) as u8
        },
        Scroll::Up => if current == 0 {
            8
        } else {
            (current - 1) as u8
        },
        Scroll::Other => current,
    }
}

/// What the inventory screens keep between events, apart from what they draw:
/// the item held by the cursor, the selected hotbar slot, whether a window is
/// open and its id, and whether the screen must be redrawn.
pub struct InventoryContext {
    pub cursor: Option<Item>,
    pub hotbar_index: u8,
    pub has_inv_open: bool,
    pub open_window: Option<i32>,
    pub dirty: bool,
}

impl InventoryContext {
    pub fn new() -> (c: Self)
        ensures
            c.cursor is None,
            c.hotbar_index == 0,
            !c.has_inv_open,
            c.open_window is None,
            !c.dirty,
    {
        InventoryContext {
            cursor: None,
            hotbar_index: 0,
            has_inv_open: false,
            open_window: None,
            dirty: false,
        }
    }

    /// Closes the open window, if one is open: the held item is thrown and,
    /// unless the server closed the window itself, the id of the window to
    /// report as closed is returned beside `true`.
    pub fn try_close_inventory(&mut self, server_forced: bool) -> (r: (bool, Option<u8>))
        ensures
            r.0 == old(self).has_inv_open,
            r.0 ==> {
                &&& !final(self).has_inv_open
                &&& final(self).open_window is None
                &&& final(self).cursor is None
                &&& r.1 == (match old(self).open_window {
                    Some(w) => if server_forced {
                        None
                    } else {
                        Some(w as u8)
                    },
                    None => None,
                })
            },
            !r.0 ==> r.1 is None && *final(self) == *old(self),
            final(self).hotbar_index == old(self).hotbar_index,
            final(self).dirty == old(self).dirty,
    {
        if self.has_inv_open {
            self.has_inv_open = false;
            let mut close: Option<u8> = None;
            if let Some(w) = self.open_window {
                self.open_window = None;
                if !server_forced {
                    close = Some(w as u8);
                }
            }
            self.cursor = None;
            return (true, close);
        }
        (false, None)
    }

    /// Opens the window `window_id`, first closing the one open (see
    /// `try_close_inventory`, whose result is returned).
    pub fn open_inventory(&mut self, window_id: i32, server_forced: bool) -> (r: (bool, Option<u8>))
        ensures
            r.0 == old(self).has_inv_open,
            r.1 == (if old(self).has_inv_open && !server_forced {
                match old(self).open_window {
                    Some(w) => Some(w as u8),
                    None => None,
                }
            } else {
                None
            }),
            final(self).has_inv_open,
            final(self).open_window == Some(window_id),
            final(self).cursor == (if old(self).has_inv_open {
                None
            } else {
                old(self).cursor
            }),
            final(self).hotbar_index == old(self).hotbar_index,
            final(self).dirty == old(self).dirty,
    {
        let r = self.try_close_inventory(server_forced);
        self.open_window = Some(window_id);
        self.has_inv_open = true;
        r
    }

    /// Handles a click. `slot` is the slot under the mouse, if any, with the
    /// item it holds; `max_stack` the stack size of that item's material;
    /// `state_id` the open window's state id. With no window open nothing
    /// happens. A click on a slot is reported with the
    /// item the slot held and moves items between cursor and slot (see
    /// `click_result`); a click beside the window with an item held reports it
    /// and throws the item (a right click only throws one of it).
    pub fn on_click(
        &mut self,
        slot: Option<(u16, Option<Item>)>,
        left: bool,
        shift: bool,
        max_stack: u8,
        state_id: i16,
    ) -> (r: ClickOutcome)
        requires
            slot matches Some((s, item)) ==> click_in_range(old(self).cursor, item, left),
            slot is None && old(self).cursor is Some && !left ==> old(self).cursor->0.stack.count
                > isize::MIN,
        ensures
            final(self).has_inv_open == old(self).has_inv_open,
            final(self).open_window == old(self).open_window,
            final(self).hotbar_index == old(self).hotbar_index,
            old(self).open_window is None ==> r == ClickOutcome::Nothing && *final(self) == *old(
                self,
            ),
            old(self).open_window is Some ==> ({
                let w = old(self).open_window->0;
                match slot {
                    Some((s, item)) => {
                        let (c, i) = click_result(old(self).cursor, item, left, max_stack);
                        &&& r == ClickOutcome::Slot {
                            packet: ClickPacket {
                                window_id: w as u8,
                                slot: s as i16,
                                operation: slot_operation(left, shift),
                                state_id: state_id as u16,
                                stack: stack_of(item),
                            },
                            slot: s,
                            item: i,
                        }
                        &&& final(self).cursor == c
                        &&& final(self).dirty
                    },
                    None => match old(self).cursor {
                        Some(c) => {
                            &&& r == ClickOutcome::Outside {
                                packet: ClickPacket {
                                    window_id: w as u8,
                                    slot: OUTSIDE_SLOT,
                                    operation: if left {
                                        InventoryOperation::LeftClickOutside
                                    } else {
                                        InventoryOperation::RightClickOutside
                                    },
                                    state_id: state_id as u16,
                                    stack: Some(c.stack),
                                },
                            }
                            &&& final(self).cursor == (if left {
                                None
                            } else {
                                Some(Item { stack: Stack { count: (c.stack.count - 1) as isize, ..c.stack }, ..c })
                            })
                            &&& final(self).dirty
                        },
                        None => r == ClickOutcome::Nothing && final(self).cursor is None
                            && final(self).dirty == old(self).dirty,
                    },
                }
            }),
    {
        let w = match self.open_window {
            Some(w) => w,
            None => {
                return ClickOutcome::Nothing;
            },
        };
        match slot {
            Some((s, item)) => {
                self.dirty = true;
                let operation = if left {
                    if shift {
                        InventoryOperation::ShiftLeftClick
                    } else {
                        InventoryOperation::LeftClick
                    }
                } else {
                    if shift {
                        InventoryOperation::ShiftRightClick
                    } else {
                        InventoryOperation::RightClick
                    }
                };
                let packet = ClickPacket {
                    window_id: w as u8,
                    slot: s as i16,
                    operation,
                    state_id: state_id as u16,
                    stack: match item {
                        Some(x) => Some(x.stack),
                        None => None,
                    },
                };
                let (c, i) = simulate_click(self.cursor, item, left, max_stack);
                self.cursor = c;
                ClickOutcome::Slot { packet, slot: s, item: i }
            },
            None => match self.cursor {
                Some(cursor) => {
                    self.cursor = None;
                    if !left {
                        let mut held = cursor;
                        held.stack.count = held.stack.count - 1;
                        self.cursor = Some(held);
                    }
                    self.dirty = true;
                    let packet = ClickPacket {
                        window_id: w as u8,
                        slot: OUTSIDE_SLOT,
                        operation: if left {
                            InventoryOperation::LeftClickOutside
                        } else {
                            InventoryOperation::RightClickOutside
                        },
                        state_id: state_id as u16,
                        stack: Some(cursor.stack),
                    };
                    ClickOutcome::Outside { packet }
                },
                None => ClickOutcome::Nothing,
            },
        }
    }

    /// Puts an item in the cursor's hand.
    pub fn set_cursor(&mut self, cursor: Option<Item>)
        ensures
            final(self).cursor == cursor,
            final(self).dirty,
            final(self).has_inv_open == old(self).has_inv_open,
            final(self).open_window == old(self).open_window,
            final(self).hotbar_index == old(self).hotbar_index,
    {
        self.cursor = cursor;
        self.dirty = true;
    }

    /// The window whose state id a transaction confirmation for window `id`
    /// sets: the player's inventory (window `player_window`) first, then the
    /// open window when the ids agree.
    pub fn on_confirm_transaction(&self, id: u8, player_window: i32) -> (t: ConfirmTarget)
        ensures
            t == (if id as i32 == player_window {
                ConfirmTarget::Player
            } else {
                match self.open_window {
                    Some(w) => if id as i32 != w {
                        ConfirmTarget::Mismatch { expected: w }
                    } else {
                        ConfirmTarget::Open
                    },
                    None => ConfirmTarget::Nothing,
                }
            }),
    {
        if id as i32 == player_window {
            ConfirmTarget::Player
        } else if let Some(w) = self.open_window {
            if id as i32 != w {
                ConfirmTarget::Mismatch { expected: w }
            } else {
                ConfirmTarget::Open
            }
        } else {
            ConfirmTarget::Nothing
        }
    }

    /// Selects the hotbar slot after scrolling and returns it, to be reported
    /// to the server.
    pub fn scroll_hotbar(&mut self, scroll: Scroll) -> (slot: u8)
        requires
            scroll == Scroll::Down ==> old(self).hotbar_index < 255,
        ensures
            slot == scrolled_slot(old(self).hotbar_index, scroll),
            final(self).hotbar_index == slot,
            final(self).cursor == old(self).cursor,
            final(self).has_inv_open == old(self).has_inv_open,
            final(self).open_window == old(self).open_window,
            final(self).dirty == old(self).dirty,
    {
        let curr = self.hotbar_index;
        let slot = match scroll {
            Scroll::Down => if curr == 8 {
                0
            } else {
                curr + 1
            },
            Scroll::Up => if curr == 0 {
                8
            } else {
                curr - 1
            },
            Scroll::Other => curr,
        };
        self.hotbar_index = slot;
        slot
    }
}

/// The slot selected after `n` turns of the wheel the same way.
pub open spec fn scrolled_times(current: u8, scroll: Scroll, n: nat) -> u8
    decreases n,
{
    if n == 0 {
        current
    } else {
        scrolled_slot(scrolled_times(current, scroll, (n - 1) as nat), scroll)
    }
}

/// Scrolling keeps the selected slot among the nine of the hotbar, and nine
/// turns the same way come back to the slot they started from.
pub proof fn law_scrolling_stays_in_hotbar(current: u8, scroll: Scroll)
    requires
        current < 9,
    ensures
        scrolled_slot(current, scroll) < 9,
        scrolled_times(current, scroll, 9) == current,
{
    reveal_with_fuel(scrolled_times, 10);
}

} // verus!

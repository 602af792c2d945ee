use vstd::prelude::*;

use crate::inventory::chest_inventory::chest_height;

verus! {

/// Where a window draws its slots: the window's size, its own slots with the
/// offset at which each is drawn (in the order they are added), and the
/// player's 36 slots, which take the ids from `player_first` on and are drawn
/// from `player_offset`.
pub struct SlotLayout {
    pub size: (i32, i32),
    pub slots: Vec<(u16, (i32, i32))>,
    pub player_first: u16,
    pub player_offset: (i32, i32),
}

/// The size of most windows.
pub open spec fn standard_size() -> (i32, i32) {
    (176, 166)
}

fn layout(
    size: (i32, i32),
    slots: Vec<(u16, (i32, i32))>,
    player_first: u16,
    player_offset: (i32, i32),
) -> (l: SlotLayout)
    ensures
        l.size == size,
        l.slots@ == slots@,
        l.player_first == player_first,
        l.player_offset == player_offset,
{
    SlotLayout { size, slots, player_first, player_offset }
}

/// The anvil: two inputs and the result.
pub fn anvil_layout() -> (l: SlotLayout)
    ensures
        l.size == standard_size(),
        l.slots@ == seq![(0u16, (27i32, 47i32)), (1u16, (76i32, 47i32)), (2u16, (134i32, 47i32))],
        l.player_first == 3,
        l.player_offset == (8i32, 84i32),
{
    layout((176, 166), vec![(0, (27, 47)), (1, (76, 47)), (2, (134, 47))], 3, (8, 84))
}

/// The grindstone: two inputs and the result.
pub fn grindstone_layout() -> (l: SlotLayout)
    ensures
        l.size == standard_size(),
        l.slots@ == seq![(0u16, (49i32, 19i32)), (1u16, (49i32, 40i32)), (2u16, (129i32, 34i32))],
        l.player_first == 3,
        l.player_offset == (8i32, 84i32),
{
    layout((176, 166), vec![(0, (49, 19)), (1, (49, 40)), (2, (129, 34))], 3, (8, 84))
}

/// A furnace, smoker or blast furnace: input, fuel and result.
pub fn furnace_layout() -> (l: SlotLayout)
    ensures
        l.size == standard_size(),
        l.slots@ == seq![(0u16, (56i32, 17i32)), (1u16, (56i32, 53i32)), (2u16, (116i32, 35i32))],
        l.player_first == 3,
        l.player_offset == (8i32, 84i32),
{
    layout((176, 166), vec![(0, (56, 17)), (1, (56, 53)), (2, (116, 35))], 3, (8, 84))
}

/// The brewing stand: three bottles, the ingredient and the fuel.
pub fn brewing_stand_layout() -> (l: SlotLayout)
    ensures
        l.size == standard_size(),
        l.slots@ == seq![
            (0u16, (56i32, 51i32)),
            (1u16, (79i32, 58i32)),
            (2u16, (102i32, 51i32)),
            (3u16, (79i32, 17i32)),
            (4u16, (17i32, 17i32)),
        ],
        l.player_first == 5,
        l.player_offset == (8i32, 84i32),
{
    layout(
        (176, 166),
        vec![(0, (56, 51)), (1, (79, 58)), (2, (102, 51)), (3, (79, 17)), (4, (17, 17))],
        5,
        (8, 84),
    )
}

/// The enchanting table: the item and the lapis.
pub fn enchanting_table_layout() -> (l: SlotLayout)
    ensures
        l.size == standard_size(),
        l.slots@ == seq![(0u16, (15i32, 47i32)), (1u16, (35i32, 47i32))],
        l.player_first == 2,
        l.player_offset == (8i32, 84i32),
{
    layout((176, 166), vec![(0, (15, 47)), (1, (35, 47))], 2, (8, 84))
}

/// The beacon: the payment, in a larger window.
pub fn beacon_layout() -> (l: SlotLayout)
    ensures
        l.size == (230i32, 219i32),
        l.slots@ == seq![(0u16, (136i32, 110i32))],
        l.player_first == 1,
        l.player_offset == (36i32, 137i32),
{
    layout((230, 219), vec![(0, (136, 110))], 1, (36, 137))
}

/// The `k`-th slot the crafting table adds: first the result, then the 3 by
/// 3 grid column by column.
pub open spec fn crafting_entry(k: int) -> (u16, (i32, i32)) {
    if k == 0 {
        (0u16, (124i32, 35i32))
    } else {
        let x = (k - 1) / 3;
        let y = (k - 1) % 3;
        ((1 + x + y * 3) as u16, ((30 + x * 18) as i32, (17 + y * 18) as i32))
    }
}

/// The crafting table: the result and the 3 by 3 grid.
pub fn crafting_table_layout() -> (l: SlotLayout)
    ensures
        l.size == standard_size(),
        l.slots@.len() == 10,
        forall|k: int| 0 <= k < 10 ==> #[trigger] l.slots@[k] == crafting_entry(k),
        l.player_first == 10,
        l.player_offset == (8i32, 84i32),
{
    let mut slots: Vec<(u16, (i32, i32))> = Vec::new();
    slots.push((0, (124, 35)));
    let mut x: i32 = 0;
    while x < 3
        invariant
            0 <= x <= 3,
            slots@.len() == 1 + 3 * x,
            forall|k: int| 0 <= k < slots@.len() ==> #[trigger] slots@[k] == crafting_entry(k),
        decreases 3 - x,
    {
        let mut y: i32 = 0;
        while y < 3
            invariant
                0 <= x < 3,
                0 <= y <= 3,
                slots@.len() == 1 + 3 * x + y,
                forall|k: int| 0 <= k < slots@.len() ==> #[trigger] slots@[k] == crafting_entry(k),
            decreases 3 - y,
        {
            proof {
                let k = 1 + 3 * x + y;
                assert((k - 1) / 3 == x as int && (k - 1) % 3 == y as int);
            }
            slots.push(((1 + x + y * 3) as u16, (30 + x * 18, 17 + y * 18)));
            y = y + 1;
        }
        x = x + 1;
    }
    layout((176, 166), slots, 10, (8, 84))
}

/// The `k`-th slot a chest adds: row by row, nine to a row.
pub open spec fn chest_entry(k: int) -> (u16, (i32, i32)) {
    (k as u16, ((8 + (k % 9) * 18) as i32, ((k / 9 + 1) * 18) as i32))
}

/// A chest of `rows` rows: nine slots to a row, the player's slots below.
pub fn chest_layout(rows: u8) -> (l: SlotLayout)
    ensures
        l.size == (176i32, (rows * 18 + 17 + 96) as i32),
        l.slots@.len() == rows * 9,
        forall|k: int| 0 <= k < rows * 9 ==> #[trigger] l.slots@[k] == chest_entry(k),
        l.player_first == rows * 9,
        l.player_offset == (8i32, (rows * 18 + 17 + 14) as i32),
{
    let mut slots: Vec<(u16, (i32, i32))> = Vec::new();
    let mut y: i32 = 0;
    while y < rows as i32
        invariant
            0 <= y <= rows,
            slots@.len() == 9 * y,
            forall|k: int| 0 <= k < slots@.len() ==> #[trigger] slots@[k] == chest_entry(k),
        decreases rows - y,
    {
        let mut x: i32 = 0;
        while x < 9
            invariant
                0 <= y < rows,
                0 <= x <= 9,
                slots@.len() == 9 * y + x,
                forall|k: int| 0 <= k < slots@.len() ==> #[trigger] slots@[k] == chest_entry(k),
            decreases 9 - x,
        {
            proof {
                let k = 9 * y + x;
                assert(k % 9 == x as int && k / 9 == y as int);
            }
            slots.push(((x + y * 9) as u16, (8 + x * 18, (y + 1) * 18)));
            x = x + 1;
        }
        y = y + 1;
    }
    let h = chest_height(rows);
    layout((176, h + 96), slots, rows as u16 * 9, (8, h + 14))
}

} // verus!

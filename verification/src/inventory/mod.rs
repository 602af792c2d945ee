use vstd::prelude::*;

pub mod anvil_inventory;
pub mod beacon_inventory;
pub mod brewing_stand_inventory;
pub mod chest_inventory;
pub mod context;
pub mod crafting_table;
pub mod enchanting_table_inventory;
pub mod furnace_inventory;
pub mod grindstone;
pub mod layout;
pub mod material;
pub mod player_inventory;

pub use crate::inventory::material::Material;
use crate::inventory::material::material_name;
use crate::console::text::{push_char, text_eq};
use crate::version::{version_rank, Version};

verus! {

// ---------------------------------------------------------------------------
// Kinds of inventory windows.
// ---------------------------------------------------------------------------

#[derive(Clone, Copy, Debug, PartialEq, Eq, Structural)]
pub enum InventoryType {
    /// For internal use only.
    Internal,
    Main,
    /// A chest with the given number of rows.
    Chest(u8),
    /// Dropper and dispenser.
    Dropper,
    Anvil,
    Beacon,
    BlastFurnace,
    BrewingStand,
    CraftingTable,
    EnchantingTable,
    Furnace,
    Grindstone,
    Hopper,
    Lectern,
    Loom,
    Merchant,
    ShulkerBox,
    SmithingTable,
    Smoker,
    CartographyTable,
    Stonecutter,
    Horse,
}

/// The window type with the given number in the 1.16 numbering.
pub open spec fn inventory_type_of_id(id: int) -> Option<InventoryType> {
    if 0 <= id <= 5 {
        Some(InventoryType::Chest((1 + id) as u8))
    } else if id == 6 {
        Some(InventoryType::Dropper)
    } else if id == 7 {
        Some(InventoryType::Anvil)
    } else if id == 8 {
        Some(InventoryType::Beacon)
    } else if id == 9 {
        Some(InventoryType::BlastFurnace)
    } else if id == 10 {
        Some(InventoryType::BrewingStand)
    } else if id == 11 {
        Some(InventoryType::CraftingTable)
    } else if id == 12 {
        Some(InventoryType::EnchantingTable)
    } else if id == 13 {
        Some(InventoryType::Furnace)
    } else if id == 14 {
        Some(InventoryType::Grindstone)
    } else if id == 15 {
        Some(InventoryType::Hopper)
    } else if id == 16 {
        Some(InventoryType::Lectern)
    } else if id == 17 {
        Some(InventoryType::Loom)
    } else if id == 18 {
        Some(InventoryType::Merchant)
    } else if id == 19 {
        Some(InventoryType::ShulkerBox)
    } else if id == 20 {
        Some(InventoryType::SmithingTable)
    } else if id == 21 {
        Some(InventoryType::Smoker)
    } else if id == 22 {
        Some(InventoryType::CartographyTable)
    } else if id == 23 {
        Some(InventoryType::Stonecutter)
    } else {
        None
    }
}

/// The window type named by `name` in the 1.8 to 1.13 protocol.
pub open spec fn inventory_type_of_name(name: Seq<char>, slot_count: u8) -> Option<InventoryType> {
    if name == "minecraft:anvil"@ {
        Some(InventoryType::Anvil)
    } else if name == "minecraft:beacon"@ {
        Some(InventoryType::Beacon)
    } else if name == "minecraft:brewing_stand"@ {
        Some(InventoryType::BrewingStand)
    } else if name == "minecraft:chest"@ || name == "minecraft:container"@ {
        if slot_count % 9 != 0 {
            None
        } else {
            Some(InventoryType::Chest(slot_count / 9))
        }
    } else if name == "minecraft:crafting_table"@ {
        Some(InventoryType::CraftingTable)
    } else if name == "minecraft:dispenser"@ {
        Some(InventoryType::Dropper)
    } else if name == "minecraft:dropper"@ {
        Some(InventoryType::Dropper)
    } else if name == "minecraft:enchanting_table"@ {
        Some(InventoryType::EnchantingTable)
    } else if name == "minecraft:furnace"@ {
        Some(InventoryType::Furnace)
    } else if name == "minecraft:hopper"@ {
        Some(InventoryType::Hopper)
    } else if name == "minecraft:shulker_box"@ {
        Some(InventoryType::ShulkerBox)
    } else {
        None
    }
}

impl InventoryType {
    /// The window type with number `id` (the numbering used from 1.14 on).
    /// Before 1.16 there is no smithing table, so the numbers above 19 are
    /// shifted by one.
    pub fn from_id(version: Version, id: i32) -> (r: Option<Self>)
        requires
            !(version_rank(version) < version_rank(Version::V1_16) && id == i32::MAX),
        ensures
            r == inventory_type_of_id(
                if version_rank(version) < version_rank(Version::V1_16) && id > 19 {
                    id + 1
                } else {
                    id as int
                },
            ),
    {
        let mut id = id;
        if version.is_before(Version::V1_16) && id > 19 {
            id = id + 1;
        }
        if 0 <= id && id <= 5 {
            Some(InventoryType::Chest((1 + id) as u8))
        } else if id == 6 {
            Some(InventoryType::Dropper)
        } else if id == 7 {
            Some(InventoryType::Anvil)
        } else if id == 8 {
            Some(InventoryType::Beacon)
        } else if id == 9 {
            Some(InventoryType::BlastFurnace)
        } else if id == 10 {
            Some(InventoryType::BrewingStand)
        } else if id == 11 {
            Some(InventoryType::CraftingTable)
        } else if id == 12 {
            Some(InventoryType::EnchantingTable)
        } else if id == 13 {
            Some(InventoryType::Furnace)
        } else if id == 14 {
            Some(InventoryType::Grindstone)
        } else if id == 15 {
            Some(InventoryType::Hopper)
        } else if id == 16 {
            Some(InventoryType::Lectern)
        } else if id == 17 {
            Some(InventoryType::Loom)
        } else if id == 18 {
            Some(InventoryType::Merchant)
        } else if id == 19 {
            Some(InventoryType::ShulkerBox)
        } else if id == 20 {
            Some(InventoryType::SmithingTable)
        } else if id == 21 {
            Some(InventoryType::Smoker)
        } else if id == 22 {
            Some(InventoryType::CartographyTable)
        } else if id == 23 {
            Some(InventoryType::Stonecutter)
        } else {
            None
        }
    }

    /// The window type named `name` (the names used between 1.8 and 1.13); a
    /// chest needs a slot count that is a multiple of nine.
    pub fn from_name(name: &str, slot_count: u8) -> (r: Option<Self>)
        ensures
            r == inventory_type_of_name(name@, slot_count),
    {
        if text_eq(name, "minecraft:anvil") {
            Some(InventoryType::Anvil)
        } else if text_eq(name, "minecraft:beacon") {
            Some(InventoryType::Beacon)
        } else if text_eq(name, "minecraft:brewing_stand") {
            Some(InventoryType::BrewingStand)
        } else if text_eq(name, "minecraft:chest") || text_eq(name, "minecraft:container") {
            if slot_count % 9 != 0 {
                None
            } else {
                Some(InventoryType::Chest(slot_count / 9))
            }
        } else if text_eq(name, "minecraft:crafting_table") {
            Some(InventoryType::CraftingTable)
        } else if text_eq(name, "minecraft:dispenser") {
            Some(InventoryType::Dropper)
        } else if text_eq(name, "minecraft:dropper") {
            Some(InventoryType::Dropper)
        } else if text_eq(name, "minecraft:enchanting_table") {
            Some(InventoryType::EnchantingTable)
        } else if text_eq(name, "minecraft:furnace") {
            Some(InventoryType::Furnace)
        } else if text_eq(name, "minecraft:hopper") {
            Some(InventoryType::Hopper)
        } else if text_eq(name, "minecraft:shulker_box") {
            Some(InventoryType::ShulkerBox)
        } else {
            None
        }
    }
}

// ---------------------------------------------------------------------------
// Items.
// ---------------------------------------------------------------------------

/// What the inventory logic reads of an item stack: its id, how many items
/// it holds and its damage value.
#[derive(Clone, Copy, Debug, PartialEq, Eq, Structural)]
pub struct Stack {
    pub id: isize,
    pub count: isize,
    pub damage: Option<isize>,
}

#[derive(Clone, Copy, Debug, PartialEq, Eq, Structural)]
pub struct Item {
    pub stack: Stack,
    pub material: Material,
}

impl Item {
    /// This stack and `other` can be merged on one slot: same material and
    /// same damage.
    pub fn is_stackable(&self, other: &Item) -> (b: bool)
        ensures
            b == (self.material == other.material && self.stack.damage == other.stack.damage),
    {
        self.material == other.material && self.stack.damage == other.stack.damage
    }
}

pub open spec fn with_count(i: Item, count: int) -> Item {
    Item { stack: Stack { count: count as isize, ..i.stack }, ..i }
}

pub open spec fn stackable(a: Item, b: Item) -> bool {
    a.material == b.material && a.stack.damage == b.stack.damage
}

/// What clicking a slot does to the item held by the cursor and the item in
/// the slot (`left`: left or right button; `max_stack`: the stack size of the
/// slot item's material). Returns the new cursor and slot contents.
pub open spec fn click_result(cursor: Option<Item>, item: Option<Item>, left: bool, max_stack: u8) -> (
    Option<Item>,
    Option<Item>,
) {
    match (cursor, item) {
        (Some(c), Some(i)) => if stackable(i, c) {
            if left {
                let total = ((i.stack.count + c.stack.count) as u8) as int;
                let i2 = with_count(i, if total < max_stack {
                    total
                } else {
                    max_stack as int
                });
                if total > max_stack {
                    (Some(with_count(c, total - max_stack)), Some(i2))
                } else {
                    (None, Some(i2))
                }
            } else if i.stack.count >= max_stack {
                (Some(c), Some(i))
            } else if c.stack.count <= 1 {
                (None, Some(with_count(i, i.stack.count + 1)))
            } else {
                (Some(with_count(c, c.stack.count - 1)), Some(with_count(i, i.stack.count + 1)))
            }
        } else {
            (Some(i), Some(c))
        },
        (Some(c), None) => if !left {
            (
                if c.stack.count - 1 > 0 {
                    Some(with_count(c, c.stack.count - 1))
                } else {
                    None
                },
                Some(with_count(c, 1)),
            )
        } else {
            (None, Some(c))
        },
        (None, Some(i)) => if !left && i.stack.count > 1 {
            let half = i.stack.count / 2 + i.stack.count % 2;
            (Some(with_count(i, half)), Some(with_count(i, i.stack.count - half)))
        } else {
            (Some(i), None)
        },
        (None, None) => (None, None),
    }
}

/// The clicks that can be computed without overflow: a left click that merges
/// two stacks adds their counts, and a right click with a stack held over an
/// empty slot takes one from it; every other click computes nothing that can
/// overflow.
pub open spec fn click_in_range(cursor: Option<Item>, item: Option<Item>, left: bool) -> bool {
    match (cursor, item) {
        (Some(c), Some(i)) => stackable(i, c) && left ==> isize::MIN <= i.stack.count
            + c.stack.count <= isize::MAX,
        (Some(c), None) => !left ==> c.stack.count > isize::MIN,
        _ => true,
    }
}

/// Computes what clicking a slot does to the cursor and slot contents, as the
/// inventory screen simulates it while telling the server about the click.
pub fn simulate_click(cursor: Option<Item>, item: Option<Item>, left: bool, max_stack: u8) -> (r: (
    Option<Item>,
    Option<Item>,
))
    requires
        click_in_range(cursor, item, left),
    ensures
        r == click_result(cursor, item, left, max_stack),
{
    match (cursor, item) {
        (Some(mut cursor), Some(mut item)) => {
            if item.is_stackable(&cursor) {
                if left {
                    let max = max_stack;
                    let total = (item.stack.count + cursor.stack.count) as u8;
                    item.stack.count = (if total < max {
                        total
                    } else {
                        max
                    }) as isize;
                    if total > max {
                        cursor.stack.count = (total - max) as isize;
                        (Some(cursor), Some(item))
                    } else {
                        (None, Some(item))
                    }
                } else {
                    if item.stack.count >= max_stack as isize {
                        (Some(cursor), Some(item))
                    } else {
                        item.stack.count = item.stack.count + 1;
                        if cursor.stack.count <= 1 {
                            (None, Some(item))
                        } else {
                            cursor.stack.count = cursor.stack.count - 1;
                            (Some(cursor), Some(item))
                        }
                    }
                }
            } else {
                (Some(item), Some(cursor))
            }
        },
        (Some(cursor), None) => {
            if !left {
                let mut item = cursor;
                item.stack.count = 1;
                let mut cursor = cursor;
                cursor.stack.count = cursor.stack.count - 1;
                (
                    if cursor.stack.count > 0 {
                        Some(cursor)
                    } else {
                        None
                    },
                    Some(item),
                )
            } else {
                (None, Some(cursor))
            }
        },
        (None, Some(mut item)) => {
            if !left && item.stack.count > 1 {
                let mut cursor = item;
                cursor.stack.count = (item.stack.count / 2) + (item.stack.count % 2);
                item.stack.count = item.stack.count - cursor.stack.count;
                (Some(cursor), Some(item))
            } else {
                (Some(item), None)
            }
        },
        (None, None) => (None, None),
    }
}

pub open spec fn count_of(i: Option<Item>) -> int {
    match i {
        Some(x) => x.stack.count as int,
        None => 0,
    }
}

proof fn lemma_small_isize_to_u8(s: isize)
    by (bit_vector)
    requires
        0 <= s < 256,
    ensures
        (s as u8) as isize == s,
{
}

/// A click only moves items between the cursor and the slot: when every
/// stack holds at least one item and the two together fewer than 256, the
/// number of items is the same before and after.
pub proof fn law_click_keeps_item_count(
    cursor: Option<Item>,
    item: Option<Item>,
    left: bool,
    max_stack: u8,
)
    requires
        cursor matches Some(c) ==> c.stack.count >= 1,
        item matches Some(i) ==> i.stack.count >= 1,
        count_of(cursor) + count_of(item) < 256,
    ensures
        count_of(click_result(cursor, item, left, max_stack).0) + count_of(
            click_result(cursor, item, left, max_stack).1,
        ) == count_of(cursor) + count_of(item),
{
    match (cursor, item) {
        (Some(c), Some(i)) => {
            let s = (i.stack.count + c.stack.count) as isize;
            lemma_small_isize_to_u8(s);
        },
        _ => {},
    }
}

/// A click on a slot holding the same kind of item as the cursor never fills
/// the slot beyond the stack size: a left click moves as many items as fit
/// (the slot ends with the smaller of the total and the stack size, the rest
/// stays on the cursor), and a right click moves one item only when the slot
/// is not full.
pub proof fn law_click_respects_stack_size(c: Item, i: Item, left: bool, max_stack: u8)
    requires
        stackable(i, c),
        c.stack.count >= 1,
        i.stack.count >= 1,
        c.stack.count + i.stack.count < 256,
        i.stack.count <= max_stack,
    ensures
        ({
            let (nc, ni) = click_result(Some(c), Some(i), left, max_stack);
            let total = c.stack.count + i.stack.count;
            &&& ni is Some
            &&& ni->0.material == i.material
            &&& ni->0.stack.count <= max_stack
            &&& left ==> ni->0.stack.count == (if total < max_stack {
                total
            } else {
                max_stack as int
            })
            &&& left ==> (if total > max_stack {
                nc is Some && nc->0.material == c.material && nc->0.stack.count == total
                    - max_stack
            } else {
                nc is None
            })
            &&& !left && i.stack.count < max_stack ==> ni->0.stack.count == i.stack.count + 1
            &&& !left && i.stack.count >= max_stack ==> ni == Some(i) && nc == Some(c)
        }),
{
    let s = (i.stack.count + c.stack.count) as isize;
    lemma_small_isize_to_u8(s);
}

/// The other clicks: with an empty hand a left click picks the whole stack
/// up and a right click picks up the larger half, leaving the smaller half;
/// a right click with a stack over an empty slot puts one item down; a left
/// click puts the whole stack down; items of different kinds swap places.
pub proof fn law_click_moves_items(cursor: Option<Item>, item: Option<Item>, left: bool, max_stack: u8)
    ensures
        ({
            let (nc, ni) = click_result(cursor, item, left, max_stack);
            &&& (cursor is None && item is Some && left) ==> (nc == item && ni is None)
            &&& (cursor is None && item is Some && !left && item->0.stack.count > 1) ==> {
                let i = item->0;
                &&& nc is Some && ni is Some
                &&& nc->0.material == i.material && ni->0.material == i.material
                &&& ni->0.stack.count == i.stack.count / 2
                &&& nc->0.stack.count + ni->0.stack.count == i.stack.count
                &&& nc->0.stack.count - ni->0.stack.count <= 1
                &&& nc->0.stack.count >= ni->0.stack.count
            }
            &&& (cursor is Some && item is None && left) ==> (nc is None && ni == cursor)
            &&& (cursor is Some && item is None && !left && cursor->0.stack.count >= 1) ==> {
                let c = cursor->0;
                &&& ni is Some && ni->0.material == c.material && ni->0.stack.count == 1
                &&& (if c.stack.count > 1 {
                    nc is Some && nc->0.material == c.material && nc->0.stack.count
                        == c.stack.count - 1
                } else {
                    nc is None
                })
            }
            &&& (cursor is Some && item is Some && !stackable(item->0, cursor->0)) ==> (nc == item
                && ni == cursor)
            &&& (cursor is None && item is None) ==> (nc is None && ni is None)
        }),
{
}

// ---------------------------------------------------------------------------
// Material names and the tools they stand for.
// ---------------------------------------------------------------------------

pub open spec fn is_ascii_upper(c: char) -> bool {
    'A' <= c <= 'Z'
}

pub open spec fn ascii_to_lower(c: char) -> char {
    ((c as u32) + 32) as char
}

/// What one character of a name becomes in its snake-case form; `i` is its position.
pub open spec fn snake_piece(c: char, i: int) -> Seq<char> {
    if is_ascii_upper(c) {
        if i != 0 {
            seq!['_', ascii_to_lower(c)]
        } else {
            seq![ascii_to_lower(c)]
        }
    } else {
        seq![c]
    }
}

/// `CamelCase` to `camel_case`: an underscore before every capital but the
/// first, and every capital in lower case.
pub open spec fn snake_case(s: Seq<char>) -> Seq<char>
    decreases s.len(),
{
    if s.len() == 0 {
        Seq::empty()
    } else {
        snake_case(s.drop_last()) + snake_piece(s.last(), s.len() - 1)
    }
}

/// A character in lower case when it is an ASCII capital.
pub open spec fn lower_char(c: char) -> char {
    if is_ascii_upper(c) {
        ascii_to_lower(c)
    } else {
        c
    }
}

/// Every ASCII capital of `s` in lower case.
pub open spec fn lower_all(s: Seq<char>) -> Seq<char>
    decreases s.len(),
{
    if s.len() == 0 {
        Seq::empty()
    } else {
        lower_all(s.drop_last()).push(lower_char(s.last()))
    }
}

/// The number of ASCII capitals in `s`.
pub open spec fn count_upper(s: Seq<char>) -> int
    decreases s.len(),
{
    if s.len() == 0 {
        0
    } else {
        count_upper(s.drop_last()) + if is_ascii_upper(s.last()) {
            1int
        } else {
            0int
        }
    }
}

/// `s` without its underscores.
pub open spec fn without_underscores(s: Seq<char>) -> Seq<char>
    decreases s.len(),
{
    if s.len() == 0 {
        Seq::empty()
    } else if s.last() == '_' {
        without_underscores(s.drop_last())
    } else {
        without_underscores(s.drop_last()).push(s.last())
    }
}

/// The number of underscores in `s`.
pub open spec fn count_underscores(s: Seq<char>) -> int
    decreases s.len(),
{
    if s.len() == 0 {
        0
    } else {
        count_underscores(s.drop_last()) + if s.last() == '_' {
            1int
        } else {
            0int
        }
    }
}

/// A name in `CamelCase`: it starts with an ASCII capital and holds no
/// underscore.
pub open spec fn is_camel_name(s: Seq<char>) -> bool {
    &&& s.len() > 0
    &&& is_ascii_upper(s[0])
    &&& forall|k: int| 0 <= k < s.len() ==> s[k] != '_'
}

proof fn lemma_underscores_concat(a: Seq<char>, b: Seq<char>)
    ensures
        without_underscores(a + b) == without_underscores(a) + without_underscores(b),
        count_underscores(a + b) == count_underscores(a) + count_underscores(b),
    decreases b.len(),
{
    if b.len() == 0 {
        assert(a + b =~= a);
        assert(without_underscores(a) + without_underscores(b) =~= without_underscores(a));
    } else {
        lemma_underscores_concat(a, b.drop_last());
        assert((a + b).drop_last() =~= a + b.drop_last());
        assert((a + b).last() == b.last());
        if b.last() != '_' {
            assert(without_underscores(a) + without_underscores(b.drop_last()).push(b.last())
                =~= (without_underscores(a) + without_underscores(b.drop_last())).push(b.last()));
        }
    }
}

proof fn lemma_snake_shape(s: Seq<char>)
    requires
        forall|k: int| 0 <= k < s.len() ==> s[k] != '_',
    ensures
        forall|k: int|
            0 <= k < snake_case(s).len() ==> !is_ascii_upper(#[trigger] snake_case(s)[k]),
        without_underscores(snake_case(s)) == lower_all(s),
        count_underscores(snake_case(s)) == count_upper(s) - if s.len() > 0 && is_ascii_upper(
            s[0],
        ) {
            1int
        } else {
            0int
        },
        s.len() > 0 ==> snake_case(s).len() > 0 && snake_case(s)[0] != '_',
    decreases s.len(),
{
    if s.len() > 0 {
        let t = s.drop_last();
        let c = s.last();
        let i = s.len() - 1;
        assert forall|k: int| 0 <= k < t.len() implies t[k] != '_' by {
            assert(t[k] == s[k]);
        }
        lemma_snake_shape(t);
        let p = snake_piece(c, i);
        lemma_underscores_concat(snake_case(t), p);
        assert(s[i] == c);
        reveal_with_fuel(without_underscores, 3);
        reveal_with_fuel(count_underscores, 3);
        if is_ascii_upper(c) {
            assert(!is_ascii_upper(ascii_to_lower(c)) && ascii_to_lower(c) != '_');
            if i != 0 {
                assert(p.drop_last() =~= seq!['_']);
                assert(seq!['_'].drop_last() =~= Seq::<char>::empty());
                assert(without_underscores(p) =~= seq![lower_char(c)]);
            } else {
                assert(p.drop_last() =~= Seq::<char>::empty());
                assert(without_underscores(p) =~= seq![lower_char(c)]);
            }
        } else {
            assert(p.drop_last() =~= Seq::<char>::empty());
            assert(without_underscores(p) =~= seq![lower_char(c)]);
        }
        assert(lower_all(t) + seq![lower_char(c)] =~= lower_all(t).push(lower_char(c)));
        if t.len() > 0 {
            assert(t[0] == s[0]);
        }
        let sn = snake_case(s);
        assert(sn == snake_case(t) + p);
        assert forall|k: int| 0 <= k < sn.len() implies !is_ascii_upper(#[trigger] sn[k]) by {
            if k < snake_case(t).len() {
                assert(sn[k] == snake_case(t)[k]);
            } else {
                assert(sn[k] == p[k - snake_case(t).len()]);
            }
        }
        if t.len() > 0 {
            assert(sn[0] == snake_case(t)[0]);
        } else {
            assert(snake_case(t) =~= Seq::<char>::empty());
            assert(sn[0] == p[0]);
        }
    }
}

/// The texture names of a material whose name is in `CamelCase` are its name
/// under `item/` and under `block/`, with the capitals in lower case and an
/// underscore before each capital but the first: no capital is left, the
/// name does not start with an underscore, taking the underscores out gives
/// the name in lower case, and there is one underscore fewer than capitals.
pub proof fn law_texture_names(m: Material)
    requires
        is_camel_name(material_name(m)),
    ensures
        ({
            let n = material_name(m);
            let sn = snake_case(n);
            &&& texture_paths(m) == ("item/"@ + sn, "block/"@ + sn)
            &&& sn.len() > 0 && sn[0] != '_'
            &&& forall|k: int| 0 <= k < sn.len() ==> !is_ascii_upper(#[trigger] sn[k])
            &&& without_underscores(sn) == lower_all(n)
            &&& count_underscores(sn) == count_upper(n) - 1
        }),
{
    lemma_snake_shape(material_name(m));
}

/// The texture names of a material's item and block forms.
pub open spec fn texture_paths(m: Material) -> (Seq<char>, Seq<char>) {
    ("item/"@ + snake_case(material_name(m)), "block/"@ + snake_case(material_name(m)))
}

/// Appends the snake-case form of `name`.
fn push_snake_case(out: &mut String, name: &str)
    ensures
        final(out)@ == old(out)@ + snake_case(name@),
{
    let n = name.unicode_len();
    let mut i: usize = 0;
    while i < n
        invariant
            n == name@.len(),
            i <= n,
            out@ == old(out)@ + snake_case(name@.take(i as int)),
        decreases n - i,
    {
        let c = name.get_char(i);
        proof {
            assert(name@.take(i + 1).drop_last() =~= name@.take(i as int));
            assert(name@.take(i + 1).last() == c);
        }
        if 'A' <= c && c <= 'Z' {
            if i != 0 {
                push_char(out, '_');
            }
            push_char(out, ((c as u8) + 32) as char);
        } else {
            push_char(out, c);
        }
        proof {
            assert(out@ =~= old(out)@ + snake_case(name@.take(i + 1)));
        }
        i = i + 1;
    }
    proof {
        assert(name@.take(n as int) =~= name@);
    }
}

/// Tool kinds that digging speed depends on.
#[derive(Clone, Copy, Debug, PartialEq, Eq, Structural)]
pub enum ToolMaterial {
    Wooden,
    Stone,
    Golden,
    Iron,
    Diamond,
    Netherite,
}

#[derive(Clone, Copy, Debug, PartialEq, Eq, Structural)]
pub enum Tool {
    Pickaxe(ToolMaterial),
    Axe(ToolMaterial),
    Shovel(ToolMaterial),
    Hoe(ToolMaterial),
    Sword(ToolMaterial),
    Shears,
}

pub open spec fn tool_of(m: Material) -> Option<Tool> {
    match m {
        Material::WoodPickaxe => Some(Tool::Pickaxe(ToolMaterial::Wooden)),
        Material::StonePickaxe => Some(Tool::Pickaxe(ToolMaterial::Stone)),
        Material::GoldPickaxe => Some(Tool::Pickaxe(ToolMaterial::Golden)),
        Material::IronPickaxe => Some(Tool::Pickaxe(ToolMaterial::Iron)),
        Material::DiamondPickaxe => Some(Tool::Pickaxe(ToolMaterial::Diamond)),
        Material::NetheritePickaxe => Some(Tool::Pickaxe(ToolMaterial::Netherite)),
        Material::WoodAxe => Some(Tool::Axe(ToolMaterial::Wooden)),
        Material::StoneAxe => Some(Tool::Axe(ToolMaterial::Stone)),
        Material::GoldAxe => Some(Tool::Axe(ToolMaterial::Golden)),
        Material::IronAxe => Some(Tool::Axe(ToolMaterial::Iron)),
        Material::DiamondAxe => Some(Tool::Axe(ToolMaterial::Diamond)),
        Material::NetheriteAxe => Some(Tool::Axe(ToolMaterial::Netherite)),
        Material::WoodSpade => Some(Tool::Shovel(ToolMaterial::Wooden)),
        Material::StoneSpade => Some(Tool::Shovel(ToolMaterial::Stone)),
        Material::GoldSpade => Some(Tool::Shovel(ToolMaterial::Golden)),
        Material::IronSpade => Some(Tool::Shovel(ToolMaterial::Iron)),
        Material::DiamondSpade => Some(Tool::Shovel(ToolMaterial::Diamond)),
        Material::NetheriteShovel => Some(Tool::Shovel(ToolMaterial::Netherite)),
        Material::WoodHoe => Some(Tool::Hoe(ToolMaterial::Wooden)),
        Material::StoneHoe => Some(Tool::Hoe(ToolMaterial::Stone)),
        Material::GoldHoe => Some(Tool::Hoe(ToolMaterial::Golden)),
        Material::IronHoe => Some(Tool::Hoe(ToolMaterial::Iron)),
        Material::DiamondHoe => Some(Tool::Hoe(ToolMaterial::Diamond)),
        Material::NetheriteHoe => Some(Tool::Hoe(ToolMaterial::Netherite)),
        Material::WoodSword => Some(Tool::Sword(ToolMaterial::Wooden)),
        Material::StoneSword => Some(Tool::Sword(ToolMaterial::Stone)),
        Material::GoldSword => Some(Tool::Sword(ToolMaterial::Golden)),
        Material::IronSword => Some(Tool::Sword(ToolMaterial::Iron)),
        Material::DiamondSword => Some(Tool::Sword(ToolMaterial::Diamond)),
        Material::NetheriteSword => Some(Tool::Sword(ToolMaterial::Netherite)),
        Material::Shears => Some(Tool::Shears),
        _ => None,
    }
}

impl Material {
    /// The texture names of this material's item and block forms: its name
    /// in snake case under `item/` and under `block/`.
    pub fn texture_locations(&self) -> (r: (String, String))
        ensures
            r.0@ == texture_paths(*self).0,
            r.1@ == texture_paths(*self).1,
    {
        let name = self.name();
        let mut item = String::from_str("item/");
        push_snake_case(&mut item, name.as_str());
        let mut block = String::from_str("block/");
        push_snake_case(&mut block, name.as_str());
        (item, block)
    }

    /// The tool this material is, if any.
    pub fn as_tool(&self) -> (r: Option<Tool>)
        ensures
            r == tool_of(*self),
    {
        match *self {
            Material::WoodPickaxe => Some(Tool::Pickaxe(ToolMaterial::Wooden)),
            Material::StonePickaxe => Some(Tool::Pickaxe(ToolMaterial::Stone)),
            Material::GoldPickaxe => Some(Tool::Pickaxe(ToolMaterial::Golden)),
            Material::IronPickaxe => Some(Tool::Pickaxe(ToolMaterial::Iron)),
            Material::DiamondPickaxe => Some(Tool::Pickaxe(ToolMaterial::Diamond)),
            Material::NetheritePickaxe => Some(Tool::Pickaxe(ToolMaterial::Netherite)),
            Material::WoodAxe => Some(Tool::Axe(ToolMaterial::Wooden)),
            Material::StoneAxe => Some(Tool::Axe(ToolMaterial::Stone)),
            Material::GoldAxe => Some(Tool::Axe(ToolMaterial::Golden)),
            Material::IronAxe => Some(Tool::Axe(ToolMaterial::Iron)),
            Material::DiamondAxe => Some(Tool::Axe(ToolMaterial::Diamond)),
            Material::NetheriteAxe => Some(Tool::Axe(ToolMaterial::Netherite)),
            Material::WoodSpade => Some(Tool::Shovel(ToolMaterial::Wooden)),
            Material::StoneSpade => Some(Tool::Shovel(ToolMaterial::Stone)),
            Material::GoldSpade => Some(Tool::Shovel(ToolMaterial::Golden)),
            Material::IronSpade => Some(Tool::Shovel(ToolMaterial::Iron)),
            Material::DiamondSpade => Some(Tool::Shovel(ToolMaterial::Diamond)),
            Material::NetheriteShovel => Some(Tool::Shovel(ToolMaterial::Netherite)),
            Material::WoodHoe => Some(Tool::Hoe(ToolMaterial::Wooden)),
            Material::StoneHoe => Some(Tool::Hoe(ToolMaterial::Stone)),
            Material::GoldHoe => Some(Tool::Hoe(ToolMaterial::Golden)),
            Material::IronHoe => Some(Tool::Hoe(ToolMaterial::Iron)),
            Material::DiamondHoe => Some(Tool::Hoe(ToolMaterial::Diamond)),
            Material::NetheriteHoe => Some(Tool::Hoe(ToolMaterial::Netherite)),
            Material::WoodSword => Some(Tool::Sword(ToolMaterial::Wooden)),
            Material::StoneSword => Some(Tool::Sword(ToolMaterial::Stone)),
            Material::GoldSword => Some(Tool::Sword(ToolMaterial::Golden)),
            Material::IronSword => Some(Tool::Sword(ToolMaterial::Iron)),
            Material::DiamondSword => Some(Tool::Sword(ToolMaterial::Diamond)),
            Material::NetheriteSword => Some(Tool::Sword(ToolMaterial::Netherite)),
            Material::Shears => Some(Tool::Shears),
            _ => None,
        }
    }

    /// Whether an item with the numeric `id` can be placed as a block: before
    /// 1.13 exactly the ids below 256; from 1.13 on every item is accepted.
    pub fn is_placable_block(&self, version: Version, id: isize) -> (b: bool)
        ensures
            b == (version_rank(version) >= version_rank(Version::V1_13) || id < 256),
    {
        if version.is_before(Version::V1_13) {
            return id < 256;
        }
        true
    }
}

} // verus!

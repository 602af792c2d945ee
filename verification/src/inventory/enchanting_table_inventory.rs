use vstd::prelude::*;

use crate::console::text::{int_text, int_to_text, push_char, text_eq};
use crate::inventory::{InventoryType, Item, Material};

verus! {

/// The enchantments a table can offer, in protocol order.
#[derive(Clone, Copy, Debug, PartialEq, Eq, Structural)]
pub enum Enchantment {
    Protection,
    FireProtection,
    FeatherFalling,
    BlastProtection,
    ProjectileProtection,
    Respiration,
    AquaAffinity,
    Thorns,
    DepthStrider,
    FrostWalker,
    CurseofBinding,
    SoulSpeed,
    Sharpness,
    Smite,
    BaneofArthropods,
    Knockback,
    FireAspect,
    Looting,
    SweepingEdge,
    Efficiency,
    SilkTouch,
    Unbreaking,
    Fortune,
    Power,
    Punch,
    Flame,
    Infinity,
    LuckoftheSea,
    Lure,
    Loyalty,
    Impaling,
    Riptide,
    Channeling,
    Multishot,
    QuickCharge,
    Piercing,
    Mending,
    CurseofVanishing,
}

pub open spec fn enchantment_index(e: Enchantment) -> int {
    match e {
        Enchantment::Protection => 0,
        Enchantment::FireProtection => 1,
        Enchantment::FeatherFalling => 2,
        Enchantment::BlastProtection => 3,
        Enchantment::ProjectileProtection => 4,
        Enchantment::Respiration => 5,
        Enchantment::AquaAffinity => 6,
        Enchantment::Thorns => 7,
        Enchantment::DepthStrider => 8,
        Enchantment::FrostWalker => 9,
        Enchantment::CurseofBinding => 10,
        Enchantment::SoulSpeed => 11,
        Enchantment::Sharpness => 12,
        Enchantment::Smite => 13,
        Enchantment::BaneofArthropods => 14,
        Enchantment::Knockback => 15,
        Enchantment::FireAspect => 16,
        Enchantment::Looting => 17,
        Enchantment::SweepingEdge => 18,
        Enchantment::Efficiency => 19,
        Enchantment::SilkTouch => 20,
        Enchantment::Unbreaking => 21,
        Enchantment::Fortune => 22,
        Enchantment::Power => 23,
        Enchantment::Punch => 24,
        Enchantment::Flame => 25,
        Enchantment::Infinity => 26,
        Enchantment::LuckoftheSea => 27,
        Enchantment::Lure => 28,
        Enchantment::Loyalty => 29,
        Enchantment::Impaling => 30,
        Enchantment::Riptide => 31,
        Enchantment::Channeling => 32,
        Enchantment::Multishot => 33,
        Enchantment::QuickCharge => 34,
        Enchantment::Piercing => 35,
        Enchantment::Mending => 36,
        Enchantment::CurseofVanishing => 37,
    }
}

/// How an enchantment is shown to the player.
pub open spec fn enchantment_display(e: Enchantment) -> Seq<char> {
    match e {
        Enchantment::Protection => "Protection"@,
        Enchantment::FireProtection => "Fire Protection"@,
        Enchantment::FeatherFalling => "Feather Falling"@,
        Enchantment::BlastProtection => "Blast Protection"@,
        Enchantment::ProjectileProtection => "Projectile Protection"@,
        Enchantment::Respiration => "Respiration"@,
        Enchantment::AquaAffinity => "Aqua Affinity"@,
        Enchantment::Thorns => "Thorns"@,
        Enchantment::DepthStrider => "Depth Strider"@,
        Enchantment::FrostWalker => "Frost Walker"@,
        Enchantment::CurseofBinding => "Curse of Binding"@,
        Enchantment::SoulSpeed => "Soul Speed"@,
        Enchantment::Sharpness => "Sharpness"@,
        Enchantment::Smite => "Smite"@,
        Enchantment::BaneofArthropods => "Bane of Arthropds"@,
        Enchantment::Knockback => "Knockback"@,
        Enchantment::FireAspect => "Fire Aspect"@,
        Enchantment::Looting => "Looting"@,
        Enchantment::SweepingEdge => "Sweeping Edge"@,
        Enchantment::Efficiency => "Efficiency"@,
        Enchantment::SilkTouch => "SilkTouch"@,
        Enchantment::Unbreaking => "Unbreaking"@,
        Enchantment::Fortune => "Fortune"@,
        Enchantment::Power => "Power"@,
        Enchantment::Punch => "Punch"@,
        Enchantment::Flame => "Flame"@,
        Enchantment::Infinity => "Infinity"@,
        Enchantment::LuckoftheSea => "Luck of the Sea"@,
        Enchantment::Lure => "Lure"@,
        Enchantment::Loyalty => "Loyalty"@,
        Enchantment::Impaling => "Impaling"@,
        Enchantment::Riptide => "Riptide"@,
        Enchantment::Channeling => "Channeling"@,
        Enchantment::Multishot => "Multishot"@,
        Enchantment::QuickCharge => "Quick Charge"@,
        Enchantment::Piercing => "Piercing"@,
        Enchantment::Mending => "Mending"@,
        Enchantment::CurseofVanishing => "Curse of Vanishing"@,
    }
}

impl Enchantment {
    /// The enchantment with the protocol id `value`; the id is read as a byte,
    /// as the server's two-byte value is truncated.
    pub fn try_from(value: i16) -> (r: Result<Enchantment, &'static str>)
        ensures
            match r {
                Ok(e) => (value as u8) < 38 && enchantment_index(e) == (value as u8) as int,
                Err(m) => (value as u8) >= 38 && m@ == "something went wrong"@,
            },
    {
        let value = value as u8;
        if value < 38 {
            Ok(Enchantment::from_index(value))
        } else {
            Err("something went wrong")
        }
    }

    fn from_index(i: u8) -> (e: Enchantment)
        requires
            i < 38,
        ensures
            enchantment_index(e) == i,
    {
        match i {
            0 => Enchantment::Protection,
            1 => Enchantment::FireProtection,
            2 => Enchantment::FeatherFalling,
            3 => Enchantment::BlastProtection,
            4 => Enchantment::ProjectileProtection,
            5 => Enchantment::Respiration,
            6 => Enchantment::AquaAffinity,
            7 => Enchantment::Thorns,
            8 => Enchantment::DepthStrider,
            9 => Enchantment::FrostWalker,
            10 => Enchantment::CurseofBinding,
            11 => Enchantment::SoulSpeed,
            12 => Enchantment::Sharpness,
            13 => Enchantment::Smite,
            14 => Enchantment::BaneofArthropods,
            15 => Enchantment::Knockback,
            16 => Enchantment::FireAspect,
            17 => Enchantment::Looting,
            18 => Enchantment::SweepingEdge,
            19 => Enchantment::Efficiency,
            20 => Enchantment::SilkTouch,
            21 => Enchantment::Unbreaking,
            22 => Enchantment::Fortune,
            23 => Enchantment::Power,
            24 => Enchantment::Punch,
            25 => Enchantment::Flame,
            26 => Enchantment::Infinity,
            27 => Enchantment::LuckoftheSea,
            28 => Enchantment::Lure,
            29 => Enchantment::Loyalty,
            30 => Enchantment::Impaling,
            31 => Enchantment::Riptide,
            32 => Enchantment::Channeling,
            33 => Enchantment::Multishot,
            34 => Enchantment::QuickCharge,
            35 => Enchantment::Piercing,
            36 => Enchantment::Mending,
            _ => Enchantment::CurseofVanishing,
        }
    }

    /// How this enchantment is shown to the player.
    pub fn display_name(&self) -> (s: String)
        ensures
            s@ == enchantment_display(*self),
    {
        match self {
            Enchantment::Protection => String::from_str("Protection"),
            Enchantment::FireProtection => String::from_str("Fire Protection"),
            Enchantment::FeatherFalling => String::from_str("Feather Falling"),
            Enchantment::BlastProtection => String::from_str("Blast Protection"),
            Enchantment::ProjectileProtection => String::from_str("Projectile Protection"),
            Enchantment::Respiration => String::from_str("Respiration"),
            Enchantment::AquaAffinity => String::from_str("Aqua Affinity"),
            Enchantment::Thorns => String::from_str("Thorns"),
            Enchantment::DepthStrider => String::from_str("Depth Strider"),
            Enchantment::FrostWalker => String::from_str("Frost Walker"),
            Enchantment::CurseofBinding => String::from_str("Curse of Binding"),
            Enchantment::SoulSpeed => String::from_str("Soul Speed"),
            Enchantment::Sharpness => String::from_str("Sharpness"),
            Enchantment::Smite => String::from_str("Smite"),
            Enchantment::BaneofArthropods => String::from_str("Bane of Arthropds"),
            Enchantment::Knockback => String::from_str("Knockback"),
            Enchantment::FireAspect => String::from_str("Fire Aspect"),
            Enchantment::Looting => String::from_str("Looting"),
            Enchantment::SweepingEdge => String::from_str("Sweeping Edge"),
            Enchantment::Efficiency => String::from_str("Efficiency"),
            Enchantment::SilkTouch => String::from_str("SilkTouch"),
            Enchantment::Unbreaking => String::from_str("Unbreaking"),
            Enchantment::Fortune => String::from_str("Fortune"),
            Enchantment::Power => String::from_str("Power"),
            Enchantment::Punch => String::from_str("Punch"),
            Enchantment::Flame => String::from_str("Flame"),
            Enchantment::Infinity => String::from_str("Infinity"),
            Enchantment::LuckoftheSea => String::from_str("Luck of the Sea"),
            Enchantment::Lure => String::from_str("Lure"),
            Enchantment::Loyalty => String::from_str("Loyalty"),
            Enchantment::Impaling => String::from_str("Impaling"),
            Enchantment::Riptide => String::from_str("Riptide"),
            Enchantment::Channeling => String::from_str("Channeling"),
            Enchantment::Multishot => String::from_str("Multishot"),
            Enchantment::QuickCharge => String::from_str("Quick Charge"),
            Enchantment::Piercing => String::from_str("Piercing"),
            Enchantment::Mending => String::from_str("Mending"),
            Enchantment::CurseofVanishing => String::from_str("Curse of Vanishing"),
        }
    }
}

/// What the server told about one of the three offers of the table.
#[derive(Clone, Copy, Debug, PartialEq, Eq, Structural)]
pub struct EnchantmentButton {
    pub level_required: Option<u8>,
    pub enchantment_hint: Option<Enchantment>,
    pub enchantment_level: Option<u8>,
}

/// The enchantment the server names by `value`, if it names one.
pub open spec fn enchantment_of_value(value: i16) -> Option<Enchantment> {
    if (value as u8) < 38 {
        Some(choose|e: Enchantment| enchantment_index(e) == (value as u8) as int)
    } else {
        None
    }
}

pub proof fn lemma_enchantment_index_injective(a: Enchantment, b: Enchantment)
    ensures
        enchantment_index(a) == enchantment_index(b) <==> a == b,
{
}

/// A level sent by the server: `-1` resets it.
pub open spec fn level_of_value(value: i16) -> Option<u8> {
    if value == -1 {
        None
    } else {
        Some(value as u8)
    }
}

/// The offers after property `property` takes `value`, before empty level
/// requirements are cleared.
pub open spec fn updated_buttons(b: Seq<EnchantmentButton>, property: i16, value: i16) -> Seq<
    EnchantmentButton,
> {
    if 0 <= property <= 2 {
        b.update(
            property as int,
            EnchantmentButton { level_required: level_of_value(value), ..b[property as int] },
        )
    } else if 4 <= property <= 6 {
        b.update(
            property - 4,
            EnchantmentButton { enchantment_hint: enchantment_of_value(value), ..b[property - 4] },
        )
    } else if 7 <= property <= 9 {
        b.update(
            property - 7,
            EnchantmentButton { enchantment_level: level_of_value(value), ..b[property - 7] },
        )
    } else {
        b
    }
}

/// A level requirement of zero means there is none.
pub open spec fn cleared(b: EnchantmentButton) -> EnchantmentButton {
    if b.level_required == Some(0u8) {
        EnchantmentButton { level_required: None, ..b }
    } else {
        b
    }
}

/// What one offer looks like on the screen.
pub struct ButtonView {
    /// The offer is shown at all.
    pub shown: bool,
    /// The offer can be clicked.
    pub active: bool,
    /// The enchantment and its level, or nothing.
    pub name_text: String,
    /// The level the offer needs.
    pub cost_text: String,
}

pub open spec fn level_text(l: Option<u8>) -> Seq<char> {
    match l {
        Some(v) => int_text(v as int),
        None => "level unknown"@,
    }
}

pub open spec fn cost_text_of(l: Option<u8>) -> Seq<char> {
    "lvl required: "@ + match l {
        Some(v) => int_text(v as int),
        None => "lvl required: unknown"@,
    }
}

/// The offer `index` can be afforded: enough lapis lazuli in the lapis slot
/// (`index + 1` pieces) and enough experience levels, or creative mode.
pub open spec fn offer_affordable(b: EnchantmentButton, index: int, lapis: Option<Item>, exp_level: i32, creative: bool) -> bool {
    let lapis_enough = match lapis {
        Some(it) => it.material == Material::LapisLazuli && it.stack.count >= index + 1,
        None => false,
    };
    let enough_xp = exp_level >= match b.level_required {
        Some(v) => v as int,
        None => 0,
    };
    (lapis_enough && enough_xp) || creative
}

/// Who can take an offer: in creative mode anyone. Otherwise the lapis slot
/// must hold lapis lazuli, at least one piece more than the offer's position,
/// and the player's experience level must reach the level the offer requires
/// (reaching it exactly is enough; with no requirement known, any level from
/// zero up). More experience or more lapis never makes an offer unaffordable.
pub proof fn law_offer_affordable(
    b: EnchantmentButton,
    index: int,
    lapis: Option<Item>,
    exp_level: i32,
    creative: bool,
)
    ensures
        creative ==> offer_affordable(b, index, lapis, exp_level, creative),
        !creative ==> (offer_affordable(b, index, lapis, exp_level, creative) <==> {
            &&& lapis is Some
            &&& lapis->0.material == Material::LapisLazuli
            &&& lapis->0.stack.count > index
            &&& match b.level_required {
                Some(r) => r <= exp_level,
                None => 0 <= exp_level,
            }
        }),
        forall|more_exp: i32|
            exp_level <= more_exp && offer_affordable(b, index, lapis, exp_level, creative)
                ==> #[trigger] offer_affordable(b, index, lapis, more_exp, creative),
        forall|more: Item|
            lapis matches Some(l) && more.material == l.material && l.stack.count
                <= more.stack.count && offer_affordable(b, index, lapis, exp_level, creative)
                ==> #[trigger] offer_affordable(b, index, Some(more), exp_level, creative),
{
}

impl EnchantmentButton {
    pub open spec fn is_shown(self) -> bool {
        self.level_required is Some || self.enchantment_level is Some || self.enchantment_hint is Some
    }

    /// How the offer at position `index` is drawn, given the item in the lapis
    /// slot, the player's experience level and whether the player is in
    /// creative mode.
    pub fn view(&self, index: u8, lapis: Option<Item>, exp_level: i32, creative: bool) -> (v: ButtonView)
        requires
            index < 3,
        ensures
            v.shown == self.is_shown(),
            v.active == (self.is_shown() && offer_affordable(*self, index as int, lapis, exp_level, creative)),
            v.name_text@ == (if self.is_shown() {
                match self.enchantment_hint {
                    Some(e) => enchantment_display(e) + seq![' '] + level_text(self.enchantment_level),
                    None => Seq::empty(),
                }
            } else {
                Seq::empty()
            }),
            v.cost_text@ == (if self.is_shown() {
                cost_text_of(self.level_required)
            } else {
                Seq::empty()
            }),
    {
        let shown = self.level_required.is_some() || self.enchantment_level.is_some()
            || self.enchantment_hint.is_some();
        if !shown {
            return ButtonView {
                shown: false,
                active: false,
                name_text: String::new(),
                cost_text: String::new(),
            };
        }
        let lapis_enough = match lapis {
            Some(it) => it.material == Material::LapisLazuli && it.stack.count >= index as isize + 1,
            None => false,
        };
        let required: i32 = match self.level_required {
            Some(v) => v as i32,
            None => 0,
        };
        let enough_xp = exp_level >= required;
        let active = (lapis_enough && enough_xp) || creative;
        let name_text = match self.enchantment_hint {
            Some(ench) => {
                let mut s = ench.display_name();
                push_char(&mut s, ' ');
                let level = match self.enchantment_level {
                    Some(level) => int_to_text(level as i64),
                    None => String::from_str("level unknown"),
                };
                s.append(level.as_str());
                s
            },
            None => String::new(),
        };
        let mut cost_text = String::from_str("lvl required: ");
        let cost = match self.level_required {
            Some(cost) => int_to_text(cost as i64),
            None => String::from_str("lvl required: unknown"),
        };
        cost_text.append(cost.as_str());
        ButtonView { shown: true, active, name_text, cost_text }
    }
}


/// The table's rule for its lapis slot: an item put into slot 1 must be
/// lapis lazuli or nothing, while the other slots take any item. A refused
/// item is not stored and leaves the window as it was.
pub fn slot_accepts(slot_id: u16, item: &Option<Item>) -> (b: bool)
    ensures
        b == (slot_id != 1 || item.is_none() || item->0.material == Material::LapisLazuli),
{
    if slot_id != 1 {
        return true;
    }
    match item {
        None => true,
        Some(it) => it.material == Material::LapisLazuli,
    }
}

/// The state of an enchanting table window that is kept apart from its
/// slots and drawing.
pub struct EnchantmentTableInventory {
    pub client_state_id: i16,
    pub id: i32,
    pub name: String,
    pub button_data: [EnchantmentButton; 3],
    /// The window needs to be redrawn.
    pub dirty: bool,
}

impl EnchantmentTableInventory {
    pub fn new(name: String, id: i32) -> (r: Self)
        ensures
            r.id == id,
            r.name@ == name@,
            r.client_state_id == 0,
            forall|i: int|
                0 <= i < 3 ==> r.button_data@[i] == (EnchantmentButton {
                    level_required: None,
                    enchantment_hint: None,
                    enchantment_level: None,
                }),
            r.dirty,
    {
        let empty = EnchantmentButton {
            level_required: None,
            enchantment_hint: None,
            enchantment_level: None,
        };
        EnchantmentTableInventory {
            client_state_id: 0,
            id,
            name,
            button_data: [empty, empty, empty],
            dirty: true,
        }
    }

    /// The title shown at the top of the window: "Enchant" for the table's
    /// translation key, any other name as it is.
    pub fn title(&self) -> (t: String)
        ensures
            t@ == (if self.name@ == "container.enchant"@ {
                "Enchant"@
            } else {
                self.name@
            }),
    {
        if text_eq(self.name.as_str(), "container.enchant") {
            String::from_str("Enchant")
        } else {
            self.name.clone()
        }
    }

    /// Takes in a window property sent by the server: 0 to 2 the level each
    /// offer requires, 4 to 6 the enchantment it hints at, 7 to 9 that
    /// enchantment's level (3 is a seed, and other properties are ignored).
    /// Afterwards a required level of zero counts as none.
    pub fn handle_property_packet(&mut self, property: i16, value: i16)
        ensures
            forall|i: int|
                0 <= i < 3 ==> #[trigger] final(self).button_data@[i] == cleared(
                    updated_buttons(old(self).button_data@, property, value)[i],
                ),
            final(self).dirty,
            final(self).id == old(self).id,
            final(self).client_state_id == old(self).client_state_id,
    {
        let option_value: Option<u8> = if value == -1 {
            None
        } else {
            Some(value as u8)
        };
        let ghost b0 = self.button_data@;
        if 0 <= property && property <= 2 {
            let i = property as usize;
            let old_b = self.button_data[i];
            self.button_data[i] = EnchantmentButton { level_required: option_value, ..old_b };
        } else if 4 <= property && property <= 6 {
            let i = (property - 4) as usize;
            let old_b = self.button_data[i];
            let hint = Enchantment::try_from(value).ok();
            proof {
                if (value as u8) < 38 {
                    let e = choose|e: Enchantment| enchantment_index(e) == (value as u8) as int;
                    lemma_enchantment_index_injective(e, hint.unwrap());
                }
            }
            self.button_data[i] = EnchantmentButton { enchantment_hint: hint, ..old_b };
        } else if 7 <= property && property <= 9 {
            let i = (property - 7) as usize;
            let old_b = self.button_data[i];
            self.button_data[i] = EnchantmentButton { enchantment_level: option_value, ..old_b };
        }
        let ghost b1 = self.button_data@;
        let ghost id0 = self.id;
        let ghost cs0 = self.client_state_id;
        proof {
            assert(b1 =~= updated_buttons(b0, property, value));
        }
        let mut i: usize = 0;
        while i < 3
            invariant
                i <= 3,
                self.id == id0,
                self.client_state_id == cs0,
                forall|j: int| 0 <= j < i ==> #[trigger] self.button_data@[j] == cleared(b1[j]),
                forall|j: int| i <= j < 3 ==> #[trigger] self.button_data@[j] == b1[j],
            decreases 3 - i,
        {
            if self.button_data[i].level_required == Some(0u8) {
                let old_b = self.button_data[i];
                self.button_data[i] = EnchantmentButton { level_required: None, ..old_b };
            }
            i = i + 1;
        }
        self.dirty = true;
    }

    pub fn id(&self) -> (r: i32)
        ensures
            r == self.id,
    {
        self.id
    }

    pub fn get_client_state_id(&self) -> (r: i16)
        ensures
            r == self.client_state_id,
    {
        self.client_state_id
    }

    pub fn set_client_state_id(&mut self, client_state_id: i16)
        ensures
            final(self).client_state_id == client_state_id,
            final(self).dirty,
            final(self).id == old(self).id,
            final(self).button_data == old(self).button_data,
    {
        self.client_state_id = client_state_id;
        self.dirty = true;
    }

    pub fn ty(&self) -> (t: InventoryType)
        ensures
            t == InventoryType::EnchantingTable,
    {
        InventoryType::EnchantingTable
    }
}

} // verus!

use vstd::prelude::*;

use crate::console::text::text_eq;
use crate::inventory::{InventoryType, Material};

verus! {

/// The status effects a beacon can give, in protocol order (the effect with
/// protocol id `n` is at position `n - 1`).
#[derive(Clone, Copy, Debug, PartialEq, Eq, Structural)]
pub enum Effect {
    Speed,
    Slowness,
    Haste,
    MiningFatigue,
    Strength,
    InstantHealth,
    InstantDamage,
    JumpBoost,
    Nausea,
    Regeneration,
    Resistance,
    FireResistance,
    WaterBreathing,
    Invisibility,
    Blindness,
    NightVision,
    Hunger,
    Weakness,
    Poison,
    Wither,
    HealthBoost,
    Absorption,
    Saturation,
    Glowing,
    Levitation,
    Luck,
    BadLuck,
    SlowFalling,
    ConduitPower,
    DolphinsGrace,
    BadOmen,
    HerooftheVillage,
    Darkness,
}

/// The position of an effect in protocol order.
pub open spec fn effect_index(e: Effect) -> int {
    match e {
        Effect::Speed => 0,
        Effect::Slowness => 1,
        Effect::Haste => 2,
        Effect::MiningFatigue => 3,
        Effect::Strength => 4,
        Effect::InstantHealth => 5,
        Effect::InstantDamage => 6,
        Effect::JumpBoost => 7,
        Effect::Nausea => 8,
        Effect::Regeneration => 9,
        Effect::Resistance => 10,
        Effect::FireResistance => 11,
        Effect::WaterBreathing => 12,
        Effect::Invisibility => 13,
        Effect::Blindness => 14,
        Effect::NightVision => 15,
        Effect::Hunger => 16,
        Effect::Weakness => 17,
        Effect::Poison => 18,
        Effect::Wither => 19,
        Effect::HealthBoost => 20,
        Effect::Absorption => 21,
        Effect::Saturation => 22,
        Effect::Glowing => 23,
        Effect::Levitation => 24,
        Effect::Luck => 25,
        Effect::BadLuck => 26,
        Effect::SlowFalling => 27,
        Effect::ConduitPower => 28,
        Effect::DolphinsGrace => 29,
        Effect::BadOmen => 30,
        Effect::HerooftheVillage => 31,
        Effect::Darkness => 32,
    }
}

/// The effect at position `i` in protocol order.
pub open spec fn effect_at(i: int) -> Effect {
    if i == 0 {
        Effect::Speed
    } else if i == 1 {
        Effect::Slowness
    } else if i == 2 {
        Effect::Haste
    } else if i == 3 {
        Effect::MiningFatigue
    } else if i == 4 {
        Effect::Strength
    } else if i == 5 {
        Effect::InstantHealth
    } else if i == 6 {
        Effect::InstantDamage
    } else if i == 7 {
        Effect::JumpBoost
    } else if i == 8 {
        Effect::Nausea
    } else if i == 9 {
        Effect::Regeneration
    } else if i == 10 {
        Effect::Resistance
    } else if i == 11 {
        Effect::FireResistance
    } else if i == 12 {
        Effect::WaterBreathing
    } else if i == 13 {
        Effect::Invisibility
    } else if i == 14 {
        Effect::Blindness
    } else if i == 15 {
        Effect::NightVision
    } else if i == 16 {
        Effect::Hunger
    } else if i == 17 {
        Effect::Weakness
    } else if i == 18 {
        Effect::Poison
    } else if i == 19 {
        Effect::Wither
    } else if i == 20 {
        Effect::HealthBoost
    } else if i == 21 {
        Effect::Absorption
    } else if i == 22 {
        Effect::Saturation
    } else if i == 23 {
        Effect::Glowing
    } else if i == 24 {
        Effect::Levitation
    } else if i == 25 {
        Effect::Luck
    } else if i == 26 {
        Effect::BadLuck
    } else if i == 27 {
        Effect::SlowFalling
    } else if i == 28 {
        Effect::ConduitPower
    } else if i == 29 {
        Effect::DolphinsGrace
    } else if i == 30 {
        Effect::BadOmen
    } else if i == 31 {
        Effect::HerooftheVillage
    } else {
        Effect::Darkness
    }
}

/// The texture of an effect's icon.
pub open spec fn effect_texture(e: Effect) -> Seq<char> {
    match e {
        Effect::Speed => "minecraft:mob_effect/speed"@,
        Effect::Slowness => "minecraft:mob_effect/slowness"@,
        Effect::Haste => "minecraft:mob_effect/haste"@,
        Effect::MiningFatigue => "minecraft:mob_effect/minig_fatigue"@,
        Effect::Strength => "minecraft:mob_effect/strength"@,
        Effect::InstantHealth => "minecraft:mob_effect/instant_health"@,
        Effect::InstantDamage => "minecraft:mob_effect/instant_damage"@,
        Effect::JumpBoost => "minecraft:mob_effect/jump_boost"@,
        Effect::Nausea => "minecraft:mob_effect/nausea"@,
        Effect::Regeneration => "minecraft:mob_effect/regeneration"@,
        Effect::Resistance => "minecraft:mob_effect/resistance"@,
        Effect::FireResistance => "minecraft:mob_effect/fire_resistance"@,
        Effect::WaterBreathing => "minecraft:mob_effect/water_breathing"@,
        Effect::Invisibility => "minecraft:mob_effect/invisibility"@,
        Effect::Blindness => "minecraft:mob_effect/blindness"@,
        Effect::NightVision => "minecraft:mob_effect/night_vision"@,
        Effect::Hunger => "minecraft:mob_effect/hunger"@,
        Effect::Weakness => "minecraft:mob_effect/weakness"@,
        Effect::Poison => "minecraft:mob_effect/poison"@,
        Effect::Wither => "minecraft:mob_effect/wither"@,
        Effect::HealthBoost => "minecraft:mob_effect/health_boost"@,
        Effect::Absorption => "minecraft:mob_effect/absorption"@,
        Effect::Saturation => "minecraft:mob_effect/saturation"@,
        Effect::Glowing => "minecraft:mob_effect/glowing"@,
        Effect::Levitation => "minecraft:mob_effect/levitation"@,
        Effect::Luck => "minecraft:mob_effect/luck"@,
        Effect::BadLuck => "minecraft:mob_effect/bad_luck"@,
        Effect::SlowFalling => "minecraft:mob_effect/slow_falling"@,
        Effect::ConduitPower => "minecraft:mob_effect/conduit_power"@,
        Effect::DolphinsGrace => "minecraft:mob_effect/dolphins_grace"@,
        Effect::BadOmen => "minecraft:mob_effect/bad_omen"@,
        Effect::HerooftheVillage => "minecraft:mob_effect/hero_of_the_village"@,
        Effect::Darkness => "minecraft:mob_effect/darkness"@,
    }
}

/// The error texts of `Effect::try_from`.
pub open spec fn effect_error(value: i16) -> Seq<char> {
    if value == -1 {
        "no effect"@
    } else {
        "tried to set a effect that is unknown"@
    }
}

impl Effect {
    /// The effect with protocol id `value` (1 to 33); `-1` stands for no effect.
    pub fn try_from(value: i16) -> (r: Result<Effect, &'static str>)
        ensures
            match r {
                Ok(e) => 1 <= value <= 33 && effect_index(e) == value - 1,
                Err(m) => !(1 <= value <= 33) && m@ == effect_error(value),
            },
    {
        if 1 <= value && value < 34 {
            Ok(Effect::from_index((value - 1) as u8))
        } else if value == -1 {
            Err("no effect")
        } else {
            Err("tried to set a effect that is unknown")
        }
    }

    fn from_index(i: u8) -> (e: Effect)
        requires
            i < 33,
        ensures
            effect_index(e) == i,
            e == effect_at(i as int),
    {
        match i {
            0 => Effect::Speed,
            1 => Effect::Slowness,
            2 => Effect::Haste,
            3 => Effect::MiningFatigue,
            4 => Effect::Strength,
            5 => Effect::InstantHealth,
            6 => Effect::InstantDamage,
            7 => Effect::JumpBoost,
            8 => Effect::Nausea,
            9 => Effect::Regeneration,
            10 => Effect::Resistance,
            11 => Effect::FireResistance,
            12 => Effect::WaterBreathing,
            13 => Effect::Invisibility,
            14 => Effect::Blindness,
            15 => Effect::NightVision,
            16 => Effect::Hunger,
            17 => Effect::Weakness,
            18 => Effect::Poison,
            19 => Effect::Wither,
            20 => Effect::HealthBoost,
            21 => Effect::Absorption,
            22 => Effect::Saturation,
            23 => Effect::Glowing,
            24 => Effect::Levitation,
            25 => Effect::Luck,
            26 => Effect::BadLuck,
            27 => Effect::SlowFalling,
            28 => Effect::ConduitPower,
            29 => Effect::DolphinsGrace,
            30 => Effect::BadOmen,
            31 => Effect::HerooftheVillage,
            _ => Effect::Darkness,
        }
    }

    /// The protocol id of this effect.
    pub fn into_u8(self) -> (v: u8)
        ensures
            v == effect_index(self) + 1,
    {
        match self {
            Effect::Speed => 1,
            Effect::Slowness => 2,
            Effect::Haste => 3,
            Effect::MiningFatigue => 4,
            Effect::Strength => 5,
            Effect::InstantHealth => 6,
            Effect::InstantDamage => 7,
            Effect::JumpBoost => 8,
            Effect::Nausea => 9,
            Effect::Regeneration => 10,
            Effect::Resistance => 11,
            Effect::FireResistance => 12,
            Effect::WaterBreathing => 13,
            Effect::Invisibility => 14,
            Effect::Blindness => 15,
            Effect::NightVision => 16,
            Effect::Hunger => 17,
            Effect::Weakness => 18,
            Effect::Poison => 19,
            Effect::Wither => 20,
            Effect::HealthBoost => 21,
            Effect::Absorption => 22,
            Effect::Saturation => 23,
            Effect::Glowing => 24,
            Effect::Levitation => 25,
            Effect::Luck => 26,
            Effect::BadLuck => 27,
            Effect::SlowFalling => 28,
            Effect::ConduitPower => 29,
            Effect::DolphinsGrace => 30,
            Effect::BadOmen => 31,
            Effect::HerooftheVillage => 32,
            Effect::Darkness => 33,
        }
    }

    /// The texture of this effect's icon.
    pub fn get_texture(&self) -> (s: String)
        ensures
            s@ == effect_texture(*self),
    {
        match self {
            Effect::Speed => String::from_str("minecraft:mob_effect/speed"),
            Effect::Slowness => String::from_str("minecraft:mob_effect/slowness"),
            Effect::Haste => String::from_str("minecraft:mob_effect/haste"),
            Effect::MiningFatigue => String::from_str("minecraft:mob_effect/minig_fatigue"),
            Effect::Strength => String::from_str("minecraft:mob_effect/strength"),
            Effect::InstantHealth => String::from_str("minecraft:mob_effect/instant_health"),
            Effect::InstantDamage => String::from_str("minecraft:mob_effect/instant_damage"),
            Effect::JumpBoost => String::from_str("minecraft:mob_effect/jump_boost"),
            Effect::Nausea => String::from_str("minecraft:mob_effect/nausea"),
            Effect::Regeneration => String::from_str("minecraft:mob_effect/regeneration"),
            Effect::Resistance => String::from_str("minecraft:mob_effect/resistance"),
            Effect::FireResistance => String::from_str("minecraft:mob_effect/fire_resistance"),
            Effect::WaterBreathing => String::from_str("minecraft:mob_effect/water_breathing"),
            Effect::Invisibility => String::from_str("minecraft:mob_effect/invisibility"),
            Effect::Blindness => String::from_str("minecraft:mob_effect/blindness"),
            Effect::NightVision => String::from_str("minecraft:mob_effect/night_vision"),
            Effect::Hunger => String::from_str("minecraft:mob_effect/hunger"),
            Effect::Weakness => String::from_str("minecraft:mob_effect/weakness"),
            Effect::Poison => String::from_str("minecraft:mob_effect/poison"),
            Effect::Wither => String::from_str("minecraft:mob_effect/wither"),
            Effect::HealthBoost => String::from_str("minecraft:mob_effect/health_boost"),
            Effect::Absorption => String::from_str("minecraft:mob_effect/absorption"),
            Effect::Saturation => String::from_str("minecraft:mob_effect/saturation"),
            Effect::Glowing => String::from_str("minecraft:mob_effect/glowing"),
            Effect::Levitation => String::from_str("minecraft:mob_effect/levitation"),
            Effect::Luck => String::from_str("minecraft:mob_effect/luck"),
            Effect::BadLuck => String::from_str("minecraft:mob_effect/bad_luck"),
            Effect::SlowFalling => String::from_str("minecraft:mob_effect/slow_falling"),
            Effect::ConduitPower => String::from_str("minecraft:mob_effect/conduit_power"),
            Effect::DolphinsGrace => String::from_str("minecraft:mob_effect/dolphins_grace"),
            Effect::BadOmen => String::from_str("minecraft:mob_effect/bad_omen"),
            Effect::HerooftheVillage => String::from_str("minecraft:mob_effect/hero_of_the_village"),
            Effect::Darkness => String::from_str("minecraft:mob_effect/darkness"),
        }
    }
}

/// An effect's protocol id reads back as the same effect, and an id the
/// reader accepts is the id of the effect it gives.
pub proof fn law_effect_id_roundtrip(e: Effect, v: i16)
    ensures
        1 <= effect_index(e) + 1 <= 33,
        effect_at(effect_index(e)) == e,
        (1 <= v <= 33) ==> effect_index(effect_at(v - 1)) == v - 1,
{
}

/// The state of a beacon button, shown by which part of the texture it uses.
#[derive(Clone, Copy, Debug, PartialEq, Eq, Structural)]
pub enum ButtonState {
    Active,
    Pressed,
    Inactive,
    Focused,
}

/// What the server told about the beacon: its power level and chosen effects.
#[derive(Clone, Copy, Debug, PartialEq, Eq, Structural)]
pub struct BeaconInfo {
    pub power_level: u8,
    pub effect1: Option<Effect>,
    pub effect2: Option<Effect>,
}

/// The effect the server names by `value`, if it names one.
pub open spec fn effect_of_value(value: i16) -> Option<Effect> {
    if 1 <= value <= 33 {
        Some(effect_at(value - 1))
    } else {
        None
    }
}

/// The state of a beacon window that is kept apart from its slots and drawing.
pub struct BeaconInventory {
    pub client_state_id: i16,
    pub id: i32,
    pub info: BeaconInfo,
    /// The window needs to be redrawn.
    pub dirty: bool,
}

impl BeaconInventory {
    pub fn new(id: i32) -> (r: Self)
        ensures
            r.id == id,
            r.client_state_id == 0,
            r.info == (BeaconInfo { power_level: 0, effect1: None, effect2: None }),
            r.dirty,
    {
        BeaconInventory {
            client_state_id: 0,
            id,
            info: BeaconInfo { power_level: 0, effect1: None, effect2: None },
            dirty: true,
        }
    }

    /// Takes in a window property sent by the server: 0 is the power level,
    /// 1 and 2 the primary and secondary effect; other properties are ignored.
    pub fn handle_property_packet(&mut self, property: i16, value: i16)
        ensures
            final(self).info == (if property == 0 {
                BeaconInfo { power_level: value as u8, ..old(self).info }
            } else if property == 1 {
                BeaconInfo { effect1: effect_of_value(value), ..old(self).info }
            } else if property == 2 {
                BeaconInfo { effect2: effect_of_value(value), ..old(self).info }
            } else {
                old(self).info
            }),
            final(self).dirty,
            final(self).id == old(self).id,
            final(self).client_state_id == old(self).client_state_id,
    {
        if property == 0 {
            self.info.power_level = value as u8;
        } else if property == 1 {
            self.info.effect1 = Effect::try_from(value).ok();
        } else if property == 2 {
            self.info.effect2 = Effect::try_from(value).ok();
        }
        self.dirty = true;
    }

    pub fn id(&self) -> (r: i32)
        ensures
            r == self.id,
    {
        self.id
    }

    pub fn get_client_state_id(&self) -> (r: i16)
        ensures
            r == self.client_state_id,
    {
        self.client_state_id
    }

    pub fn set_client_state_id(&mut self, client_state_id: i16)
        ensures
            final(self).client_state_id == client_state_id,
            final(self).dirty,
            final(self).id == old(self).id,
            final(self).info == old(self).info,
    {
        self.client_state_id = client_state_id;
        self.dirty = true;
    }

    pub fn ty(&self) -> (t: InventoryType)
        ensures
            t == InventoryType::Beacon,
    {
        InventoryType::Beacon
    }
}


// ---------------------------------------------------------------------------
// The controls of a beacon window.
// ---------------------------------------------------------------------------

/// The controls of a beacon window. `faces` holds, for each of the window's
/// 22 elements, which of the four button faces its texture shows, if any:
/// element 0 is the background, 1 to 8 are the buttons (the five primary
/// effects, regeneration, the second level of the primary effect, and the
/// confirming tick), 9 to 15 the effect icons, 16 the tick's image and 17 to 21
/// the payment items. `textures` holds the texture each element is drawn
/// from (the last effect icon shows the effect that the right-hand buttons
/// strengthen), and `secondary_shown` whether that icon and the second-level
/// button are shown.
pub struct BeaconPanel {
    pub faces: Vec<Option<ButtonState>>,
    pub textures: Vec<String>,
    pub secondary_shown: bool,
}

#[verifier::ext_equal]
pub struct BeaconPanelView {
    pub faces: Seq<Option<ButtonState>>,
    pub textures: Seq<Seq<char>>,
    pub secondary_shown: bool,
}

impl View for BeaconPanel {
    type V = BeaconPanelView;

    open spec fn view(&self) -> BeaconPanelView {
        BeaconPanelView {
            faces: self.faces@,
            textures: self.textures@.map_values(|t: String| t@),
            secondary_shown: self.secondary_shown,
        }
    }
}

/// The number of elements of a beacon window.
pub open spec fn panel_elements() -> int {
    22
}

/// The texture of effect icon `i` (0 to 6), element `i + 9` of the window.
pub open spec fn icon(p: BeaconPanelView, i: int) -> Seq<char> {
    p.textures[i + 9]
}

/// The button face that element `b` shows.
pub open spec fn button(p: BeaconPanelView, b: int) -> ButtonState {
    p.faces[b]->0
}

/// Element `b` shows the face of `s`.
pub open spec fn with_button(p: BeaconPanelView, b: int, s: ButtonState) -> BeaconPanelView {
    BeaconPanelView { faces: p.faces.update(b, Some(s)), ..p }
}

/// The panel with `t` as the texture of the strengthened effect's icon, which
/// is shown along with the second-level button.
pub open spec fn with_secondary(p: BeaconPanelView, t: Seq<char>) -> BeaconPanelView {
    BeaconPanelView { textures: p.textures.update(15, t), secondary_shown: true, ..p }
}

/// The panel as a beacon window opens: every button inactive, the window's
/// textures (the icons of speed, haste, resistance, jump boost, strength and
/// regeneration, an empty icon, the payment items), and the right-hand
/// controls hidden.
pub open spec fn initial_panel() -> BeaconPanelView {
    BeaconPanelView {
        faces: Seq::new(
            22,
            |e: int|
                if 1 <= e <= 8 {
                    Some(ButtonState::Inactive)
                } else {
                    None
                },
        ),
        textures: seq![
            "minecraft:gui/container/beacon"@,
            "minecraft:gui/container/beacon"@,
            "minecraft:gui/container/beacon"@,
            "minecraft:gui/container/beacon"@,
            "minecraft:gui/container/beacon"@,
            "minecraft:gui/container/beacon"@,
            "minecraft:gui/container/beacon"@,
            "minecraft:gui/container/beacon"@,
            "minecraft:gui/container/beacon"@,
            "minecraft:mob_effect/speed"@,
            "minecraft:mob_effect/haste"@,
            "minecraft:mob_effect/resistance"@,
            "minecraft:mob_effect/jump_boost"@,
            "minecraft:mob_effect/strength"@,
            "minecraft:mob_effect/regeneration"@,
            Seq::<char>::empty(),
            "minecraft:gui/container/beacon"@,
            "minecraft:item/netherite_ingot"@,
            "minecraft:item/emerald"@,
            "minecraft:item/diamond"@,
            "minecraft:item/gold_ingot"@,
            "minecraft:item/iron_ingot"@,
        ],
        secondary_shown: false,
    }
}

impl BeaconPanel {
    pub open spec fn wf(&self) -> bool {
        &&& self.faces@.len() == panel_elements()
        &&& self.textures@.len() == panel_elements()
        &&& forall|b: int| 1 <= b <= 8 ==> (#[trigger] self.faces@[b]) is Some
    }

    pub fn new() -> (p: Self)
        ensures
            p.wf(),
            p@ == initial_panel(),
    {
        let mut faces: Vec<Option<ButtonState>> = Vec::new();
        let mut k: usize = 0;
        while k < 22
            invariant
                k <= 22,
                faces@.len() == k,
                forall|j: int| 0 <= j < k ==> faces@[j] == initial_panel().faces[j],
            decreases 22 - k,
        {
            if 1 <= k && k <= 8 {
                faces.push(Some(ButtonState::Inactive));
            } else {
                faces.push(None);
            }
            k = k + 1;
        }
        let mut textures: Vec<String> = Vec::new();
        let mut k: usize = 0;
        while k < 9
            invariant
                k <= 9,
                textures@.len() == k,
                forall|j: int| 0 <= j < k ==> textures@[j]@ == "minecraft:gui/container/beacon"@,
            decreases 9 - k,
        {
            textures.push(String::from_str("minecraft:gui/container/beacon"));
            k = k + 1;
        }
        textures.push(String::from_str("minecraft:mob_effect/speed"));
        textures.push(String::from_str("minecraft:mob_effect/haste"));
        textures.push(String::from_str("minecraft:mob_effect/resistance"));
        textures.push(String::from_str("minecraft:mob_effect/jump_boost"));
        textures.push(String::from_str("minecraft:mob_effect/strength"));
        textures.push(String::from_str("minecraft:mob_effect/regeneration"));
        textures.push(String::new());
        textures.push(String::from_str("minecraft:gui/container/beacon"));
        textures.push(String::from_str("minecraft:item/netherite_ingot"));
        textures.push(String::from_str("minecraft:item/emerald"));
        textures.push(String::from_str("minecraft:item/diamond"));
        textures.push(String::from_str("minecraft:item/gold_ingot"));
        textures.push(String::from_str("minecraft:item/iron_ingot"));
        let p = BeaconPanel { faces, textures, secondary_shown: false };
        proof {
            assert(p@.faces =~= initial_panel().faces);
            assert(p@.textures =~= initial_panel().textures);
        }
        p
    }
}

/// The button face that element `btn` shows. The element must exist and show
/// one of the four faces (the buttons always do).
pub fn get_button_state(btn: usize, panel: &BeaconPanel) -> (s: ButtonState)
    requires
        panel.wf(),
        btn < panel_elements(),
        panel@.faces[btn as int] is Some,
    ensures
        s == button(panel@, btn as int),
{
    match panel.faces[btn] {
        Some(s) => s,
        None => ButtonState::Inactive,
    }
}

/// Makes element `btn` show the face of `state`; an element beyond the
/// window's is left alone.
pub fn set_button_state(state: ButtonState, btn: usize, panel: &mut BeaconPanel)
    requires
        old(panel).wf(),
    ensures
        final(panel).wf(),
        final(panel)@ == (if btn < panel_elements() {
            with_button(old(panel)@, btn as int, state)
        } else {
            old(panel)@
        }),
{
    if btn < panel.faces.len() {
        panel.faces.set(btn, Some(state));
        proof {
            assert(panel@.faces =~= with_button(old(panel)@, btn as int, state).faces);
            assert(panel@.textures =~= old(panel)@.textures);
        }
    }
}

/// Setting the face of an element of the window and reading it back gives
/// that face, and leaves every other element as it was.
pub proof fn law_set_then_get_button(p: BeaconPanelView, b: int, s: ButtonState)
    requires
        p.faces.len() == panel_elements(),
        0 <= b < panel_elements(),
    ensures
        button(with_button(p, b, s), b) == s,
        with_button(p, b, s).faces[b] is Some,
        forall|e: int| 0 <= e < panel_elements() && e != b ==> #[trigger] with_button(p, b, s).faces[e] == p.faces[e],
        with_button(p, b, s).textures == p.textures,
        with_button(p, b, s).secondary_shown == p.secondary_shown,
{
}

/// The texture element `element` of the window is drawn from.
pub fn get_texture(element: usize, panel: &BeaconPanel) -> (t: String)
    requires
        panel.wf(),
        element < panel_elements(),
    ensures
        t@ == panel@.textures[element as int],
{
    panel.textures[element].clone()
}

/// Shows `texture` as the strengthened effect's icon, and shows it and the
/// second-level button.
pub fn set_secondary_power(texture: String, panel: &mut BeaconPanel)
    requires
        old(panel).wf(),
    ensures
        final(panel).wf(),
        final(panel)@ == with_secondary(old(panel)@, texture@),
{
    let ghost t = texture@;
    panel.textures.set(15, texture);
    panel.secondary_shown = true;
    proof {
        assert(panel@.textures =~= with_secondary(old(panel)@, t).textures);
        assert(panel@.faces =~= old(panel)@.faces);
    }
}

// ---------------------------------------------------------------------------
// What a tick of the beacon window does.
// ---------------------------------------------------------------------------

/// The beacon window's controls together with what is known of the beacon.
#[verifier::ext_equal]
pub struct BeaconModel {
    pub panel: BeaconPanelView,
    pub info: BeaconInfo,
}

/// Whether the window must be brought up to date: a primary button is pressed
/// whose effect is not the one shown on the right, or both right-hand buttons
/// are pressed.
pub open spec fn choice_changed(p: BeaconPanelView) -> bool {
    ||| exists|i: int|
        0 <= i < 5 && button(p, i + 1) == ButtonState::Pressed && #[trigger] icon(p, i) != icon(p, 6)
    ||| button(p, 6) == ButtonState::Pressed && button(p, 7) == ButtonState::Pressed
}

/// The effect of primary button `i` (0 to 4): speed, haste, resistance, jump
/// boost, strength.
pub open spec fn primary_effect(i: int) -> Option<Effect> {
    effect_of_value(
        if i == 0 {
            1
        } else if i == 1 {
            3
        } else if i == 2 {
            11
        } else if i == 3 {
            8
        } else if i == 4 {
            5
        } else {
            -1i16
        },
    )
}

/// The materials a beacon accepts as payment.
pub open spec fn is_payment(m: Material) -> bool {
    ||| m == Material::GoldIngot
    ||| m == Material::Diamond
    ||| m == Material::IronIngot
    ||| m == Material::Emerald
    ||| m == Material::NetheriteIngot
}

/// The buttons 1 to `m` that showed the inactive face become active.
pub open spec fn activate_levels(p: BeaconPanelView, m: int) -> BeaconPanelView {
    BeaconPanelView {
        faces: Seq::new(
            p.faces.len(),
            |e: int|
                if 1 <= e <= m && p.faces[e] == Some(ButtonState::Inactive) {
                    Some(ButtonState::Active)
                } else {
                    p.faces[e]
                },
        ),
        ..p
    }
}

/// The primary buttons 1 to `m` other than button `i + 1` become active.
pub open spec fn release_others(p: BeaconPanelView, i: int, m: int) -> BeaconPanelView {
    BeaconPanelView {
        faces: Seq::new(
            p.faces.len(),
            |e: int|
                if 1 <= e <= m && e != i + 1 {
                    Some(ButtonState::Active)
                } else {
                    p.faces[e]
                },
        ),
        ..p
    }
}

/// Shows the chosen effects: the primary one on the right (with its second
/// level offered at power four), and the secondary one as a pressed button.
pub open spec fn show_chosen(s: BeaconModel) -> BeaconModel {
    let p1 = match s.info.effect1 {
        Some(e) => with_secondary(
            if s.info.power_level == 4 && button(s.panel, 7) == ButtonState::Inactive {
                with_button(s.panel, 7, ButtonState::Active)
            } else {
                s.panel
            },
            effect_texture(e),
        ),
        None => s.panel,
    };
    let p2 = match s.info.effect2 {
        Some(e2) => if e2 == Effect::Regeneration {
            with_button(p1, 6, ButtonState::Pressed)
        } else {
            with_button(p1, 7, ButtonState::Pressed)
        },
        None => p1,
    };
    BeaconModel { panel: p2, info: s.info }
}

/// What the window does for primary button `i` (`m`: the number of primary
/// buttons the power level unlocks; `payment`: the material in the payment
/// slot): the button of the effect shown on the right is pressed; a pressed
/// button for another effect makes that effect the primary one and releases
/// the others; at power four a pressed right-hand button sets the secondary
/// effect; the tick is offered when a payment lies in the slot.
pub open spec fn select_step(s: BeaconModel, i: int, m: int, payment: Option<Material>) -> BeaconModel {
    let e = primary_effect(i);
    let p0 = s.panel;
    let p1 = if icon(p0, i) == icon(p0, 6) {
        with_button(p0, i + 1, ButtonState::Pressed)
    } else {
        p0
    };
    let chosen = button(p1, i + 1) == ButtonState::Pressed && icon(p1, 6) != icon(p1, i);
    let p2 = if chosen {
        release_others(
            with_secondary(
                if s.info.power_level == 4 {
                    with_button(p1, 7, ButtonState::Active)
                } else {
                    p1
                },
                icon(p1, i),
            ),
            i,
            m,
        )
    } else {
        p1
    };
    let effect1 = if chosen {
        e
    } else {
        s.info.effect1
    };
    let upgrade = s.info.power_level == 4 && button(p2, i + 1) == ButtonState::Pressed;
    let regen = upgrade && button(p2, 6) == ButtonState::Pressed && s.info.effect2 != Some(
        Effect::Regeneration,
    );
    let level_two = upgrade && !regen && button(p2, 7) == ButtonState::Pressed && s.info.effect2
        != e;
    let p3 = if regen {
        with_button(p2, 7, ButtonState::Active)
    } else if level_two {
        with_button(p2, 6, ButtonState::Active)
    } else {
        p2
    };
    let effect2 = if regen {
        Some(Effect::Regeneration)
    } else if level_two {
        e
    } else {
        s.info.effect2
    };
    let paid = match payment {
        Some(mat) => is_payment(mat),
        None => false,
    };
    BeaconModel {
        panel: with_button(
            p3,
            8,
            if paid {
                ButtonState::Active
            } else {
                ButtonState::Inactive
            },
        ),
        info: BeaconInfo { effect1, effect2, ..s.info },
    }
}

/// The primary buttons `0..k` handled in turn.
pub open spec fn select_upto(s: BeaconModel, k: int, m: int, payment: Option<Material>) -> BeaconModel
    decreases k,
{
    if k <= 0 {
        s
    } else {
        select_step(select_upto(s, k - 1, m, payment), k - 1, m, payment)
    }
}

pub open spec fn min_int(a: int, b: int) -> int {
    if a < b {
        a
    } else {
        b
    }
}

/// Bringing the window up to date: the buttons the power level unlocks (two
/// per level) become active, the chosen effects are shown, and then each
/// unlocked primary button is handled.
pub open spec fn refreshed(s: BeaconModel, payment: Option<Material>) -> BeaconModel {
    let n = 2 * s.info.power_level;
    let m = min_int(n, 5);
    let s1 = BeaconModel { panel: activate_levels(s.panel, min_int(n, 7)), info: s.info };
    select_upto(show_chosen(s1), m, m, payment)
}

/// A payment the beacon takes, by name: gold ingot, diamond, iron ingot,
/// emerald or netherite ingot.
pub open spec fn offered_payment(payment: Option<Material>) -> bool {
    ||| payment == Some(Material::GoldIngot)
    ||| payment == Some(Material::Diamond)
    ||| payment == Some(Material::IronIngot)
    ||| payment == Some(Material::Emerald)
    ||| payment == Some(Material::NetheriteIngot)
}

proof fn lemma_select_step_confirm(st: BeaconModel, i: int, m: int, payment: Option<Material>)
    requires
        st.panel.faces.len() == panel_elements(),
        0 <= i < 5,
    ensures
        select_step(st, i, m, payment).panel.faces.len() == panel_elements(),
        button(select_step(st, i, m, payment).panel, 8) == (if offered_payment(payment) {
            ButtonState::Active
        } else {
            ButtonState::Inactive
        }),
{
    let p0 = st.panel;
    let p1 = if icon(p0, i) == icon(p0, 6) {
        with_button(p0, i + 1, ButtonState::Pressed)
    } else {
        p0
    };
    assert(p1.faces.len() == panel_elements());
    let chosen = button(p1, i + 1) == ButtonState::Pressed && icon(p1, 6) != icon(p1, i);
    let q = if st.info.power_level == 4 {
        with_button(p1, 7, ButtonState::Active)
    } else {
        p1
    };
    assert(q.faces.len() == panel_elements());
    let p2 = if chosen {
        release_others(with_secondary(q, icon(p1, i)), i, m)
    } else {
        p1
    };
    assert(p2.faces.len() == panel_elements());
    let r = select_step(st, i, m, payment);
    let paid = match payment {
        Some(mat) => is_payment(mat),
        None => false,
    };
    assert(paid == offered_payment(payment));
    assert(r.panel.faces.len() == panel_elements());
    assert(r.panel.faces[8] == Some(if paid {
        ButtonState::Active
    } else {
        ButtonState::Inactive
    }));
}

proof fn lemma_select_upto_len(st: BeaconModel, k: int, m: int, payment: Option<Material>)
    requires
        st.panel.faces.len() == panel_elements(),
        k <= 5,
    ensures
        select_upto(st, k, m, payment).panel.faces.len() == panel_elements(),
    decreases k,
{
    if k > 0 {
        lemma_select_upto_len(st, k - 1, m, payment);
        lemma_select_step_confirm(select_upto(st, k - 1, m, payment), k - 1, m, payment);
    }
}

/// Once the beacon has power, bringing the window up to date leaves the
/// confirming tick active exactly when the payment slot holds a gold ingot,
/// a diamond, an iron ingot, an emerald or a netherite ingot, and inactive
/// otherwise, whatever the buttons and effects were.
pub proof fn law_refresh_confirm_needs_payment(s: BeaconModel, payment: Option<Material>)
    requires
        s.panel.faces.len() == panel_elements(),
        s.info.power_level >= 1,
    ensures
        button(refreshed(s, payment).panel, 8) == (if offered_payment(payment) {
            ButtonState::Active
        } else {
            ButtonState::Inactive
        }),
{
    let n = 2 * s.info.power_level;
    let m = min_int(n, 5);
    let s1 = BeaconModel { panel: activate_levels(s.panel, min_int(n, 7)), info: s.info };
    let sc = show_chosen(s1);
    assert(sc.panel.faces.len() == panel_elements());
    lemma_select_upto_len(sc, m - 1, m, payment);
    lemma_select_step_confirm(select_upto(sc, m - 1, m, payment), m - 1, m, payment);
}

/// The effects the confirming tick sends: the primary effect's id and the
/// secondary effect's id, or -1 for none.
pub open spec fn effect_packet(info: BeaconInfo) -> (i32, i32) {
    (
        (effect_index(info.effect1->0) + 1) as i32,
        match info.effect2 {
            Some(e) => (effect_index(e) + 1) as i32,
            None => -1i32,
        },
    )
}

fn choice_changed_now(panel: &BeaconPanel) -> (b: bool)
    requires
        panel.wf(),
    ensures
        b == choice_changed(panel@),
{
    let right = get_texture(15, panel);
    let both = get_button_state(6, panel) == ButtonState::Pressed && get_button_state(7, panel)
        == ButtonState::Pressed;
    let mut changed = false;
    let mut i: usize = 0;
    while i < 5
        invariant
            panel.wf(),
            i <= 5,
            right@ == icon(panel@, 6),
            both == (button(panel@, 6) == ButtonState::Pressed && button(panel@, 7)
                == ButtonState::Pressed),
            changed == ((exists|j: int|
                0 <= j < i && button(panel@, j + 1) == ButtonState::Pressed && #[trigger] icon(panel@, j)
                    != icon(panel@, 6)) || (i > 0 && both)),
        decreases 5 - i,
    {
        let t = get_texture(i + 9, panel);
        if (get_button_state(i + 1, panel) == ButtonState::Pressed && !text_eq(
            t.as_str(),
            right.as_str(),
        )) || both {
            changed = true;
        }
        proof {
            if button(panel@, i + 1) == ButtonState::Pressed && icon(panel@, i as int)
                != icon(panel@, 6) {
                assert(exists|j: int|
                    0 <= j < i + 1 && button(panel@, j + 1) == ButtonState::Pressed
                        && #[trigger] icon(panel@, j) != icon(panel@, 6));
            }
        }
        i = i + 1;
    }
    changed
}

fn activate_unlocked(panel: &mut BeaconPanel, m: usize)
    requires
        old(panel).wf(),
        m <= 8,
    ensures
        final(panel).wf(),
        final(panel)@ == activate_levels(old(panel)@, m as int),
{
    let mut i: usize = 0;
    while i < m
        invariant
            panel.wf(),
            i <= m <= 8,
            panel@.textures == old(panel)@.textures,
            panel@.secondary_shown == old(panel)@.secondary_shown,
            panel@.faces =~= activate_levels(old(panel)@, i as int).faces,
        decreases m - i,
    {
        if get_button_state(i + 1, panel) == ButtonState::Inactive {
            set_button_state(ButtonState::Active, i + 1, panel);
        }
        proof {
            assert(panel@.faces =~= activate_levels(old(panel)@, i + 1).faces);
        }
        i = i + 1;
    }
}

fn release_other_buttons(panel: &mut BeaconPanel, i: usize, m: usize)
    requires
        old(panel).wf(),
        m <= 5,
    ensures
        final(panel).wf(),
        final(panel)@ == release_others(old(panel)@, i as int, m as int),
{
    let mut j: usize = 0;
    while j < m
        invariant
            panel.wf(),
            j <= m <= 5,
            panel@.textures == old(panel)@.textures,
            panel@.secondary_shown == old(panel)@.secondary_shown,
            panel@.faces =~= release_others(old(panel)@, i as int, j as int).faces,
        decreases m - j,
    {
        if j != i {
            set_button_state(ButtonState::Active, j + 1, panel);
        }
        proof {
            assert(panel@.faces =~= release_others(old(panel)@, i as int, j + 1).faces);
        }
        j = j + 1;
    }
}

fn show_chosen_effects(info: BeaconInfo, panel: &mut BeaconPanel)
    requires
        old(panel).wf(),
    ensures
        final(panel).wf(),
        final(panel)@ == show_chosen(BeaconModel { panel: old(panel)@, info }).panel,
{
    if let Some(effect) = info.effect1 {
        if info.power_level == 4 && get_button_state(7, panel) == ButtonState::Inactive {
            set_button_state(ButtonState::Active, 7, panel);
        }
        set_secondary_power(effect.get_texture(), panel);
    }
    if let Some(effect) = info.effect2 {
        if effect == Effect::Regeneration {
            set_button_state(ButtonState::Pressed, 6, panel);
        } else {
            set_button_state(ButtonState::Pressed, 7, panel);
        }
    }
}

fn primary_button_effect(i: usize) -> (e: Option<Effect>)
    ensures
        e == primary_effect(i as int),
{
    let value: i16 = match i {
        0 => 1,
        1 => 3,
        2 => 11,
        3 => 8,
        4 => 5,
        _ => -1,
    };
    match Effect::try_from(value) {
        Ok(e) => {
            proof {
                law_effect_id_roundtrip(e, value);
            }
            Some(e)
        },
        Err(_) => None,
    }
}

fn select_button(
    info: &mut BeaconInfo,
    panel: &mut BeaconPanel,
    i: usize,
    m: usize,
    payment: Option<Material>,
)
    requires
        old(panel).wf(),
        i < 5,
        m <= 5,
    ensures
        final(panel).wf(),
        final(panel)@ == select_step(BeaconModel { panel: old(panel)@, info: *old(info) }, i as int, m as int, payment).panel,
        *final(info) == select_step(BeaconModel { panel: old(panel)@, info: *old(info) }, i as int, m as int, payment).info,
{
    let this_btn_effect = primary_button_effect(i);
    let t = get_texture(i + 9, panel);
    let right = get_texture(15, panel);
    if text_eq(t.as_str(), right.as_str()) {
        set_button_state(ButtonState::Pressed, i + 1, panel);
    }
    let right = get_texture(15, panel);
    let t = get_texture(i + 9, panel);
    if get_button_state(i + 1, panel) == ButtonState::Pressed && !text_eq(right.as_str(), t.as_str()) {
        info.effect1 = this_btn_effect;
        if info.power_level == 4 {
            set_button_state(ButtonState::Active, 7, panel);
        }
        set_secondary_power(get_texture(i + 9, panel), panel);
        release_other_buttons(panel, i, m);
    }
    if info.power_level == 4 && get_button_state(i + 1, panel) == ButtonState::Pressed {
        if get_button_state(6, panel) == ButtonState::Pressed && info.effect2 != Some(
            Effect::Regeneration,
        ) {
            set_button_state(ButtonState::Active, 7, panel);
            info.effect2 = Some(Effect::Regeneration);
        } else if get_button_state(7, panel) == ButtonState::Pressed && info.effect2
            != this_btn_effect {
            set_button_state(ButtonState::Active, 6, panel);
            info.effect2 = this_btn_effect;
        }
    }
    let paid = match payment {
        Some(mat) => mat == Material::GoldIngot || mat == Material::Diamond || mat
            == Material::IronIngot || mat == Material::Emerald || mat == Material::NetheriteIngot,
        None => false,
    };
    if paid {
        set_button_state(ButtonState::Active, 8, panel);
    } else {
        set_button_state(ButtonState::Inactive, 8, panel);
    }
}

impl BeaconInventory {
    /// Brings the window's controls up to date, once per frame (its slots are
    /// drawn apart). A pressed confirming tick becomes active again and gives
    /// the chosen effects to send to the server. When the window is marked
    /// for redrawing, or the player changed the choice, the controls are
    /// refreshed (see `refreshed`), with `payment` the material in the
    /// payment slot; the mark is cleared.
    pub fn tick(&mut self, panel: &mut BeaconPanel, payment: Option<Material>) -> (packet: Option<
        (i32, i32),
    >)
        requires
            old(panel).wf(),
            button(old(panel)@, 8) == ButtonState::Pressed ==> old(self).info.effect1 is Some,
        ensures
            final(panel).wf(),
            !final(self).dirty,
            final(self).id == old(self).id,
            final(self).client_state_id == old(self).client_state_id,
            ({
                let sent = button(old(panel)@, 8) == ButtonState::Pressed;
                let p1 = if sent {
                    with_button(old(panel)@, 8, ButtonState::Active)
                } else {
                    old(panel)@
                };
                let after = refreshed(BeaconModel { panel: p1, info: old(self).info }, payment);
                &&& packet == (if sent {
                    Some(effect_packet(old(self).info))
                } else {
                    None
                })
                &&& (old(self).dirty || choice_changed(old(panel)@)) ==> final(panel)@ == after.panel
                    && final(self).info == after.info
                &&& !(old(self).dirty || choice_changed(old(panel)@)) ==> final(panel)@ == p1
                    && final(self).info == old(self).info
            }),
    {
        if choice_changed_now(panel) {
            self.dirty = true;
        }
        let mut packet: Option<(i32, i32)> = None;
        if get_button_state(8, panel) == ButtonState::Pressed {
            set_button_state(ButtonState::Active, 8, panel);
            let primary = match self.info.effect1 {
                Some(e) => e.into_u8() as i32,
                None => 0,
            };
            let secondary = match self.info.effect2 {
                Some(e) => e.into_u8() as i32,
                None => -1,
            };
            packet = Some((primary, secondary));
        }
        if self.dirty {
            self.dirty = false;
            let n: usize = self.info.power_level as usize * 2;
            let m7 = if n < 7 {
                n
            } else {
                7
            };
            let m5 = if n < 5 {
                n
            } else {
                5
            };
            let ghost p1 = panel@;
            activate_unlocked(panel, m7);
            show_chosen_effects(self.info, panel);
            let ghost start = show_chosen(
                BeaconModel { panel: activate_levels(p1, m7 as int), info: self.info },
            );
            let mut i: usize = 0;
            while i < m5
                invariant
                    panel.wf(),
                    i <= m5 <= 5,
                    m5 == min_int(2 * start.info.power_level, 5),
                    !self.dirty,
                    self.id == old(self).id,
                    self.client_state_id == old(self).client_state_id,
                    panel@ == select_upto(start, i as int, m5 as int, payment).panel,
                    self.info == select_upto(start, i as int, m5 as int, payment).info,
                decreases m5 - i,
            {
                select_button(&mut self.info, panel, i, m5, payment);
                i = i + 1;
            }
        }
        packet
    }
}

} // verus!

//! The closed set of abilities and the static catalog data attached to each:
//! its position in the canonical order, its rarity, its prerequisites, its
//! icon and its display name.

use vstd::prelude::*;
use crate::rarity::CheatCodeRarity;

verus! {

/// One value per unlockable ability, listed in canonical catalog order.
#[derive(PartialEq, Eq, Structural, Hash, Clone, Copy, Debug)]
pub enum CheatCodeKind {
    // Mandatory
    Jump,
    // Common
    Crouch,
    Attack,
    AttackDmgBoost,
    AttackFireRateBoost,
    MoveLeft,
    SpeedBoost1,
    SpeedBoost2,
    SpeedBoost3,
    Armor,
    Dash,
    // Rare
    DoubleJump,
    SpeedBoost4,
    SpeedBoost5,
    Shield,
    // Legendary
    ExtraLife,
    TempInvincibility,
    Fly,
}

/// The number of abilities in the catalog.
pub const KIND_COUNT: usize = 18;

impl CheatCodeKind {
    /// The position of an ability in the canonical catalog order.
    pub open spec fn ordinal(self) -> nat {
        match self {
            CheatCodeKind::Jump => 0,
            CheatCodeKind::Crouch => 1,
            CheatCodeKind::Attack => 2,
            CheatCodeKind::AttackDmgBoost => 3,
            CheatCodeKind::AttackFireRateBoost => 4,
            CheatCodeKind::MoveLeft => 5,
            CheatCodeKind::SpeedBoost1 => 6,
            CheatCodeKind::SpeedBoost2 => 7,
            CheatCodeKind::SpeedBoost3 => 8,
            CheatCodeKind::Armor => 9,
            CheatCodeKind::Dash => 10,
            CheatCodeKind::DoubleJump => 11,
            CheatCodeKind::SpeedBoost4 => 12,
            CheatCodeKind::SpeedBoost5 => 13,
            CheatCodeKind::Shield => 14,
            CheatCodeKind::ExtraLife => 15,
            CheatCodeKind::TempInvincibility => 16,
            CheatCodeKind::Fly => 17,
        }
    }

    /// The rarity tier of an ability.
    pub open spec fn rarity(self) -> CheatCodeRarity {
        match self {
            CheatCodeKind::Jump => CheatCodeRarity::Mandatory,
            CheatCodeKind::Crouch
            | CheatCodeKind::Attack
            | CheatCodeKind::AttackDmgBoost
            | CheatCodeKind::AttackFireRateBoost
            | CheatCodeKind::MoveLeft
            | CheatCodeKind::SpeedBoost1
            | CheatCodeKind::SpeedBoost2
            | CheatCodeKind::SpeedBoost3
            | CheatCodeKind::Armor
            | CheatCodeKind::Dash => CheatCodeRarity::Common,
            CheatCodeKind::DoubleJump
            | CheatCodeKind::SpeedBoost4
            | CheatCodeKind::SpeedBoost5
            | CheatCodeKind::Shield => CheatCodeRarity::Rare,
            CheatCodeKind::ExtraLife
            | CheatCodeKind::TempInvincibility
            | CheatCodeKind::Fly => CheatCodeRarity::Legendary,
        }
    }

    /// The abilities that must be activated before this one becomes eligible.
    pub open spec fn dependencies(self) -> Seq<CheatCodeKind> {
        match self {
            CheatCodeKind::Jump => seq![],
            CheatCodeKind::Crouch => seq![],
            CheatCodeKind::Attack => seq![],
            CheatCodeKind::AttackDmgBoost => seq![CheatCodeKind::Attack],
            CheatCodeKind::AttackFireRateBoost => seq![CheatCodeKind::Attack],
            CheatCodeKind::MoveLeft => seq![],
            CheatCodeKind::SpeedBoost1 => seq![],
            CheatCodeKind::SpeedBoost2 => seq![CheatCodeKind::SpeedBoost1],
            CheatCodeKind::SpeedBoost3 => seq![
                CheatCodeKind::SpeedBoost1,
                CheatCodeKind::SpeedBoost2,
            ],
            CheatCodeKind::Armor => seq![],
            CheatCodeKind::Dash => seq![],
            CheatCodeKind::DoubleJump => seq![CheatCodeKind::Jump],
            CheatCodeKind::SpeedBoost4 => seq![
                CheatCodeKind::SpeedBoost1,
                CheatCodeKind::SpeedBoost2,
                CheatCodeKind::SpeedBoost3,
            ],
            CheatCodeKind::SpeedBoost5 => seq![
                CheatCodeKind::SpeedBoost1,
                CheatCodeKind::SpeedBoost2,
                CheatCodeKind::SpeedBoost3,
                CheatCodeKind::SpeedBoost4,
            ],
            CheatCodeKind::Shield => seq![CheatCodeKind::Jump],
            CheatCodeKind::ExtraLife => seq![],
            CheatCodeKind::TempInvincibility => seq![CheatCodeKind::Armor, CheatCodeKind::Shield],
            CheatCodeKind::Fly => seq![CheatCodeKind::Jump, CheatCodeKind::DoubleJump],
        }
    }

    /// The icon shown for an ability.
    pub open spec fn image(self) -> Seq<char> {
        match self {
            CheatCodeKind::Jump => "jump.png"@,
            CheatCodeKind::Crouch => "crouch.png"@,
            CheatCodeKind::Attack => "attack.png"@,
            CheatCodeKind::AttackDmgBoost => "attack_dmg_boost.png"@,
            CheatCodeKind::AttackFireRateBoost => "attack_fr_boost.png"@,
            CheatCodeKind::MoveLeft => "move_left.png"@,
            CheatCodeKind::SpeedBoost1
            | CheatCodeKind::SpeedBoost2
            | CheatCodeKind::SpeedBoost3
            | CheatCodeKind::SpeedBoost4
            | CheatCodeKind::SpeedBoost5 => "speed.png"@,
            CheatCodeKind::Armor => "armor.png"@,
            CheatCodeKind::Dash => "dash.png"@,
            CheatCodeKind::DoubleJump => "double_jump.png"@,
            CheatCodeKind::Shield => "shield.png"@,
            CheatCodeKind::ExtraLife => "extra_life.png"@,
            CheatCodeKind::TempInvincibility => "temp_invincibility.png"@,
            CheatCodeKind::Fly => "fly.png"@,
        }
    }

    /// The display name of an ability: the name of its variant.
    pub open spec fn spec_name(self) -> Seq<char> {
        match self {
            CheatCodeKind::Jump => "Jump"@,
            CheatCodeKind::Crouch => "Crouch"@,
            CheatCodeKind::Attack => "Attack"@,
            CheatCodeKind::AttackDmgBoost => "AttackDmgBoost"@,
            CheatCodeKind::AttackFireRateBoost => "AttackFireRateBoost"@,
            CheatCodeKind::MoveLeft => "MoveLeft"@,
            CheatCodeKind::SpeedBoost1 => "SpeedBoost1"@,
            CheatCodeKind::SpeedBoost2 => "SpeedBoost2"@,
            CheatCodeKind::SpeedBoost3 => "SpeedBoost3"@,
            CheatCodeKind::Armor => "Armor"@,
            CheatCodeKind::Dash => "Dash"@,
            CheatCodeKind::DoubleJump => "DoubleJump"@,
            CheatCodeKind::SpeedBoost4 => "SpeedBoost4"@,
            CheatCodeKind::SpeedBoost5 => "SpeedBoost5"@,
            CheatCodeKind::Shield => "Shield"@,
            CheatCodeKind::ExtraLife => "ExtraLife"@,
            CheatCodeKind::TempInvincibility => "TempInvincibility"@,
            CheatCodeKind::Fly => "Fly"@,
        }
    }

    /// The position of an ability in the canonical catalog order.
    pub fn index(self) -> (i: usize)
        ensures
            i == self.ordinal(),
            i < KIND_COUNT,
    {
        match self {
            CheatCodeKind::Jump => 0,
            CheatCodeKind::Crouch => 1,
            CheatCodeKind::Attack => 2,
            CheatCodeKind::AttackDmgBoost => 3,
            CheatCodeKind::AttackFireRateBoost => 4,
            CheatCodeKind::MoveLeft => 5,
            CheatCodeKind::SpeedBoost1 => 6,
            CheatCodeKind::SpeedBoost2 => 7,
            CheatCodeKind::SpeedBoost3 => 8,
            CheatCodeKind::Armor => 9,
            CheatCodeKind::Dash => 10,
            CheatCodeKind::DoubleJump => 11,
            CheatCodeKind::SpeedBoost4 => 12,
            CheatCodeKind::SpeedBoost5 => 13,
            CheatCodeKind::Shield => 14,
            CheatCodeKind::ExtraLife => 15,
            CheatCodeKind::TempInvincibility => 16,
            CheatCodeKind::Fly => 17,
        }
    }

    /// The display name of an ability.
    pub fn name(self) -> (s: &'static str)
        ensures
            s@ == self.spec_name(),
    {
        match self {
            CheatCodeKind::Jump => "Jump",
            CheatCodeKind::Crouch => "Crouch",
            CheatCodeKind::Attack => "Attack",
            CheatCodeKind::AttackDmgBoost => "AttackDmgBoost",
            CheatCodeKind::AttackFireRateBoost => "AttackFireRateBoost",
            CheatCodeKind::MoveLeft => "MoveLeft",
            CheatCodeKind::SpeedBoost1 => "SpeedBoost1",
            CheatCodeKind::SpeedBoost2 => "SpeedBoost2",
            CheatCodeKind::SpeedBoost3 => "SpeedBoost3",
            CheatCodeKind::Armor => "Armor",
            CheatCodeKind::Dash => "Dash",
            CheatCodeKind::DoubleJump => "DoubleJump",
            CheatCodeKind::SpeedBoost4 => "SpeedBoost4",
            CheatCodeKind::SpeedBoost5 => "SpeedBoost5",
            CheatCodeKind::Shield => "Shield",
            CheatCodeKind::ExtraLife => "ExtraLife",
            CheatCodeKind::TempInvincibility => "TempInvincibility",
            CheatCodeKind::Fly => "Fly",
        }
    }
}

/// Every ability has a position below the catalog size.
pub proof fn lemma_ordinal_in_range(kind: CheatCodeKind)
    ensures
        kind.ordinal() < KIND_COUNT,
{
}

/// Two abilities at the same position are the same ability.
pub proof fn lemma_ordinal_injective(a: CheatCodeKind, b: CheatCodeKind)
    requires
        a.ordinal() == b.ordinal(),
    ensures
        a == b,
{
}

/// Every prerequisite of an ability comes before it in the canonical order,
/// so the dependency graph has no cycle.
pub proof fn lemma_dependencies_precede(kind: CheatCodeKind, dep: CheatCodeKind)
    requires
        kind.dependencies().contains(dep),
    ensures
        dep.ordinal() < kind.ordinal(),
{
}

/// A mandatory ability has no prerequisite.
pub proof fn lemma_mandatory_has_no_dependencies(kind: CheatCodeKind)
    requires
        kind.rarity() == CheatCodeRarity::Mandatory,
    ensures
        kind.dependencies().len() == 0,
{
}

} // verus!

//! Crew roles and their asset slugs.

use vstd::prelude::*;

verus! {

/// The nine creatable crew roles.
#[derive(Clone, Copy, Debug, PartialEq, Eq, Hash, Structural)]
pub enum CharacterRole {
    SwordsmanBoarder,
    GunnerMarksman,
    Helmsman,
    Navigator,
    DoctorSurgeon,
    Shipwright,
    CookQuartermaster,
    MusicianBosun,
    HistorianScholar,
}

/// Every role, in roster and icon-sheet reading order.
pub open spec fn all_roles() -> Seq<CharacterRole> {
    seq![
        CharacterRole::SwordsmanBoarder,
        CharacterRole::GunnerMarksman,
        CharacterRole::Helmsman,
        CharacterRole::Navigator,
        CharacterRole::DoctorSurgeon,
        CharacterRole::Shipwright,
        CharacterRole::CookQuartermaster,
        CharacterRole::MusicianBosun,
        CharacterRole::HistorianScholar,
    ]
}

/// Position of a role in [`all_roles`].
pub open spec fn role_ordinal(role: CharacterRole) -> int {
    match role {
        CharacterRole::SwordsmanBoarder => 0,
        CharacterRole::GunnerMarksman => 1,
        CharacterRole::Helmsman => 2,
        CharacterRole::Navigator => 3,
        CharacterRole::DoctorSurgeon => 4,
        CharacterRole::Shipwright => 5,
        CharacterRole::CookQuartermaster => 6,
        CharacterRole::MusicianBosun => 7,
        CharacterRole::HistorianScholar => 8,
    }
}

impl CharacterRole {
    /// Every role, in roster and icon-sheet reading order.
    pub fn all() -> (r: Vec<CharacterRole>)
        ensures
            r@ == all_roles(),
    {
        let r = vec![
            CharacterRole::SwordsmanBoarder,
            CharacterRole::GunnerMarksman,
            CharacterRole::Helmsman,
            CharacterRole::Navigator,
            CharacterRole::DoctorSurgeon,
            CharacterRole::Shipwright,
            CharacterRole::CookQuartermaster,
            CharacterRole::MusicianBosun,
            CharacterRole::HistorianScholar,
        ];
        assert(r@ =~= all_roles());
        r
    }

    /// Asset folder name of the role under `characters/player_default/`.
    pub fn asset_slug(self) -> (r: &'static str)
        ensures
            r@ == role_slug(self),
    {
        match self {
            CharacterRole::SwordsmanBoarder => "swordsman",
            CharacterRole::GunnerMarksman => "marksman",
            CharacterRole::Helmsman => "helmsman",
            CharacterRole::Navigator => "navigator",
            CharacterRole::DoctorSurgeon => "doctor",
            CharacterRole::Shipwright => "shipwright",
            CharacterRole::CookQuartermaster => "cook",
            CharacterRole::MusicianBosun => "musician",
            CharacterRole::HistorianScholar => "archaeologist",
        }
    }
}

/// Asset folder name of each role.
pub open spec fn role_slug(role: CharacterRole) -> Seq<char> {
    match role {
        CharacterRole::SwordsmanBoarder => "swordsman"@,
        CharacterRole::GunnerMarksman => "marksman"@,
        CharacterRole::Helmsman => "helmsman"@,
        CharacterRole::Navigator => "navigator"@,
        CharacterRole::DoctorSurgeon => "doctor"@,
        CharacterRole::Shipwright => "shipwright"@,
        CharacterRole::CookQuartermaster => "cook"@,
        CharacterRole::MusicianBosun => "musician"@,
        CharacterRole::HistorianScholar => "archaeologist"@,
    }
}

/// Index of a role's emblem in the class-icon sheet: its position in the
/// roster order.
pub fn role_icon_index(role: CharacterRole) -> (r: usize)
    ensures
        r == role_ordinal(role),
        all_roles()[r as int] == role,
{
    match role {
        CharacterRole::SwordsmanBoarder => 0,
        CharacterRole::GunnerMarksman => 1,
        CharacterRole::Helmsman => 2,
        CharacterRole::Navigator => 3,
        CharacterRole::DoctorSurgeon => 4,
        CharacterRole::Shipwright => 5,
        CharacterRole::CookQuartermaster => 6,
        CharacterRole::MusicianBosun => 7,
        CharacterRole::HistorianScholar => 8,
    }
}

} // verus!

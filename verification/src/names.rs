use vstd::prelude::*;
use crate::flow::DayTabs;
use crate::technology::TechnologyName;
use crate::technology::TechnologyCategory;
use crate::expedition::ExpeditionName;
use crate::weapon::WeaponName;
use crate::weapon::FireStrategy;
use crate::weapon::AirFireStrategy;
use crate::weapon::MortarShell;
use crate::weapon::Size;
use crate::flow::AppState;
use crate::flow::GameState;

verus! {

/// The name of an enum's variant, as shown to the player.
pub trait NameFromEnum {
    fn name(&self) -> String;
}

/// The displayed name of each `DayTabs`.
pub open spec fn day_tabs_label(x: DayTabs) -> &'static str {
    match x {
            DayTabs::Overview => "Overview",
            DayTabs::Population => "Population",
            DayTabs::Constructions => "Constructions",
            DayTabs::Armory => "Armory",
            DayTabs::Technology => "Technology",
            DayTabs::Expeditions => "Expeditions",
    }
}

impl NameFromEnum for DayTabs {
    fn name(&self) -> (s: String)
        ensures
            s@ == day_tabs_label(*self)@,
    {
        match self {
            DayTabs::Overview => "Overview".to_owned(),
            DayTabs::Population => "Population".to_owned(),
            DayTabs::Constructions => "Constructions".to_owned(),
            DayTabs::Armory => "Armory".to_owned(),
            DayTabs::Technology => "Technology".to_owned(),
            DayTabs::Expeditions => "Expeditions".to_owned(),
        }
    }
}

/// The displayed name of each `TechnologyName`.
pub open spec fn technology_name_label(x: TechnologyName) -> &'static str {
    match x {
            TechnologyName::Spotlight => "Spotlight",
            TechnologyName::Electricity => "Electricity",
            TechnologyName::Physics => "Physics",
            TechnologyName::Marines => "Marines",
            TechnologyName::Aimbot => "Aimbot",
            TechnologyName::Explosives => "Explosives",
            TechnologyName::Homing => "Homing",
            TechnologyName::Charts => "Charts",
            TechnologyName::Productivity => "Productivity",
    }
}

impl NameFromEnum for TechnologyName {
    fn name(&self) -> (s: String)
        ensures
            s@ == technology_name_label(*self)@,
    {
        match self {
            TechnologyName::Spotlight => "Spotlight".to_owned(),
            TechnologyName::Electricity => "Electricity".to_owned(),
            TechnologyName::Physics => "Physics".to_owned(),
            TechnologyName::Marines => "Marines".to_owned(),
            TechnologyName::Aimbot => "Aimbot".to_owned(),
            TechnologyName::Explosives => "Explosives".to_owned(),
            TechnologyName::Homing => "Homing".to_owned(),
            TechnologyName::Charts => "Charts".to_owned(),
            TechnologyName::Productivity => "Productivity".to_owned(),
        }
    }
}

/// The displayed name of each `TechnologyCategory`.
pub open spec fn technology_category_label(x: TechnologyCategory) -> &'static str {
    match x {
            TechnologyCategory::Science => "Science",
            TechnologyCategory::Military => "Military",
            TechnologyCategory::Economy => "Economy",
    }
}

impl NameFromEnum for TechnologyCategory {
    fn name(&self) -> (s: String)
        ensures
            s@ == technology_category_label(*self)@,
    {
        match self {
            TechnologyCategory::Science => "Science".to_owned(),
            TechnologyCategory::Military => "Military".to_owned(),
            TechnologyCategory::Economy => "Economy".to_owned(),
        }
    }
}

/// The displayed name of each `ExpeditionName`.
pub open spec fn expedition_name_label(x: ExpeditionName) -> &'static str {
    match x {
            ExpeditionName::Small => "Small",
            ExpeditionName::Medium => "Medium",
            ExpeditionName::Large => "Large",
    }
}

impl NameFromEnum for ExpeditionName {
    fn name(&self) -> (s: String)
        ensures
            s@ == expedition_name_label(*self)@,
    {
        match self {
            ExpeditionName::Small => "Small".to_owned(),
            ExpeditionName::Medium => "Medium".to_owned(),
            ExpeditionName::Large => "Large".to_owned(),
        }
    }
}

/// The displayed name of each `WeaponName`.
pub open spec fn weapon_name_label(x: WeaponName) -> &'static str {
    match x {
            WeaponName::AAA => "AAA",
            WeaponName::Artillery => "Artillery",
            WeaponName::Canon => "Canon",
            WeaponName::Flamethrower => "Flamethrower",
            WeaponName::MachineGun => "MachineGun",
            WeaponName::MissileLauncher => "MissileLauncher",
            WeaponName::Mortar => "Mortar",
            WeaponName::Turret => "Turret",
    }
}

impl NameFromEnum for WeaponName {
    fn name(&self) -> (s: String)
        ensures
            s@ == weapon_name_label(*self)@,
    {
        match self {
            WeaponName::AAA => "AAA".to_owned(),
            WeaponName::Artillery => "Artillery".to_owned(),
            WeaponName::Canon => "Canon".to_owned(),
            WeaponName::Flamethrower => "Flamethrower".to_owned(),
            WeaponName::MachineGun => "MachineGun".to_owned(),
            WeaponName::MissileLauncher => "MissileLauncher".to_owned(),
            WeaponName::Mortar => "Mortar".to_owned(),
            WeaponName::Turret => "Turret".to_owned(),
        }
    }
}

/// The displayed name of each `FireStrategy`.
pub open spec fn fire_strategy_label(x: FireStrategy) -> &'static str {
    match x {
            FireStrategy::Off => "None",
            FireStrategy::Closest => "Closest",
            FireStrategy::Strongest => "Strongest",
            FireStrategy::Density => "Density",
    }
}

impl NameFromEnum for FireStrategy {
    fn name(&self) -> (s: String)
        ensures
            s@ == fire_strategy_label(*self)@,
    {
        match self {
            FireStrategy::Off => "None".to_owned(),
            FireStrategy::Closest => "Closest".to_owned(),
            FireStrategy::Strongest => "Strongest".to_owned(),
            FireStrategy::Density => "Density".to_owned(),
        }
    }
}

/// The displayed name of each `AirFireStrategy`.
pub open spec fn air_fire_strategy_label(x: AirFireStrategy) -> &'static str {
    match x {
            AirFireStrategy::Off => "None",
            AirFireStrategy::All => "All",
            AirFireStrategy::Grounded => "Grounded",
            AirFireStrategy::Airborne => "Airborne",
    }
}

impl NameFromEnum for AirFireStrategy {
    fn name(&self) -> (s: String)
        ensures
            s@ == air_fire_strategy_label(*self)@,
    {
        match self {
            AirFireStrategy::Off => "None".to_owned(),
            AirFireStrategy::All => "All".to_owned(),
            AirFireStrategy::Grounded => "Grounded".to_owned(),
            AirFireStrategy::Airborne => "Airborne".to_owned(),
        }
    }
}

/// The displayed name of each `MortarShell`.
pub open spec fn mortar_shell_label(x: MortarShell) -> &'static str {
    match x {
            MortarShell::Off => "None",
            MortarShell::Light => "Light",
            MortarShell::Heavy => "Heavy",
    }
}

impl NameFromEnum for MortarShell {
    fn name(&self) -> (s: String)
        ensures
            s@ == mortar_shell_label(*self)@,
    {
        match self {
            MortarShell::Off => "None".to_owned(),
            MortarShell::Light => "Light".to_owned(),
            MortarShell::Heavy => "Heavy".to_owned(),
        }
    }
}

/// The displayed name of each `Size`.
pub open spec fn size_label(x: Size) -> &'static str {
    match x {
            Size::Small => "Small",
            Size::Medium => "Medium",
            Size::Large => "Large",
            Size::Huge => "Huge",
    }
}

impl NameFromEnum for Size {
    fn name(&self) -> (s: String)
        ensures
            s@ == size_label(*self)@,
    {
        match self {
            Size::Small => "Small".to_owned(),
            Size::Medium => "Medium".to_owned(),
            Size::Large => "Large".to_owned(),
            Size::Huge => "Huge".to_owned(),
        }
    }
}

/// The displayed name of each `AppState`.
pub open spec fn app_state_label(x: AppState) -> &'static str {
    match x {
            AppState::Day => "Day",
            AppState::EndNight => "EndNight",
            AppState::Night => "Night",
            AppState::GameOver => "GameOver",
            AppState::StartGame => "StartGame",
    }
}

impl NameFromEnum for AppState {
    fn name(&self) -> (s: String)
        ensures
            s@ == app_state_label(*self)@,
    {
        match self {
            AppState::Day => "Day".to_owned(),
            AppState::EndNight => "EndNight".to_owned(),
            AppState::Night => "Night".to_owned(),
            AppState::GameOver => "GameOver".to_owned(),
            AppState::StartGame => "StartGame".to_owned(),
        }
    }
}

/// The displayed name of each `GameState`.
pub open spec fn game_state_label(x: GameState) -> &'static str {
    match x {
            GameState::Running => "Running",
            GameState::Paused => "Paused",
    }
}

impl NameFromEnum for GameState {
    fn name(&self) -> (s: String)
        ensures
            s@ == game_state_label(*self)@,
    {
        match self {
            GameState::Running => "Running".to_owned(),
            GameState::Paused => "Paused".to_owned(),
        }
    }
}

} // verus!

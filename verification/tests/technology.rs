use fortress::names::NameFromEnum;
use fortress::technology::{Technologies, Technology, TechnologyCategory, TechnologyName};

#[test]
fn technologies_have_their_prices() {
    assert_eq!(Technology::get(TechnologyName::Spotlight).price, 600);
    assert_eq!(Technology::get(TechnologyName::Electricity).price, 2400);
    assert_eq!(Technology::get(TechnologyName::Physics).price, 5000);
    assert_eq!(Technology::get(TechnologyName::Marines).price, 500);
    assert_eq!(Technology::get(TechnologyName::Aimbot).price, 1000);
    assert_eq!(Technology::get(TechnologyName::Explosives).price, 2500);
    assert_eq!(Technology::get(TechnologyName::Homing).price, 5000);
    assert_eq!(Technology::get(TechnologyName::Charts).price, 1500);
    assert_eq!(Technology::get(TechnologyName::Productivity).price, 5000);
}

#[test]
fn technologies_have_their_categories() {
    assert_eq!(Technology::get(TechnologyName::Physics).category, TechnologyCategory::Science);
    assert_eq!(Technology::get(TechnologyName::Homing).category, TechnologyCategory::Military);
    assert_eq!(Technology::get(TechnologyName::Charts).category, TechnologyCategory::Economy);
    assert_eq!(Technology::get(TechnologyName::Marines).description, "Doubles the strength of your soldiers.");
}

#[test]
fn technology_list_is_complete_and_ordered() {
    let all = Technology::iter();
    assert_eq!(all.len(), 9);
    assert_eq!(all[0].name, TechnologyName::Spotlight);
    assert_eq!(all[8].name, TechnologyName::Productivity);
    let names: Vec<String> = all.iter().map(|t| t.name.name()).collect();
    assert_eq!(names.join(","), "Spotlight,Electricity,Physics,Marines,Aimbot,Explosives,Homing,Charts,Productivity");
    let categories: Vec<String> = TechnologyCategory::iter().iter().map(|c| c.name()).collect();
    assert_eq!(categories, vec!["Science", "Military", "Economy"]);
}

#[test]
fn research_needs_the_price() {
    let mut t = Technologies::new();
    assert!(!t.research(TechnologyName::Charts, false));
    assert!(!t.has_tech(TechnologyName::Charts));
    assert!(t.research(TechnologyName::Charts, true));
    assert!(t.has_tech(TechnologyName::Charts));
    assert!(!t.has_tech(TechnologyName::Marines));
}

#[test]
fn research_only_adds() {
    let mut t = Technologies::new();
    t.research(TechnologyName::Aimbot, true);
    t.research(TechnologyName::Homing, true);
    t.research(TechnologyName::Aimbot, true);
    assert!(t.has_tech(TechnologyName::Aimbot));
    assert!(t.has_tech(TechnologyName::Homing));
    assert_eq!(t.list(), vec![TechnologyName::Aimbot, TechnologyName::Homing]);
}

#[test]
fn marines_double_the_soldiers() {
    let mut t = Technologies::new();
    assert_eq!(t.get_soldier_damage(), 5);
    t.research(TechnologyName::Marines, true);
    assert_eq!(t.get_soldier_damage(), 10);
}

#[test]
fn researched_list_round_trips() {
    let list = vec![TechnologyName::Physics, TechnologyName::Spotlight, TechnologyName::Physics];
    let t = Technologies::from_list(&list);
    assert_eq!(t.list(), vec![TechnologyName::Spotlight, TechnologyName::Physics]);
    let copy = t.clone();
    assert!(copy.has_tech(TechnologyName::Spotlight));
}

#[test]
fn researched_list_follows_the_shown_order() {
    let mut t = Technologies::new();
    t.research(TechnologyName::Productivity, true);
    t.research(TechnologyName::Marines, true);
    t.research(TechnologyName::Spotlight, true);
    assert_eq!(
        t.list(),
        vec![TechnologyName::Spotlight, TechnologyName::Marines, TechnologyName::Productivity]
    );
    let copy = t.clone();
    assert_eq!(copy.list(), t.list());
    assert!(!copy.has_tech(TechnologyName::Charts));
}

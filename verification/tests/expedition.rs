use fortress::expedition::{advance, reward_scale, ExpeditionDay, ExpeditionName, RewardScale};
use fortress::names::NameFromEnum;

#[test]
fn expeditions_have_their_terms() {
    let small = ExpeditionName::Small;
    assert_eq!((small.members(), small.max_day(), small.gasoline_price(), small.materials_price()), (25, 3, 150, 75));
    let large = ExpeditionName::Large;
    assert_eq!((large.members(), large.max_day(), large.gasoline_price(), large.materials_price()), (125, 5, 450, 225));
    assert_eq!(ExpeditionName::Medium.duration(), "1-3 days");
    let names: Vec<String> = ExpeditionName::iter().iter().map(|e| e.name()).collect();
    assert_eq!(names, vec!["Small", "Medium", "Large"]);
}

#[test]
fn an_expedition_is_lost_on_its_last_day() {
    assert_eq!(advance(0, 3), ExpeditionDay { day: 1, lost: false });
    assert_eq!(advance(1, 3), ExpeditionDay { day: 2, lost: false });
    assert_eq!(advance(2, 3), ExpeditionDay { day: 3, lost: true });
}

#[test]
fn rewards_grow_with_the_days_away() {
    assert_eq!(
        reward_scale(25, 150, 75, 2),
        RewardScale { population: 200, bullets: 1200, gasoline: 9600, materials: 4800, technology: 4800, mines: 4, bombs: 2 }
    );
    assert_eq!(
        reward_scale(125, 450, 225, 1),
        RewardScale { population: 125, bullets: 450, gasoline: 450, materials: 225, technology: 225, mines: 1, bombs: 1 }
    );
}
